//! What the localnet commands print and decide, from what they observed:
//! the status text, the stop plan, the log views and the errors.

use vstd::prelude::*;
use crate::status::{LocalnetStatusReport, ownership_text, ownership_label};
use crate::text::{
    decimal, u32_text, bool_text, bool_string, views, lines, line_ranges, trim,
    trim_range, to_chars, string_of_range,
};

verus! {

/// The last `n` items of `s`, or all of them where there are fewer.
pub open spec fn last_n<A>(s: Seq<A>, n: nat) -> Seq<A> {
    if s.len() <= n {
        s
    } else {
        s.skip(s.len() - n)
    }
}

/// Lines joined by `\n`, with none after the last.
pub open spec fn join_newline(ls: Seq<Seq<char>>) -> Seq<char>
    decreases ls.len(),
{
    if ls.len() == 0 {
        Seq::<char>::empty()
    } else if ls.len() == 1 {
        ls[0]
    } else {
        join_newline(ls.drop_last()) + seq!['\n'] + ls.last()
    }
}

/// A pid as the commands print it: its number, or `unknown`.
pub open spec fn pid_text(pid: Option<u32>) -> Seq<char> {
    match pid {
        Some(p) => decimal(p as nat),
        None => "unknown"@,
    }
}

/// A pid as the commands print it: its number, or `unknown`.
pub fn pid_string(pid: Option<u32>) -> (s: String)
    ensures
        s@ == pid_text(pid),
{
    match pid {
        Some(p) => u32_text(p),
        None => String::from_str("unknown"),
    }
}

/// The lines of `content`, from the `tail`-th last on.
fn tail_lines(v: &Vec<char>, tail: usize) -> (r: Vec<String>)
    ensures
        views(r@) == last_n(lines(v@), tail as nat),
{
    let ranges = line_ranges(v);
    let n = ranges.len();
    let start = n.saturating_sub(tail);
    let mut r: Vec<String> = Vec::new();
    let mut k = start;
    while k < n
        invariant
            n == ranges@.len(),
            ranges@.len() == lines(v@).len(),
            forall|i: int|
                #![trigger ranges@[i]]
                0 <= i < ranges@.len() ==> {
                    &&& ranges@[i].0 <= ranges@[i].1 <= v@.len()
                    &&& v@.subrange(ranges@[i].0 as int, ranges@[i].1 as int) =~= lines(v@)[i]
                },
            start <= k <= n,
            views(r@) =~= lines(v@).subrange(start as int, k as int),
        decreases n - k,
    {
        let (a, b) = ranges[k];
        let s = string_of_range(v, a, b);
        r.push(s);
        assert(lines(v@).subrange(start as int, k + 1) == lines(v@).subrange(
            start as int,
            k as int,
        ).push(lines(v@)[k as int]));
        assert(views(r@) =~= lines(v@).subrange(start as int, k + 1));
        k = k + 1;
    }
    assert(lines(v@).subrange(start as int, n as int) =~= last_n(lines(v@), tail as nat));
    r
}

/// Joins lines with `\n`.
fn join_lines_newline(ls: &Vec<String>) -> (s: String)
    ensures
        s@ == join_newline(views(ls@)),
{
    let mut s = String::new();
    let mut k: usize = 0;
    while k < ls.len()
        invariant
            k <= ls@.len(),
            s@ == join_newline(views(ls@).take(k as int)),
        decreases ls@.len() - k,
    {
        let ghost prev = views(ls@).take(k as int);
        if k > 0 {
            crate::text::push_char(&mut s, '\n');
        }
        s.append(ls[k].as_str());
        assert(views(ls@).take(k + 1).drop_last() == prev);
        assert(views(ls@).take(k + 1).last() == ls@[k as int]@);
        if k == 0 {
            assert(views(ls@).take(1) == seq![ls@[0]@]);
        }
        k = k + 1;
    }
    assert(views(ls@).take(ls@.len() as int) == views(ls@));
    s
}

/// The last lines of the sequencer's log, as start errors quote them.
pub open spec fn log_tail_of(content: Option<Seq<char>>, log_path: Seq<char>, tail: nat) -> Seq<char> {
    match content {
        None => "<log file missing: "@ + log_path + ">"@,
        Some(c) => if lines(c).len() == 0 {
            "<no log output yet>"@
        } else {
            join_newline(last_n(lines(c), tail))
        },
    }
}

/// The last `tail` lines of the log, joined; `content` is `None` where the
/// log could not be read.
pub fn log_tail(content: Option<&str>, log_path: &str, tail: usize) -> (s: String)
    ensures
        s@ == log_tail_of(
            match content {
                Some(c) => Some(c@),
                None => None,
            },
            log_path@,
            tail as nat,
        ),
{
    match content {
        None => {
            let mut s = String::from_str("<log file missing: ");
            s.append(log_path);
            s.append(">");
            s
        },
        Some(c) => {
            let v = to_chars(c);
            let ranges = line_ranges(&v);
            if ranges.len() == 0 {
                return String::from_str("<no log output yet>");
            }
            let ls = tail_lines(&v, tail);
            join_lines_newline(&ls)
        },
    }
}

/// What `localnet logs` prints: a note where the log does not exist or holds
/// only whitespace, else its last `tail` lines.
pub open spec fn log_view_of(content: Option<Seq<char>>, log_path: Seq<char>, tail: nat) -> Seq<
    Seq<char>,
> {
    match content {
        None => seq!["log file does not exist yet: "@ + log_path],
        Some(c) => if trim(c).len() == 0 {
            seq!["log file is empty: "@ + log_path]
        } else {
            last_n(lines(c), tail)
        },
    }
}

/// The lines that `localnet logs` prints; `content` is `None` where the log
/// does not exist.
pub fn log_view(content: Option<&str>, log_path: &str, tail: usize) -> (r: Vec<String>)
    ensures
        views(r@) == log_view_of(
            match content {
                Some(c) => Some(c@),
                None => None,
            },
            log_path@,
            tail as nat,
        ),
{
    match content {
        None => {
            let mut s = String::from_str("log file does not exist yet: ");
            s.append(log_path);
            let mut r = Vec::new();
            r.push(s);
            assert(views(r@) =~= seq![s@]);
            r
        },
        Some(c) => {
            let v = to_chars(c);
            let (a, b) = trim_range(&v, 0, v.len());
            assert(v@.subrange(0, v@.len() as int) == v@);
            if a == b {
                let mut s = String::from_str("log file is empty: ");
                s.append(log_path);
                let mut r = Vec::new();
                r.push(s);
                assert(views(r@) =~= seq![s@]);
                r
            } else {
                tail_lines(&v, tail)
            }
        },
    }
}


/// The first line of the status text: the tracked sequencer.
pub open spec fn tracked_line(r: LocalnetStatusReport) -> Seq<char> {
    match r.tracked_pid {
        Some(pid) => "tracked sequencer: pid="@ + decimal(pid as nat) + " running="@ + bool_text(
            r.tracked_running,
        ),
        None => "tracked sequencer: not tracked"@,
    }
}

/// The second line of the status text: the listener on the address.
pub open spec fn listener_line(r: LocalnetStatusReport, addr: Seq<char>) -> Seq<char> {
    if r.listener_present {
        "listener "@ + addr + ": reachable (pid="@ + pid_text(r.listener_pid) + ")"@
    } else {
        "listener "@ + addr + ": not reachable"@
    }
}

/// Each line after `- `.
pub open spec fn bullets(steps: Seq<Seq<char>>) -> Seq<Seq<char>>
    decreases steps.len(),
{
    if steps.len() == 0 {
        Seq::<Seq<char>>::empty()
    } else {
        bullets(steps.drop_last()).push("- "@ + steps.last())
    }
}

/// The next steps of the status text, each after `- `, under a heading.
pub open spec fn next_step_lines(steps: Seq<Seq<char>>) -> Seq<Seq<char>> {
    if steps.len() == 0 {
        Seq::<Seq<char>>::empty()
    } else {
        seq!["next steps:"@] + bullets(steps)
    }
}

/// The status text that `localnet status` prints.
pub open spec fn status_text(r: LocalnetStatusReport, addr: Seq<char>) -> Seq<Seq<char>> {
    seq![
        tracked_line(r),
        listener_line(r, addr),
        "ownership: "@ + ownership_text(r.ownership),
        "ready: "@ + bool_text(r.ready),
    ] + next_step_lines(views(r.remediation@))
}

/// The lines that `localnet status` prints for a report.
pub fn status_lines(report: &LocalnetStatusReport, localnet_addr: &str) -> (r: Vec<String>)
    ensures
        views(r@) == status_text(*report, localnet_addr@),
{
    let mut out: Vec<String> = Vec::new();
    let first = match report.tracked_pid {
        Some(pid) => {
            let mut s = String::from_str("tracked sequencer: pid=");
            let d = u32_text(pid);
            s.append(d.as_str());
            s.append(" running=");
            let b = bool_string(report.tracked_running);
            s.append(b.as_str());
            s
        },
        None => String::from_str("tracked sequencer: not tracked"),
    };
    out.push(first);
    let mut second = String::from_str("listener ");
    second.append(localnet_addr);
    if report.listener_present {
        second.append(": reachable (pid=");
        let p = pid_string(report.listener_pid);
        second.append(p.as_str());
        second.append(")");
    } else {
        second.append(": not reachable");
    }
    out.push(second);
    let mut third = String::from_str("ownership: ");
    third.append(ownership_label(report.ownership));
    out.push(third);
    let mut fourth = String::from_str("ready: ");
    let b = bool_string(report.ready);
    fourth.append(b.as_str());
    out.push(fourth);
    let ghost head = views(out@);
    assert(head =~= seq![
        tracked_line(*report),
        listener_line(*report, localnet_addr@),
        "ownership: "@ + ownership_text(report.ownership),
        "ready: "@ + bool_text(report.ready),
    ]);
    let steps = &report.remediation;
    if steps.len() > 0 {
        out.push(String::from_str("next steps:"));
        assert(views(steps@).take(0) == Seq::<Seq<char>>::empty());
        let mut k: usize = 0;
        while k < steps.len()
            invariant
                k <= steps@.len(),
                steps@.len() > 0,
                views(out@) =~= head + seq!["next steps:"@] + bullets(views(steps@).take(k as int)),
            decreases steps@.len() - k,
        {
            let ghost before = views(out@);
            let mut line = String::from_str("- ");
            line.append(steps[k].as_str());
            out.push(line);
            assert(views(out@) =~= before.push(line@));
            assert(line@ == "- "@ + steps@[k as int]@);
            assert(views(steps@).take(k + 1).drop_last() == views(steps@).take(k as int));
            assert(views(steps@).take(k + 1).last() == steps@[k as int]@);
            assert(bullets(views(steps@).take(k + 1)) == bullets(views(steps@).take(k as int)).push(
                "- "@ + steps@[k as int]@,
            ));
            k = k + 1;
        }
        assert(views(steps@).take(steps@.len() as int) == views(steps@));
    }
    assert(views(out@) =~= status_text(*report, localnet_addr@));
    out
}

/// How long `localnet stop` waits for a killed sequencer to exit.
pub const STOP_EXIT_TIMEOUT_MILLIS: u64 = 5000;

/// How often `localnet stop` checks whether a killed sequencer has exited.
pub const EXIT_POLL_MILLIS: u64 = 100;

/// The message when a killed sequencer still runs after the wait.
pub open spec fn exit_wait_text(pid: u32) -> Seq<char> {
    "sequencer (pid="@ + decimal(pid as nat) + ") is still running after kill"@
}

/// The message when a killed sequencer still runs after the wait.
pub fn exit_wait_message(pid: u32) -> (s: String)
    ensures
        s@ == exit_wait_text(pid),
{
    let mut s = String::from_str("sequencer (pid=");
    let d = u32_text(pid);
    s.append(d.as_str());
    s.append(") is still running after kill");
    s
}

/// One step of `localnet stop`.
#[derive(Debug, Clone, PartialEq, Eq)]
pub enum StopStep {
    /// Print this line.
    Say(String),
    /// Send the sequencer with this pid the signal to terminate.
    Kill(u32),
    /// Wait until this process no longer runs, polling every
    /// `EXIT_POLL_MILLIS` ms for at most `timeout_ms` ms; fail with
    /// `exit_wait_message(pid)` where it still runs then.
    AwaitExit { pid: u32, timeout_ms: u64 },
    /// Delete the localnet state file, if it is there.
    RemoveStateFile,
}

/// The mathematical value of a [`StopStep`].
pub enum StopStepView {
    Say(Seq<char>),
    Kill(u32),
    AwaitExit(u32, u64),
    RemoveStateFile,
}

impl View for StopStep {
    type V = StopStepView;

    open spec fn view(&self) -> StopStepView {
        match self {
            StopStep::Say(s) => StopStepView::Say(s@),
            StopStep::Kill(p) => StopStepView::Kill(*p),
            StopStep::AwaitExit { pid, timeout_ms } => StopStepView::AwaitExit(*pid, *timeout_ms),
            StopStep::RemoveStateFile => StopStepView::RemoveStateFile,
        }
    }
}

/// The views of a sequence of stop steps.
pub open spec fn stop_views(v: Seq<StopStep>) -> Seq<StopStepView> {
    v.map_values(|s: StopStep| s@)
}

/// What `localnet stop` does, from the status report: a tracked sequencer is
/// killed where it runs (and reported stale where it does not), its state is
/// deleted and the localnet reported stopped; a listener that is not tracked
/// is left alone.
pub open spec fn stop_plan_of(r: LocalnetStatusReport, addr: Seq<char>) -> Seq<StopStepView> {
    match r.tracked_pid {
        Some(pid) => (if r.tracked_running {
            seq![
                StopStepView::Say("$ kill "@ + decimal(pid as nat) + " # sequencer"@),
                StopStepView::Kill(pid),
                StopStepView::AwaitExit(pid, 5000),
            ]
        } else {
            seq![
                StopStepView::Say(
                    "sequencer state is stale (pid="@ + decimal(pid as nat) + " not running)"@,
                ),
            ]
        }) + seq![StopStepView::RemoveStateFile, StopStepView::Say("localnet stopped"@)],
        None => if r.listener_present {
            seq![
                StopStepView::Say(
                    "foreign listener detected on "@ + addr + " (pid="@ + pid_text(r.listener_pid)
                        + "); not stopping unmanaged process"@,
                ),
            ]
        } else {
            seq![StopStepView::Say("localnet not running"@)]
        },
    }
}

/// The steps of `localnet stop` for a status report.
pub fn stop_plan(report: &LocalnetStatusReport, localnet_addr: &str) -> (r: Vec<StopStep>)
    ensures
        stop_views(r@) == stop_plan_of(*report, localnet_addr@),
{
    let mut r: Vec<StopStep> = Vec::new();
    match report.tracked_pid {
        Some(pid) => {
            let d = u32_text(pid);
            if report.tracked_running {
                let mut s = String::from_str("$ kill ");
                s.append(d.as_str());
                s.append(" # sequencer");
                r.push(StopStep::Say(s));
                r.push(StopStep::Kill(pid));
                r.push(StopStep::AwaitExit { pid, timeout_ms: STOP_EXIT_TIMEOUT_MILLIS });
            } else {
                let mut s = String::from_str("sequencer state is stale (pid=");
                s.append(d.as_str());
                s.append(" not running)");
                r.push(StopStep::Say(s));
            }
            r.push(StopStep::RemoveStateFile);
            r.push(StopStep::Say(String::from_str("localnet stopped")));
        },
        None => {
            if report.listener_present {
                let mut s = String::from_str("foreign listener detected on ");
                s.append(localnet_addr);
                s.append(" (pid=");
                let p = pid_string(report.listener_pid);
                s.append(p.as_str());
                s.append("); not stopping unmanaged process");
                r.push(StopStep::Say(s));
            } else {
                r.push(StopStep::Say(String::from_str("localnet not running")));
            }
        },
    }
    assert(stop_views(r@) =~= stop_plan_of(*report, localnet_addr@));
    r
}

/// `localnet stop` kills only the tracked sequencer, and only where it runs:
/// a listener that is not tracked is never stopped; every kill is followed by
/// a wait until the process has exited, before the state is deleted; and the
/// localnet state is deleted exactly when a sequencer is tracked.
pub proof fn lemma_stop_kills_only_tracked(r: LocalnetStatusReport, addr: Seq<char>, i: int)
    requires
        0 <= i < stop_plan_of(r, addr).len(),
    ensures
        stop_plan_of(r, addr)[i] matches StopStepView::Kill(pid) ==> (r.tracked_pid == Some(pid)
            && r.tracked_running && i + 1 < stop_plan_of(r, addr).len() && stop_plan_of(r, addr)[i
            + 1] == StopStepView::AwaitExit(pid, 5000) && i + 2 < stop_plan_of(r, addr).len()
            && stop_plan_of(r, addr)[i + 2] == StopStepView::RemoveStateFile),
        (stop_plan_of(r, addr)[i] is RemoveStateFile) ==> r.tracked_pid is Some,
        r.tracked_pid is Some ==> stop_plan_of(r, addr).contains(StopStepView::RemoveStateFile),
{
    if r.tracked_pid is Some {
        let p = stop_plan_of(r, addr);
        assert(p[p.len() - 2] == StopStepView::RemoveStateFile);
    }
}

/// What `localnet stop` prints outside a project, where it only looks at the
/// default port and never stops anything: `port_open` tells whether the port
/// accepts connections, `listener_pid` which process listens, and
/// `listener_command` that process's command line.
pub open spec fn outside_stop_text(
    port_open: bool,
    listener_pid: Option<u32>,
    listener_command: Option<Seq<char>>,
) -> Seq<Seq<char>> {
    if !port_open {
        seq!["localnet not running (no listener on 127.0.0.1:3040)"@]
    } else {
        seq![
            "listener detected on 127.0.0.1:3040 (pid="@ + pid_text(listener_pid) + ")"@,
            "This command is running outside a logos-scaffold project; it will not stop unmanaged processes automatically."@,
            "This may be a sequencer started from another project and may not match your current workspace."@,
        ] + match listener_pid {
            Some(pid) => match listener_command {
                Some(c) => seq!["listener process: "@ + c, "Try: kill "@ + decimal(pid as nat)],
                None => seq!["Try: kill "@ + decimal(pid as nat)],
            },
            None => seq!["Try: lsof -nP -iTCP:3040 -sTCP:LISTEN"@],
        }
    }
}

/// The lines that `localnet stop` prints outside a project.
pub fn outside_stop_lines(
    port_open: bool,
    listener_pid: Option<u32>,
    listener_command: Option<&str>,
) -> (r: Vec<String>)
    ensures
        views(r@) == outside_stop_text(
            port_open,
            listener_pid,
            match listener_command {
                Some(c) => Some(c@),
                None => None,
            },
        ),
{
    let mut r: Vec<String> = Vec::new();
    if !port_open {
        r.push(String::from_str("localnet not running (no listener on 127.0.0.1:3040)"));
        assert(views(r@) =~= seq!["localnet not running (no listener on 127.0.0.1:3040)"@]);
        return r;
    }
    let mut first = String::from_str("listener detected on 127.0.0.1:3040 (pid=");
    let p = pid_string(listener_pid);
    first.append(p.as_str());
    first.append(")");
    r.push(first);
    r.push(
        String::from_str(
            "This command is running outside a logos-scaffold project; it will not stop unmanaged processes automatically.",
        ),
    );
    r.push(
        String::from_str(
            "This may be a sequencer started from another project and may not match your current workspace.",
        ),
    );
    match listener_pid {
        Some(pid) => {
            match listener_command {
                Some(c) => {
                    let mut l = String::from_str("listener process: ");
                    l.append(c);
                    r.push(l);
                },
                None => {},
            }
            let mut l = String::from_str("Try: kill ");
            let d = u32_text(pid);
            l.append(d.as_str());
            r.push(l);
        },
        None => {
            r.push(String::from_str("Try: lsof -nP -iTCP:3040 -sTCP:LISTEN"));
        },
    }
    assert(views(r@) =~= outside_stop_text(
        port_open,
        listener_pid,
        match listener_command {
            Some(c) => Some(c@),
            None => None,
        },
    ));
    r
}

/// Stop kills a tracked sequencer that runs, whatever listens on the port or
/// not: it says so, kills it, waits for it to exit, and only then deletes
/// the state. A tracked sequencer that does not run is not killed, and
/// nothing is killed or deleted where nothing is tracked.
pub proof fn lemma_stop_kills_running_tracked(r: LocalnetStatusReport, addr: Seq<char>, pid: u32)
    ensures
        (r.tracked_pid == Some(pid) && r.tracked_running) ==> {
            let p = stop_plan_of(r, addr);
            &&& p.len() == 5
            &&& p[0] == StopStepView::Say("$ kill "@ + decimal(pid as nat) + " # sequencer"@)
            &&& p[1] == StopStepView::Kill(pid)
            &&& p[2] == StopStepView::AwaitExit(pid, 5000)
            &&& p[3] == StopStepView::RemoveStateFile
        },
        !r.tracked_running ==> forall|i: int|
            0 <= i < stop_plan_of(r, addr).len() ==> !(#[trigger] stop_plan_of(r, addr)[i] is Kill),
        r.tracked_pid is None ==> forall|i: int|
            0 <= i < stop_plan_of(r, addr).len() ==> (#[trigger] stop_plan_of(r, addr)[i] is Say),
{
}

} // verus!
