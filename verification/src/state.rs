//! The localnet state file: which sequencer process the project started.
//! It holds one line, `sequencer_pid=<pid>`.

use vstd::prelude::*;
use crate::config::range_is;
use crate::text::{
    to_chars, trim, trim_start, trim_end, lines, line_ranges, trim_range, parse_u32,
    parse_u32_range, decimal, lemma_lines_one, lemma_decimal_digits, lacks, is_digit, strip_cr,
    u32_text, push_char,
};

verus! {

/// What starts the line that records the sequencer's pid.
pub const SEQUENCER_PID_PREFIX: &'static str = "sequencer_pid=";

/// The pid that the first of `ls` whose trimmed text starts with
/// `sequencer_pid=` records: the rest of that line, trimmed, read as a
/// `u32`. `None` where no line starts so, or where the first that does holds
/// no such number.
pub open spec fn pid_of_lines(ls: Seq<Seq<char>>) -> Option<u32>
    decreases ls.len(),
{
    if ls.len() == 0 {
        None
    } else {
        let t = trim(ls[0]);
        let p = SEQUENCER_PID_PREFIX@;
        if t.len() >= p.len() && t.take(p.len() as int) == p {
            parse_u32(trim(t.skip(p.len() as int)))
        } else {
            pid_of_lines(ls.drop_first())
        }
    }
}

/// The pid that a localnet state text records.
pub open spec fn state_pid(text: Seq<char>) -> Option<u32> {
    pid_of_lines(lines(text))
}

/// The localnet state text that records `pid`.
pub open spec fn state_text(pid: u32) -> Seq<char> {
    SEQUENCER_PID_PREFIX@ + decimal(pid as nat) + seq!['\n']
}

/// Reads the sequencer pid that a localnet state text records.
pub fn parse_state_pid(text: &str) -> (r: Option<u32>)
    ensures
        r == state_pid(text@),
{
    let v = to_chars(text);
    let rs = line_ranges(&v);
    let ghost ls = lines(v@);
    let n: usize = 14;
    proof {
        reveal_strlit("sequencer_pid=");
    }
    assert(SEQUENCER_PID_PREFIX@.len() == n);
    assert(ls.skip(0) == ls);
    let mut k: usize = 0;
    while k < rs.len()
        invariant
            k <= rs@.len(),
            rs@.len() == ls.len(),
            ls == lines(v@),
            v@ == text@,
            n == SEQUENCER_PID_PREFIX@.len(),
            forall|j: int|
                #![trigger rs@[j]]
                0 <= j < rs@.len() ==> {
                    &&& rs@[j].0 <= rs@[j].1 <= v@.len()
                    &&& v@.subrange(rs@[j].0 as int, rs@[j].1 as int) =~= ls[j]
                },
            pid_of_lines(ls) == pid_of_lines(ls.skip(k as int)),
        decreases rs@.len() - k,
    {
        let (a, b) = rs[k];
        let (ts, te) = trim_range(&v, a, b);
        let ghost t = trim(ls[k as int]);
        assert(v@.subrange(ts as int, te as int) == t);
        assert(ls.skip(k as int)[0] == ls[k as int]);
        assert(ls.skip(k as int).drop_first() == ls.skip(k + 1));
        if te - ts >= n && range_is(&v, ts, ts + n, SEQUENCER_PID_PREFIX) {
            assert(t.take(n as int) == v@.subrange(ts as int, ts + n));
            let (vs, ve) = trim_range(&v, ts + n, te);
            assert(t.skip(n as int) == v@.subrange(ts + n, te as int));
            return parse_u32_range(&v, vs, ve);
        }
        assert(!(t.len() >= n && t.take(n as int) == SEQUENCER_PID_PREFIX@)) by {
            if t.len() >= n {
                assert(t.take(n as int) == v@.subrange(ts as int, ts + n));
            }
        }
        k = k + 1;
    }
    assert(ls.skip(k as int).len() == 0);
    None
}

/// The localnet state text that records `pid`.
pub fn state_file_text(pid: u32) -> (s: String)
    ensures
        s@ == state_text(pid),
{
    let mut s = String::from_str(SEQUENCER_PID_PREFIX);
    let d = u32_text(pid);
    s.append(d.as_str());
    push_char(&mut s, '\n');
    s
}

/// The pid that the state text written for `pid` records is `pid`.
pub proof fn lemma_state_roundtrip(pid: u32)
    ensures
        state_pid(state_text(pid)) == Some(pid),
{
    reveal_strlit("sequencer_pid=");
    let p = SEQUENCER_PID_PREFIX@;
    let d = decimal(pid as nat);
    let x = p + d;
    lemma_decimal_digits(pid as nat);
    assert(lacks(x, '\n')) by {
        assert forall|i: int| 0 <= i < x.len() implies x[i] != '\n' by {
            if i >= p.len() {
                assert(x[i] == d[i - p.len()]);
                assert(is_digit(d[i - p.len()]));
            }
        }
    }
    assert(x + seq!['\n'] == state_text(pid));
    lemma_lines_one(x);
    assert(x.last() == d.last());
    assert(is_digit(d[d.len() - 1]));
    assert(strip_cr(x) == x);
    assert(x[0] == 's');
    assert(trim_start(x) == x);
    assert(trim_end(x) == x);
    assert(x.take(p.len() as int) == p);
    assert(x.skip(p.len() as int) == d);
    assert(is_digit(d[0]));
    assert(trim_start(d) == d);
    assert(trim_end(d) == d);
    let ls = lines(state_text(pid));
    assert(ls == seq![x]);
    assert(ls[0] == x);
}

} // verus!
