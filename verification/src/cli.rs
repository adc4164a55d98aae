//! The decisions of the command line that stand apart from argument parsing:
//! the wallet pass-through and the wallet address arguments.

use vstd::prelude::*;
use crate::text::{same_text, views, opt_view};

verus! {

/// What a `wallet` command asks for.
#[derive(Debug, Clone, PartialEq, Eq)]
pub enum WalletAction {
    /// List the wallet's accounts.
    List { long: bool },
    /// Top up an account (the project default where none is given).
    Topup { address: Option<String>, dry_run: bool },
    /// Make an address the project's default.
    DefaultSet { address: String },
    /// Hand these arguments to the wallet binary as they are.
    Proxy { args: Vec<String> },
}

/// The mathematical value of a [`WalletAction`].
pub enum WalletActionView {
    List(bool),
    Topup(Option<Seq<char>>, bool),
    DefaultSet(Seq<char>),
    Proxy(Seq<Seq<char>>),
}

impl View for WalletAction {
    type V = WalletActionView;

    open spec fn view(&self) -> WalletActionView {
        match self {
            WalletAction::List { long } => WalletActionView::List(*long),
            WalletAction::Topup { address, dry_run } => WalletActionView::Topup(opt_view(*address), *dry_run),
            WalletAction::DefaultSet { address } => WalletActionView::DefaultSet(address@),
            WalletAction::Proxy { args } => WalletActionView::Proxy(views(args@)),
        }
    }
}

/// A `wallet` command as the argument parser gives it, before the address
/// arguments are merged.
#[derive(Debug, Clone, PartialEq, Eq)]
pub enum WalletCommand {
    List { long: bool },
    Topup { address: Option<String>, address_flag: Option<String>, dry_run: bool },
    DefaultSet { address: Option<String>, address_flag: Option<String> },
}

/// Why the command line refuses a command.
#[derive(Debug, Clone, PartialEq, Eq)]
pub enum CliError {
    /// `wallet --` with nothing after it.
    PassthroughWithoutArgs,
    /// An address given both as an argument and with `--address`.
    AddressTwice { context: String },
    /// No address where one is required.
    AddressMissing { context: String },
}

/// The mathematical value of a [`CliError`].
pub enum CliErrorView {
    PassthroughWithoutArgs,
    AddressTwice(Seq<char>),
    AddressMissing(Seq<char>),
}

impl View for CliError {
    type V = CliErrorView;

    open spec fn view(&self) -> CliErrorView {
        match self {
            CliError::PassthroughWithoutArgs => CliErrorView::PassthroughWithoutArgs,
            CliError::AddressTwice { context } => CliErrorView::AddressTwice(context@),
            CliError::AddressMissing { context } => CliErrorView::AddressMissing(context@),
        }
    }
}

/// The message of a command-line error.
pub open spec fn cli_error_text(e: CliErrorView) -> Seq<char> {
    match e {
        CliErrorView::PassthroughWithoutArgs => "wallet passthrough requires at least one argument after `--`. Example: `logos-scaffold wallet -- account list`"@,
        CliErrorView::AddressTwice(c) => c
            + ": provide address either as positional argument or `--address`, not both."@,
        CliErrorView::AddressMissing(c) => c
            + " requires an address. Examples: `logos-scaffold wallet default set <address>` or `logos-scaffold wallet default set --address <address>`."@,
    }
}

impl CliError {
    /// The message that the command line prints for this error.
    pub fn message(&self) -> (s: String)
        ensures
            s@ == cli_error_text(self@),
    {
        match self {
            CliError::PassthroughWithoutArgs => String::from_str(
                "wallet passthrough requires at least one argument after `--`. Example: `logos-scaffold wallet -- account list`",
            ),
            CliError::AddressTwice { context } => {
                let mut s = context.clone();
                s.append(
                    ": provide address either as positional argument or `--address`, not both.",
                );
                s
            },
            CliError::AddressMissing { context } => {
                let mut s = context.clone();
                s.append(
                    " requires an address. Examples: `logos-scaffold wallet default set <address>` or `logos-scaffold wallet default set --address <address>`.",
                );
                s
            },
        }
    }
}

/// Whether the command line is `<program> wallet -- ...`.
pub open spec fn is_passthrough(args: Seq<Seq<char>>) -> bool {
    args.len() >= 3 && args[1] == "wallet"@ && args[2] == "--"@
}

/// The wallet pass-through in the full command line `args` (program name
/// first): `None` unless the command line is `<program> wallet -- ...`, an
/// error where nothing follows `--`, else the arguments after `--`.
pub fn wallet_passthrough_action(args: &Vec<String>) -> (r: Result<Option<WalletAction>, CliError>)
    ensures
        !is_passthrough(views(args@)) ==> r is Ok && r->Ok_0 is None,
        (is_passthrough(views(args@)) && args@.len() == 3) ==> (r is Err && r->Err_0@
            == CliErrorView::PassthroughWithoutArgs),
        (is_passthrough(views(args@)) && args@.len() > 3) ==> (r is Ok && r->Ok_0 is Some
            && r->Ok_0->0@ == WalletActionView::Proxy(views(args@).skip(3))),
{
    if args.len() < 3 {
        return Ok(None);
    }
    let is_wallet = same_text(args[1].as_str(), "wallet");
    let is_dashes = same_text(args[2].as_str(), "--");
    assert(views(args@)[1] == args@[1]@ && views(args@)[2] == args@[2]@);
    if is_wallet && is_dashes {
        if args.len() == 3 {
            return Err(CliError::PassthroughWithoutArgs);
        }
        let mut rest: Vec<String> = Vec::new();
        let mut i: usize = 3;
        while i < args.len()
            invariant
                3 <= i <= args@.len(),
                views(rest@) =~= views(args@).subrange(3, i as int),
            decreases args@.len() - i,
        {
            let c = args[i].clone();
            let ghost before = views(rest@);
            rest.push(c);
            assert(views(rest@) =~= before.push(args@[i as int]@));
            assert(views(args@).subrange(3, i + 1) =~= views(args@).subrange(3, i as int).push(
                args@[i as int]@,
            ));
            i = i + 1;
        }
        assert(views(args@).subrange(3, args@.len() as int) =~= views(args@).skip(3));
        return Ok(Some(WalletAction::Proxy { args: rest }));
    }
    Ok(None)
}

/// One address from a positional argument and an `--address` flag: an error
/// where both are given, else whichever is given.
pub fn merge_optional_address(positional: Option<String>, flagged: Option<String>, context: &str) -> (r:
    Result<Option<String>, CliError>)
    ensures
        (positional is Some && flagged is Some) ==> (r is Err && r->Err_0@
            == CliErrorView::AddressTwice(context@)),
        !(positional is Some && flagged is Some) ==> (r is Ok && opt_view(r->Ok_0) == (
        if positional is Some {
            opt_view(positional)
        } else {
            opt_view(flagged)
        })),
{
    if positional.is_some() && flagged.is_some() {
        return Err(CliError::AddressTwice { context: String::from_str(context) });
    }
    match positional {
        Some(p) => Ok(Some(p)),
        None => Ok(flagged),
    }
}

/// The one address that must be given, as an argument or with `--address`.
pub fn require_address(positional: Option<String>, flagged: Option<String>, context: &str) -> (r:
    Result<String, CliError>)
    ensures
        (positional is Some && flagged is Some) ==> (r is Err && r->Err_0@
            == CliErrorView::AddressTwice(context@)),
        (positional is None && flagged is None) ==> (r is Err && r->Err_0@
            == CliErrorView::AddressMissing(context@)),
        (positional is Some && flagged is None) ==> (r is Ok && r->Ok_0@ == positional->0@),
        (positional is None && flagged is Some) ==> (r is Ok && r->Ok_0@ == flagged->0@),
{
    let merged = merge_optional_address(positional, flagged, context);
    match merged {
        Err(e) => Err(e),
        Ok(Some(a)) => Ok(a),
        Ok(None) => Err(CliError::AddressMissing { context: String::from_str(context) }),
    }
}

/// What a parsed `wallet` command asks for, with its address arguments
/// merged as `wallet topup` and `wallet default set` take them.
pub fn wallet_action(cmd: WalletCommand) -> (r: Result<WalletAction, CliError>)
    ensures
        cmd matches WalletCommand::List { long } ==> (r is Ok && r->Ok_0@ == WalletActionView::List(
            long,
        )),
        cmd matches WalletCommand::Topup { address, address_flag, dry_run } ==> (if address is Some
            && address_flag is Some {
            r is Err && r->Err_0@ == CliErrorView::AddressTwice("wallet topup"@)
        } else {
            r is Ok && r->Ok_0@ == WalletActionView::Topup(
                if address is Some {
                    opt_view(address)
                } else {
                    opt_view(address_flag)
                },
                dry_run,
            )
        }),
        cmd matches WalletCommand::DefaultSet { address, address_flag } ==> (if address is Some
            && address_flag is Some {
            r is Err && r->Err_0@ == CliErrorView::AddressTwice("wallet default set"@)
        } else if address is None && address_flag is None {
            r is Err && r->Err_0@ == CliErrorView::AddressMissing("wallet default set"@)
        } else {
            r is Ok && r->Ok_0@ == WalletActionView::DefaultSet(
                if address is Some {
                    address->0@
                } else {
                    address_flag->0@
                },
            )
        }),
{
    match cmd {
        WalletCommand::List { long } => Ok(WalletAction::List { long }),
        WalletCommand::Topup { address, address_flag, dry_run } => {
            let merged = merge_optional_address(address, address_flag, "wallet topup");
            match merged {
                Ok(a) => Ok(WalletAction::Topup { address: a, dry_run }),
                Err(e) => Err(e),
            }
        },
        WalletCommand::DefaultSet { address, address_flag } => {
            match require_address(address, address_flag, "wallet default set") {
                Ok(a) => Ok(WalletAction::DefaultSet { address: a }),
                Err(e) => Err(e),
            }
        },
    }
}

} // verus!
