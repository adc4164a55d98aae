use logos_scaffold::cli::{
    merge_optional_address, require_address, wallet_action, wallet_passthrough_action, CliError,
    WalletAction, WalletCommand,
};

fn args(xs: &[&str]) -> Vec<String> {
    xs.iter().map(|s| s.to_string()).collect()
}

#[test]
fn passthrough_forwards_arguments_after_dashes() {
    let r = wallet_passthrough_action(&args(&["logos-scaffold", "wallet", "--", "account", "list"]));
    assert_eq!(r, Ok(Some(WalletAction::Proxy { args: args(&["account", "list"]) })));
}

#[test]
fn passthrough_needs_an_argument() {
    let r = wallet_passthrough_action(&args(&["logos-scaffold", "wallet", "--"]));
    assert_eq!(r, Err(CliError::PassthroughWithoutArgs));
    assert_eq!(
        CliError::PassthroughWithoutArgs.message(),
        "wallet passthrough requires at least one argument after `--`. Example: `logos-scaffold wallet -- account list`"
    );
}

#[test]
fn other_command_lines_are_not_passthrough() {
    assert_eq!(wallet_passthrough_action(&args(&["logos-scaffold", "wallet"])), Ok(None));
    assert_eq!(wallet_passthrough_action(&args(&["logos-scaffold", "wallet", "list"])), Ok(None));
    assert_eq!(wallet_passthrough_action(&args(&["logos-scaffold", "localnet", "--", "x"])), Ok(None));
}

#[test]
fn address_given_twice_is_refused() {
    let r = merge_optional_address(Some("a".to_string()), Some("b".to_string()), "wallet topup");
    let e = r.unwrap_err();
    assert_eq!(e, CliError::AddressTwice { context: "wallet topup".to_string() });
    assert_eq!(
        e.message(),
        "wallet topup: provide address either as positional argument or `--address`, not both."
    );
}

#[test]
fn address_taken_from_either_place() {
    assert_eq!(merge_optional_address(Some("a".to_string()), None, "c"), Ok(Some("a".to_string())));
    assert_eq!(merge_optional_address(None, Some("b".to_string()), "c"), Ok(Some("b".to_string())));
    assert_eq!(merge_optional_address(None, None, "c"), Ok(None));
    assert_eq!(require_address(None, Some("b".to_string()), "c"), Ok("b".to_string()));
}

#[test]
fn required_address_missing() {
    let e = require_address(None, None, "wallet default set").unwrap_err();
    assert_eq!(
        e.message(),
        "wallet default set requires an address. Examples: `logos-scaffold wallet default set <address>` or `logos-scaffold wallet default set --address <address>`."
    );
}

#[test]
fn wallet_commands() {
    assert_eq!(wallet_action(WalletCommand::List { long: true }), Ok(WalletAction::List { long: true }));
    assert_eq!(
        wallet_action(WalletCommand::Topup { address: None, address_flag: None, dry_run: true }),
        Ok(WalletAction::Topup { address: None, dry_run: true })
    );
    assert_eq!(
        wallet_action(WalletCommand::DefaultSet { address: None, address_flag: Some("x".to_string()) }),
        Ok(WalletAction::DefaultSet { address: "x".to_string() })
    );
    assert_eq!(
        wallet_action(WalletCommand::DefaultSet { address: None, address_flag: None }),
        Err(CliError::AddressMissing { context: "wallet default set".to_string() })
    );
    assert_eq!(
        wallet_action(WalletCommand::Topup { address: Some("a".to_string()), address_flag: Some("b".to_string()), dry_run: false }),
        Err(CliError::AddressTwice { context: "wallet topup".to_string() })
    );
}
