use logos_scaffold::config::{
    escape_toml_string, parse_config, serialize_config, unquote, Config, ConfigError,
    FrameworkConfig, FrameworkIdlConfig, LocalnetConfig, RepoRef,
};

fn sample_config() -> Config {
    Config {
        version: "0.1.0".to_string(),
        cache_root: "/home/dev/.cache/logos-scaffold".to_string(),
        lssa: RepoRef {
            url: "https://example.org/lssa.git".to_string(),
            source: "git".to_string(),
            path: ".scaffold/cache/repos/lssa".to_string(),
            pin: "767b5afd388c7981bcdf6f5b5c80159607e07e5b".to_string(),
        },
        wallet_home_dir: ".scaffold/wallet".to_string(),
        localnet: LocalnetConfig { port: 3041, risc0_dev_mode: false },
        framework: FrameworkConfig {
            kind: "lez-framework".to_string(),
            version: "0.2.0".to_string(),
            idl: FrameworkIdlConfig { spec: "spel".to_string(), path: "idl/program.json".to_string() },
        },
    }
}

#[test]
fn written_config_reads_back() {
    let cfg = sample_config();
    let text = serialize_config(&cfg);
    assert_eq!(parse_config(&text), Ok(cfg));
}

#[test]
fn missing_scaffold_keys_is_refused() {
    let r = parse_config("[repos.lssa]\nsource = \"git\"\npath = \"p\"\npin = \"x\"\n");
    assert_eq!(r, Err(ConfigError::MissingScaffoldKeys));
    assert_eq!(
        ConfigError::MissingScaffoldKeys.message(),
        "invalid scaffold.toml: missing [scaffold] keys"
    );
}

#[test]
fn unquote_strips_one_pair() {
    assert_eq!(unquote("\"abc\""), "abc");
    assert_eq!(unquote("\""), "\"");
    assert_eq!(unquote("abc"), "abc");
}

#[test]
fn escape_doubles_backslashes_and_quotes() {
    assert_eq!(escape_toml_string("a\\b\"c"), "a\\\\b\\\"c");
}

const MINIMAL: &str = "[scaffold]\nversion = \"1.0.0\"\ncache_root = \"/c\"\n[repos.lssa]\nsource = \"git\"\npath = \".scaffold/cache/repos/lssa\"\npin = \"abc\"\n";

#[test]
fn defaults_fill_optional_settings() {
    let cfg = parse_config(MINIMAL).unwrap();
    assert_eq!(cfg.version, "1.0.0");
    assert_eq!(cfg.cache_root, "/c");
    assert_eq!(cfg.lssa.url, logos_scaffold::config::LSSA_URL);
    assert_eq!(cfg.lssa.source, "git");
    assert_eq!(cfg.lssa.path, ".scaffold/cache/repos/lssa");
    assert_eq!(cfg.lssa.pin, "abc");
    assert_eq!(cfg.wallet_home_dir, ".scaffold/wallet");
    assert_eq!(cfg.localnet.port, 3040);
    assert!(cfg.localnet.risc0_dev_mode);
    assert_eq!(cfg.framework.kind, logos_scaffold::config::FRAMEWORK_KIND_DEFAULT);
    assert_eq!(cfg.framework.version, logos_scaffold::config::DEFAULT_FRAMEWORK_VERSION);
    assert_eq!(cfg.framework.idl.spec, logos_scaffold::config::DEFAULT_FRAMEWORK_IDL_SPEC);
    assert_eq!(cfg.framework.idl.path, logos_scaffold::config::DEFAULT_FRAMEWORK_IDL_PATH);
}

#[test]
fn missing_repo_keys_is_refused() {
    let r = parse_config("[scaffold]\nversion = \"1\"\ncache_root = \"/c\"\n[repos.lssa]\nsource = \"git\"\npath = \"p\"\n");
    assert_eq!(r, Err(ConfigError::MissingRepoKeys));
    assert_eq!(
        ConfigError::MissingRepoKeys.message(),
        "invalid scaffold.toml: missing required repos.lssa keys"
    );
}

#[test]
fn scaffold_keys_are_checked_before_repo_keys() {
    assert_eq!(parse_config(""), Err(ConfigError::MissingScaffoldKeys));
    assert_eq!(parse_config("[scaffold]\nversion = \"1\"\n"), Err(ConfigError::MissingScaffoldKeys));
}

#[test]
fn comments_blank_lines_and_whitespace_are_ignored() {
    let text = "  # a comment\n\n   [scaffold]  \r\n  version   =   \"2\"  \r\ncache_root=/c\n#x = 1\n[repos.lssa]\nsource=\"s\"\npath = p\npin = \"q\"\n";
    let cfg = parse_config(text).unwrap();
    assert_eq!(cfg.version, "2");
    assert_eq!(cfg.cache_root, "/c");
    assert_eq!(cfg.lssa.path, "p");
}

#[test]
fn later_settings_win_and_unknown_keys_are_ignored() {
    let text = format!("{MINIMAL}[scaffold]\nversion = \"3\"\ncolor = \"red\"\n[other]\nversion = \"9\"\n");
    let cfg = parse_config(&text).unwrap();
    assert_eq!(cfg.version, "3");
}

#[test]
fn value_is_split_at_first_equals() {
    let text = format!("{MINIMAL}[wallet]\nhome_dir = \"a=b\"\n");
    let cfg = parse_config(&text).unwrap();
    assert_eq!(cfg.wallet_home_dir, "a=b");
}

#[test]
fn localnet_port_and_dev_mode() {
    let cfg = parse_config(&format!("{MINIMAL}[localnet]\nport = 4000\nrisc0_dev_mode = false\n")).unwrap();
    assert_eq!(cfg.localnet.port, 4000);
    assert!(!cfg.localnet.risc0_dev_mode);
    let cfg = parse_config(&format!("{MINIMAL}[localnet]\nport = \"+4001\"\nrisc0_dev_mode = \"0\"\n")).unwrap();
    assert_eq!(cfg.localnet.port, 4001);
    assert!(!cfg.localnet.risc0_dev_mode);
    let cfg = parse_config(&format!("{MINIMAL}[localnet]\nport = 70000\nrisc0_dev_mode = yes\n")).unwrap();
    assert_eq!(cfg.localnet.port, 3040);
    assert!(cfg.localnet.risc0_dev_mode);
    let cfg = parse_config(&format!("{MINIMAL}[localnet]\nport = -1\n")).unwrap();
    assert_eq!(cfg.localnet.port, 3040);
    let cfg = parse_config(&format!("{MINIMAL}[localnet]\nport = 65535\n")).unwrap();
    assert_eq!(cfg.localnet.port, 65535);
}

#[test]
fn serialized_text_is_exact() {
    let cfg = sample_config();
    let expected = "[scaffold]\nversion = \"0.1.0\"\ncache_root = \"/home/dev/.cache/logos-scaffold\"\n\n[repos.lssa]\nurl = \"https://example.org/lssa.git\"\nsource = \"git\"\npath = \".scaffold/cache/repos/lssa\"\npin = \"767b5afd388c7981bcdf6f5b5c80159607e07e5b\"\n\n[wallet]\nhome_dir = \".scaffold/wallet\"\n\n[framework]\nkind = \"lez-framework\"\nversion = \"0.2.0\"\n\n[framework.idl]\nspec = \"spel\"\npath = \"idl/program.json\"\n\n[localnet]\nport = 3041\nrisc0_dev_mode = false\n";
    assert_eq!(serialize_config(&cfg), expected);
}

#[test]
fn escaped_value_is_not_unescaped_on_read() {
    let mut cfg = sample_config();
    cfg.version = "a\"b".to_string();
    let text = serialize_config(&cfg);
    assert!(text.contains("version = \"a\\\"b\""));
    let back = parse_config(&text).unwrap();
    assert_eq!(back.version, "a\\\"b");
}

#[test]
fn inserted_ignorable_lines_change_nothing() {
    let text = serialize_config(&sample_config());
    let lines: Vec<&str> = text.lines().collect();
    for extra in ["", "   ", "# note", "  # [wallet]", "colour = \"red\"", "  unknown_key = 5", "no equals sign"] {
        for k in 0..=lines.len() {
            let mut with_extra: Vec<&str> = lines.clone();
            with_extra.insert(k, extra);
            let joined = with_extra.join("\n") + "\n";
            assert_eq!(parse_config(&joined), parse_config(&text), "line {extra:?} at {k}");
        }
    }
    let refused = "[scaffold]\nversion = \"1\"\n";
    assert_eq!(parse_config(&format!("# top\n{refused}other = 1\n")), parse_config(refused));
    assert_eq!(parse_config(&format!("{refused}# last, no line break")), parse_config(refused));
}

#[test]
fn final_line_break_changes_nothing() {
    let text = serialize_config(&sample_config());
    let without = text.trim_end_matches('\n');
    assert_eq!(parse_config(without), parse_config(&text));
    assert_eq!(parse_config(&format!("{without}\n# trailing")), parse_config(&text));
    assert_eq!(parse_config(&format!("{text}\n")), parse_config(&text));
}

#[test]
fn many_ignorable_lines_change_nothing() {
    let text = serialize_config(&sample_config());
    let mut noisy = String::from("# header comment\n\n");
    for line in text.lines() {
        noisy.push_str(line);
        noisy.push_str("\n   \n# between\nunknown = \"x\"\n");
    }
    noisy.push_str("  # the end");
    assert_eq!(parse_config(&noisy), parse_config(&text));
    assert!(parse_config(&noisy).is_ok());
}
