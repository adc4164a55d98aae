use logos_scaffold::sequencer_config::{sequencer_config_with_port, PatchError};
use logos_scaffold::text::{decimal_string, path_join, same_text, to_chars, u32_text};

#[test]
fn decimal_rendering() {
    assert_eq!(decimal_string(0), "0");
    assert_eq!(decimal_string(7), "7");
    assert_eq!(decimal_string(3040), "3040");
    assert_eq!(decimal_string(u64::MAX), "18446744073709551615");
    assert_eq!(u32_text(4294967295), "4294967295");
}

#[test]
fn path_joining() {
    assert_eq!(path_join("/a", "b"), "/a/b");
    assert_eq!(path_join("/a/", "b"), "/a/b");
    assert_eq!(path_join("", "b"), "b");
    assert_eq!(path_join("/a", "/abs"), "/abs");
}

#[test]
fn chars_and_equality() {
    assert_eq!(to_chars("héllo"), vec!['h', 'é', 'l', 'l', 'o']);
    assert!(same_text("wallet", "wallet"));
    assert!(!same_text("wallet", "walle"));
}

#[test]
fn sequencer_port_is_written_into_the_object() {
    let out = sequencer_config_with_port("{\"home\": \".\", \"port\": 3040}", 4100).unwrap();
    assert!(out.ends_with('\n'));
    let v: serde_json::Value = serde_json::from_str(&out).unwrap();
    assert_eq!(v["port"], serde_json::Value::from(4100u16));
    assert_eq!(v["home"], serde_json::Value::from("."));
}

#[test]
fn sequencer_config_errors() {
    assert!(matches!(sequencer_config_with_port("not json", 1), Err(PatchError::Parse { .. })));
    assert_eq!(sequencer_config_with_port("[1, 2]", 1), Err(PatchError::NotObject));
    assert_eq!(
        PatchError::NotObject.message("/l/sequencer_config.json"),
        "sequencer_config.json is not a JSON object: /l/sequencer_config.json"
    );
    match sequencer_config_with_port("{\"port\": ", 1) {
        Err(e @ PatchError::Parse { .. }) => {
            assert_eq!(e.message("x"), "failed to parse sequencer_config.json");
            match e {
                PatchError::Parse { cause } => assert_eq!(
                    cause,
                    serde_json::from_str::<serde_json::Value>("{\"port\": ").unwrap_err().to_string()
                ),
                PatchError::NotObject => unreachable!(),
            }
        }
        other => panic!("expected a parse error, got {other:?}"),
    }
    assert_eq!(sequencer_config_with_port("3040", 1), Err(PatchError::NotObject));
}

const SAMPLES: &[&str] = &[
    "",
    "a",
    "\n",
    "\r\n",
    "a\r",
    "a\r\n\r\nb",
    "\u{3000} x \u{a0}",
    "\u{85}\u{2028}y\u{200b}\u{1680}",
    "one\ntwo\r\nthree\n\n",
    "\t\u{b}\u{c}z\u{205f}\u{202f}",
    "trailing\r",
    "x\n\r",
];

#[test]
fn trimming_agrees_with_std() {
    for s in SAMPLES {
        let v = to_chars(s);
        let (a, b) = logos_scaffold::text::trim_range(&v, 0, v.len());
        let got: String = v[a..b].iter().collect();
        assert_eq!(got, s.trim(), "trim of {s:?}");
        for c in s.chars() {
            assert_eq!(logos_scaffold::text::is_whitespace(c), c.is_whitespace());
        }
    }
}

#[test]
fn line_splitting_agrees_with_std() {
    for s in SAMPLES {
        let v = to_chars(s);
        let ranges = logos_scaffold::text::line_ranges(&v);
        let got: Vec<String> = ranges.iter().map(|&(a, b)| v[a..b].iter().collect()).collect();
        let expected: Vec<String> = s.lines().map(|l| l.to_string()).collect();
        assert_eq!(got, expected, "lines of {s:?}");
    }
}

#[test]
fn port_parsing_agrees_with_std() {
    for s in ["0", "+0", "+", "-0", "65535", "65536", "00012", "1 2", "+-1", "", "9x", "٣"] {
        let v = to_chars(s);
        let got = logos_scaffold::text::parse_u16_range(&v, 0, v.len());
        assert_eq!(got, s.parse::<u16>().ok(), "parse of {s:?}");
    }
}

#[test]
fn sequencer_port_is_added_when_absent() {
    let out = sequencer_config_with_port("{\"a\": 1}", 5).unwrap();
    assert_eq!(out, "{\n  \"a\": 1,\n  \"port\": 5\n}\n");
    let out = sequencer_config_with_port("{}", 3040).unwrap();
    assert_eq!(out, "{\n  \"port\": 3040\n}\n");
}

#[test]
fn sequencer_port_keeps_other_entries() {
    let out = sequencer_config_with_port("{\"z\": [1, {\"b\": null}], \"port\": 1, \"home\": \"h\"}", 8080).unwrap();
    assert_eq!(
        out,
        "{\n  \"home\": \"h\",\n  \"port\": 8080,\n  \"z\": [\n    1,\n    {\n      \"b\": null\n    }\n  ]\n}\n"
    );
}
