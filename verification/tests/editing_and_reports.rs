use beacon::backup::{assess_backup, backup_file_name, backup_report, restore_allowed};
use beacon::channels::gmail::{outgoing_raw_email, polled_message, MessagePart, MessagePartBody, MessagePartHeader};
use beacon::channels::OutgoingMessage;
use beacon::config::edit::{navigate_toml, parse_value, set_toml_value, split_key, ConfigValue, TomlNode};
use beacon::config::file::config_file_under;
use beacon::config::watch::{reload_signal_for, WatchEventKind};
use beacon::links::content::{content_from_page, page_text};
use beacon::plugins::WasmPlugin;
use beacon::usage::{token_totals, UsageTokens};

fn to_node(value: toml::Value) -> TomlNode {
    match value {
        toml::Value::Table(map) => TomlNode::Table(map.into_iter().map(|(k, v)| (k, to_node(v))).collect()),
        other => TomlNode::Leaf(other),
    }
}

fn leaf(node: Option<&TomlNode>) -> Option<toml::Value> {
    match node {
        Some(TomlNode::Leaf(v)) => Some(v.clone()),
        _ => None,
    }
}

#[test]
fn navigate_dotted_path() {
    let doc: toml::Value =
        toml::from_str("[llm]\nmodel = \"sonnet-4-20250514\"\n[voice]\nenabled = true\n").unwrap();
    let doc = to_node(doc);
    assert_eq!(
        leaf(navigate_toml(&doc, "llm.model")),
        Some(toml::Value::String("sonnet-4-20250514".to_string()))
    );
    assert_eq!(leaf(navigate_toml(&doc, "voice.enabled")), Some(toml::Value::Boolean(true)));
    assert!(navigate_toml(&doc, "missing.key").is_none());
}

#[test]
fn set_creates_intermediate_tables() {
    let mut doc = TomlNode::Table(Vec::new());
    set_toml_value(&mut doc, "llm.model", TomlNode::Leaf(toml::Value::String("gpt-4o".to_string()))).unwrap();
    assert_eq!(
        leaf(navigate_toml(&doc, "llm.model")),
        Some(toml::Value::String("gpt-4o".to_string()))
    );
}

#[test]
fn set_through_a_leaf_fails_and_keeps_document() {
    let mut doc = to_node(toml::from_str("a = 1\n").unwrap());
    let err = set_toml_value(&mut doc, "a.b.c", TomlNode::Leaf(toml::Value::Integer(2))).unwrap_err();
    assert_eq!(err.message(), "intermediate key 'b' is not a table");
    let err = set_toml_value(&mut doc, "a.b", TomlNode::Leaf(toml::Value::Integer(2))).unwrap_err();
    assert_eq!(err.message(), "cannot set key on non-table value");
    assert_eq!(leaf(navigate_toml(&doc, "a")), Some(toml::Value::Integer(1)));
    set_toml_value(&mut doc, "a", TomlNode::Leaf(toml::Value::Integer(3))).unwrap();
    assert_eq!(leaf(navigate_toml(&doc, "a")), Some(toml::Value::Integer(3)));
}

#[test]
fn parse_value_types() {
    assert_eq!(parse_value("true", false), ConfigValue::Bool(true));
    assert_eq!(parse_value("42", true), ConfigValue::Integer(42));
    assert_eq!(parse_value("-7", true), ConfigValue::Integer(-7));
    assert_eq!(parse_value("2.5", true), ConfigValue::Float("2.5".to_string()));
    assert_eq!(parse_value("hello", false), ConfigValue::Text("hello".to_string()));
    assert_eq!(
        parse_value("99999999999999999999", true),
        ConfigValue::Float("99999999999999999999".to_string())
    );
}

#[test]
fn split_key_keeps_empty_parts() {
    assert_eq!(split_key("a..b"), vec!["a".to_string(), String::new(), "b".to_string()]);
    assert_eq!(split_key(""), vec![String::new()]);
}

#[test]
fn config_file_lives_under_omni_beacon() {
    assert_eq!(config_file_under("/home/u/.config"), "/home/u/.config/omni/beacon/config.toml");
    assert_eq!(config_file_under("/cfg/"), "/cfg/omni/beacon/config.toml");
}

#[test]
fn reload_signal_only_for_target_writes() {
    let paths = vec!["/c/other.toml".to_string(), "/c/config.toml".to_string()];
    let s = reload_signal_for(WatchEventKind::ModifyData, &paths, "/c/config.toml").unwrap();
    assert_eq!(s.path, "/c/config.toml");
    assert!(reload_signal_for(WatchEventKind::Other, &paths, "/c/config.toml").is_none());
    assert!(reload_signal_for(WatchEventKind::Create, &vec!["/c/x".to_string()], "/c/config.toml").is_none());
}

#[test]
fn wasm_plugins_are_unsupported() {
    let err = WasmPlugin::load("p".to_string(), vec![], Some(16)).unwrap_err();
    assert_eq!(err.message(), "WASM plugin support requires the 'wasm' feature");
}

#[test]
fn usage_token_totals() {
    let records = vec![
        UsageTokens { input_tokens: 10, output_tokens: 1 },
        UsageTokens { input_tokens: u32::MAX, output_tokens: 2 },
    ];
    assert_eq!(token_totals(&records), (10 + u32::MAX as u64, 3));
}

#[test]
fn backup_needs_database() {
    let ok = assess_backup(vec!["config.toml".to_string(), "beacon.db".to_string()]);
    assert!(ok.valid);
    assert!(restore_allowed(&ok).is_ok());
    assert_eq!(backup_report(&ok), vec!["backup valid: 2 files, no issues", "  config.toml", "  beacon.db"]);
    let bad = assess_backup(vec!["config.toml".to_string()]);
    assert!(!bad.valid);
    assert_eq!(
        restore_allowed(&bad).unwrap_err().message(),
        "backup verification failed: backup does not contain beacon.db"
    );
    assert_eq!(backup_report(&bad)[0], "backup INVALID: 1 files, 1 issue(s)");
    assert_eq!(backup_file_name("20240101-000000"), "beacon-backup-20240101-000000.tar.gz");
}

#[test]
fn page_text_and_content() {
    let blocks = vec!["  Hello   world. ".to_string(), "   ".to_string(), "Second\n\n\nline".to_string()];
    assert_eq!(page_text(&blocks), "Hello   world.\nSecond\n\n\nline");
    let c = content_from_page("https://e.x", Some("  T  ".to_string()), &blocks, 4000);
    assert_eq!(c.title.as_deref(), Some("T"));
    assert_eq!(c.text, "Hello world.\nSecond\nline");
    assert_eq!(c.original_length, 24);
    let long = vec!["word ".repeat(100)];
    let short = content_from_page("u", None, &long, 12);
    assert_eq!(short.text, "word word...");
    assert!(short.text.len() <= 110);
}

#[test]
fn polled_gmail_message_uses_headers() {
    let payload = MessagePart {
        mime_type: Some("text/plain".to_string()),
        headers: Some(vec![
            MessagePartHeader { name: Some("from".to_string()), value: Some("a@x".to_string()) },
            MessagePartHeader { name: Some("Subject".to_string()), value: Some("Hi".to_string()) },
            MessagePartHeader { name: Some("Message-ID".to_string()), value: Some("<m1>".to_string()) },
        ]),
        body: Some(MessagePartBody { data: Some(beacon::channels::gmail::base64_url_encode(b"body").into_bytes()) }),
        parts: None,
    };
    let m = polled_message("id1".to_string(), Some("t1".to_string()), &payload);
    assert_eq!(m.sender_id, "a@x");
    assert_eq!(m.content, "[Hi] body");
    assert_eq!(m.reply_to.as_deref(), Some("<m1>"));
    assert_eq!(m.thread_id.as_deref(), Some("t1"));
}

#[test]
fn outgoing_gmail_is_encoded_email() {
    let msg = OutgoingMessage {
        channel_id: "b@x".to_string(),
        content: "hello".to_string(),
        reply_to: None,
        thread_id: None,
    };
    let raw = outgoing_raw_email(&msg, "me@x");
    let decoded = beacon::channels::gmail::base64_url_decode(&raw).unwrap();
    assert!(decoded.starts_with("To: b@x\r\nFrom: me@x\r\nSubject: Message from Beacon\r\n"));
    assert!(decoded.ends_with("\r\n\r\nhello"));
}

#[test]
fn integer_values_follow_std_parsing() {
    for s in ["0", "+5", "-0", "007", "9223372036854775807", "-9223372036854775808",
              "9223372036854775808", "-9223372036854775809", "", "-", "+", "12a", " 1", "1_000",
              "99999999999999999999999999999999999999999"] {
        let expected = match s.parse::<i64>() {
            Ok(i) => ConfigValue::Integer(i),
            Err(_) => ConfigValue::Text(s.to_string()),
        };
        assert_eq!(parse_value(s, false), expected, "input {s:?}");
    }
}
