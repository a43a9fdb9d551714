use beacon::billing::{estimate_cost_nanos, lookup_pricing};
use beacon::hooks::{event_matches_pattern, EmitHookResponse, HookManager, HookResult, HooksConfig};
use beacon::links::content::{extract_content, normalize_whitespace, truncate_at_word_boundary};
use beacon::links::ssrf::{check_ip_literal, find_private_address, is_private_ip, precheck_url, IpAddress, UrlTarget};
use beacon::media::{extension_for_mime, normalize_mime_type, FallbackRun};
use beacon::error::BeaconError;
use beacon::security::{is_blank, needs_moderation};
use beacon::text::{i64_to_string, u64_to_string};

#[test]
fn wildcard_matches_message_events() {
    assert!(event_matches_pattern("message:received", "message:*"));
    assert!(event_matches_pattern("message:before_agent", "message:*"));
    assert!(event_matches_pattern("message:after_agent", "message:*"));
}

#[test]
fn wildcard_star_matches_all() {
    assert!(event_matches_pattern("message:received", "*"));
    assert!(event_matches_pattern("session:created", "*"));
    assert!(event_matches_pattern("custom:anything", "*"));
}

#[test]
fn exact_match_works() {
    assert!(event_matches_pattern("session:created", "session:created"));
    assert!(!event_matches_pattern("session:ended", "session:created"));
}

#[test]
fn wildcard_no_partial() {
    assert!(!event_matches_pattern("messagefoo", "message:*"));
}

#[test]
fn disabled_hook_manager_reports_disabled() {
    let config = HooksConfig {
        enabled: false,
        ..Default::default()
    };
    let manager = HookManager::new(&config, "/tmp");
    assert!(!manager.is_enabled());
    let enabled = HookManager::new(&HooksConfig { enabled: true, path: None, auto_reply: vec![] }, "/tmp");
    assert!(enabled.is_enabled());
}

#[test]
fn emit_response_copies_result() {
    let r = HookResult {
        skip_processing: false,
        skip_agent: true,
        reply: Some("pong".to_string()),
        modified_response: None,
        messages: vec!["a".to_string()],
    };
    let e = EmitHookResponse::from_result(r);
    assert!(e.skip_agent);
    assert_eq!(e.reply.as_deref(), Some("pong"));
    assert_eq!(e.messages, vec!["a".to_string()]);
}

#[test]
fn normalize_whitespace_collapses() {
    let input = "Hello   world\n\n\n\nFoo   bar";
    let result = normalize_whitespace(input);
    assert_eq!(result, "Hello world\nFoo bar");
}

#[test]
fn normalize_whitespace_keeps_space_before_newline() {
    assert_eq!(normalize_whitespace("  a  \n   \n b\t "), "a \nb");
    assert_eq!(normalize_whitespace("   "), "");
}

#[test]
fn truncation_cuts_at_word_boundary() {
    assert_eq!(truncate_at_word_boundary("short", 10), "short");
    assert_eq!(truncate_at_word_boundary("hello world again", 13), "hello world...");
    assert_eq!(truncate_at_word_boundary("abcdefghij", 4), "abcd...");
}

#[test]
fn private_ipv4_addresses() {
    assert!(is_private_ip(&IpAddress::V4([127, 0, 0, 1])));
    assert!(is_private_ip(&IpAddress::V4([10, 0, 0, 1])));
    assert!(is_private_ip(&IpAddress::V4([172, 16, 0, 1])));
    assert!(is_private_ip(&IpAddress::V4([192, 168, 1, 1])));
    assert!(is_private_ip(&IpAddress::V4([169, 254, 1, 1])));
    assert!(is_private_ip(&IpAddress::V4([0, 0, 0, 0])));
}

#[test]
fn public_ipv4_addresses() {
    assert!(!is_private_ip(&IpAddress::V4([8, 8, 8, 8])));
    assert!(!is_private_ip(&IpAddress::V4([1, 1, 1, 1])));
    assert!(!is_private_ip(&IpAddress::V4([93, 184, 216, 34])));
}

#[test]
fn private_ipv6_addresses() {
    assert!(is_private_ip(&IpAddress::V6([0, 0, 0, 0, 0, 0, 0, 1])));
    assert!(is_private_ip(&IpAddress::V6([0, 0, 0, 0, 0, 0, 0, 0])));
    assert!(is_private_ip(&IpAddress::V6([0xfc00, 0, 0, 0, 0, 0, 0, 1])));
    assert!(is_private_ip(&IpAddress::V6([0xfd00, 0, 0, 0, 0, 0, 0, 1])));
    assert!(is_private_ip(&IpAddress::V6([0xfe80, 0, 0, 0, 0, 0, 0, 1])));
}

#[test]
fn shared_address_space_is_private() {
    assert!(is_private_ip(&IpAddress::V4([100, 64, 0, 1])));
    assert!(!is_private_ip(&IpAddress::V4([100, 128, 0, 1])));
    let addrs = vec![IpAddress::V4([8, 8, 8, 8]), IpAddress::V4([10, 1, 2, 3])];
    assert_eq!(find_private_address(&addrs), Some(1));
}

#[test]
fn precheck_blocks_non_http_scheme() {
    let err = precheck_url("file:///etc/passwd", &vec![]).unwrap_err();
    assert!(err.message().contains("non-HTTP"));
}

#[test]
fn precheck_allowlisted_and_default_port() {
    let allowed = vec!["trellis.internal".to_string()];
    assert!(matches!(precheck_url("http://trellis.internal/api", &allowed), Ok(UrlTarget::Allowlisted)));
    match precheck_url("http://example.com/x", &allowed) {
        Ok(UrlTarget::CheckHost { host, port }) => {
            assert_eq!(host, "example.com");
            assert_eq!(port, 80);
        }
        other => panic!("unexpected {other:?}"),
    }
    assert!(precheck_url("not a url", &allowed).is_err());
}

#[test]
fn media_extensions_and_vision_types() {
    assert_eq!(extension_for_mime("audio/mpeg"), "mp3");
    assert_eq!(normalize_mime_type("IMAGE/PNG"), "image/png");
    assert_eq!(normalize_mime_type("image/tiff"), "image/jpeg");
}

#[test]
fn fallback_run_stops_at_first_success() {
    let mut run = FallbackRun::start(3, "no providers");
    assert_eq!(run.next_provider(), Some(0));
    run.record(Err(BeaconError::Stt("first failed".to_string())));
    assert_eq!(run.next_provider(), Some(1));
    run.record(Ok("text".to_string()));
    assert_eq!(run.next_provider(), None);
    assert_eq!(run.finish().unwrap(), "text");
}

#[test]
fn fallback_run_reports_last_error_or_none_message() {
    let mut run = FallbackRun::start(1, "no providers");
    run.record(Err(BeaconError::Stt("boom".to_string())));
    assert_eq!(run.next_provider(), None);
    assert_eq!(run.finish().unwrap_err().message(), "boom");
    let empty = FallbackRun::start(0, "no providers");
    assert_eq!(empty.finish().unwrap_err().message(), "no providers");
}

#[test]
fn pricing_by_model_family() {
    let sonnet = lookup_pricing("Sonnet-4-20250514");
    assert_eq!(sonnet.input_per_million, 3_000);
    assert_eq!(sonnet.output_per_million, 15_000);
    assert_eq!(lookup_pricing("GPT-4o-mini").input_per_million, 150);
    let unknown = lookup_pricing("some-unknown-model");
    assert_eq!(unknown.input_per_million, 3_000);
    assert_eq!(unknown.cache_read_per_million, None);
}

#[test]
fn estimate_cost_in_nano_dollars() {
    assert_eq!(estimate_cost_nanos("sonnet-4-20250514", 1000, 500), 10_500_000);
    assert_eq!(estimate_cost_nanos("gpt-4o", 1_000_000, 1_000_000), 12_500_000_000);
}

#[test]
fn blank_and_moderation() {
    assert!(is_blank(" \t\n"));
    assert!(!is_blank(" x "));
    assert!(!needs_moderation("   "));
    assert!(needs_moderation("hello"));
}

#[test]
fn decimal_text_of_numbers() {
    assert_eq!(u64_to_string(0), "0");
    assert_eq!(u64_to_string(1234567890), "1234567890");
    assert_eq!(i64_to_string(-42), "-42");
    assert_eq!(i64_to_string(i64::MIN), i64::MIN.to_string());
}

#[test]
fn unknown_model_uses_default() {
    let pricing = lookup_pricing("some-unknown-model");
    let dollars = pricing.input_per_million as f64 / 1000.0;
    assert!((dollars - 3.0).abs() < f64::EPSILON);
}

#[test]
fn estimate_cost_gpt4o() {
    let cost = estimate_cost_nanos("gpt-4o", 1_000_000, 1_000_000) as f64 / 1e9;
    assert!((cost - 12.5).abs() < 0.01);
}

#[test]
fn whole_link_local_range_is_private() {
    assert!(is_private_ip(&IpAddress::V6([0xfebf, 0, 0, 0, 0, 0, 0, 1])));
    assert!(is_private_ip(&IpAddress::V6([0xfe9a, 0, 0, 0, 0, 0, 0, 1])));
    assert!(!is_private_ip(&IpAddress::V6([0xfec0, 0, 0, 0, 0, 0, 0, 1])));
    assert!(!is_private_ip(&IpAddress::V6([0x2001, 0x4860, 0, 0, 0, 0, 0, 0x8888])));
}

#[test]
fn extracts_basic_content() {
    let html = r#"<html><head><title>Test Page</title></head>
        <body><article><p>Hello world. This is content.</p></article></body></html>"#;
    let result = extract_content("https://example.com", html, 4000);
    assert_eq!(result.title.as_deref(), Some("Test Page"));
    assert!(result.text.contains("Hello world"));
}

#[test]
fn skips_scripts_and_styles() {
    let html = r"<html><body>
        <script>alert('xss')</script>
        <style>.foo{color:red}</style>
        <p>Visible text</p>
        </body></html>";
    let result = extract_content("https://example.com", html, 4000);
    assert!(!result.text.contains("alert"));
    assert!(!result.text.contains("color:red"));
    assert!(result.text.contains("Visible text"));
}

#[test]
fn truncates_long_content() {
    let long_text = "word ".repeat(1000);
    let html = format!("<html><body><p>{long_text}</p></body></html>");
    let result = extract_content("https://example.com", &html, 100);
    assert!(result.text.len() <= 110);
    assert!(result.text.ends_with("..."));
}

#[test]
fn content_root_and_skipped_children() {
    let html = "<html><head><title> T </title></head><body><nav>menu</nav><main><p> one </p>\
        <aside>side</aside>two<p>  </p><p>three</p></main></body></html>";
    let result = extract_content("u", html, 4000);
    assert_eq!(result.url, "u");
    assert_eq!(result.title.as_deref(), Some("T"));
    assert_eq!(result.text, "one\ntwo\nthree");
    assert_eq!(result.original_length, 13);
    let no_title = extract_content("u", "<p>x</p>", 10);
    assert_eq!(no_title.title, None);
    assert_eq!(no_title.text, "x");
}

#[test]
fn truncation_counts_characters() {
    let result = extract_content("u", "<html><body><p>h\u{e9}llo</p></body></html>", 2);
    assert_eq!(result.text, "h\u{e9}...");
    assert_eq!(truncate_at_word_boundary("h\u{e9}llo w\u{f6}rld", 8), "h\u{e9}llo...");
    assert_eq!(truncate_at_word_boundary("\u{e9}\u{e9}\u{e9}", 3), "\u{e9}\u{e9}\u{e9}");
}

#[test]
fn literal_address_verdicts() {
    assert!(check_ip_literal(None).is_none());
    let err = check_ip_literal(Some((IpAddress::V4([10, 0, 0, 1]), "10.0.0.1".to_string())))
        .unwrap()
        .unwrap_err();
    assert_eq!(err.message(), "blocked private IP: 10.0.0.1");
    assert!(check_ip_literal(Some((IpAddress::V4([8, 8, 8, 8]), "8.8.8.8".to_string()))).unwrap().is_ok());
}

#[test]
fn precheck_refusal_messages() {
    let allowed: Vec<String> = vec![];
    assert_eq!(precheck_url("file:///etc/passwd", &allowed).unwrap_err().message(), "blocked non-HTTP scheme: file");
    assert_eq!(precheck_url("ftp://example.com/", &allowed).unwrap_err().message(), "blocked non-HTTP scheme: ftp");
    assert!(precheck_url("not a url", &allowed).unwrap_err().message().starts_with("invalid URL: "));
}
