use base64::Engine;
use hmac::{Hmac, Mac};
use sha2::Sha256;

use beacon::channels::feishu::{check_token_response, decide_webhook, FeishuMessageEvent, FeishuWebhook, FeishuWebhookAction};
use beacon::channels::gmail::{
    base64_url_decode, base64_url_encode, compose_email, extract_header, extract_text_body, MessagePart,
    MessagePartBody, MessagePartHeader,
};
use beacon::channels::irc::privmsg_to_incoming;
use beacon::channels::line::{line_events_to_incoming, verify_signature, LineEvent, LineMessage, LineSource};
use beacon::channels::twilio::{build_sms_form_body, messages_url, TwilioIncomingSms};

#[test]
fn extract_header_finds_subject() {
    let headers = vec![
        MessagePartHeader {
            name: Some("From".to_string()),
            value: Some("alice@example.com".to_string()),
        },
        MessagePartHeader {
            name: Some("Subject".to_string()),
            value: Some("Hello world".to_string()),
        },
        MessagePartHeader {
            name: Some("Date".to_string()),
            value: Some("Mon, 1 Jan 2024 00:00:00 +0000".to_string()),
        },
    ];
    assert_eq!(extract_header(&headers, "Subject"), Some("Hello world".to_string()));
    assert_eq!(extract_header(&headers, "From"), Some("alice@example.com".to_string()));
    assert_eq!(extract_header(&headers, "X-Missing"), None);
}

#[test]
fn extract_header_case_insensitive() {
    let headers = vec![MessagePartHeader {
        name: Some("Content-Type".to_string()),
        value: Some("text/plain".to_string()),
    }];
    assert_eq!(extract_header(&headers, "content-type"), Some("text/plain".to_string()));
}

#[test]
fn compose_email_basic() {
    let email = compose_email("bob@example.com", "alice@example.com", "Test Subject", "Hello Bob", None);
    assert!(email.contains("To: bob@example.com"));
    assert!(email.contains("From: alice@example.com"));
    assert!(email.contains("Subject: Test Subject"));
    assert!(email.contains("Hello Bob"));
    assert!(!email.contains("In-Reply-To"));
}

#[test]
fn compose_email_with_reply() {
    let email = compose_email(
        "bob@example.com",
        "alice@example.com",
        "Re: Test",
        "Reply body",
        Some("<msg123@example.com>"),
    );
    assert!(email.contains("In-Reply-To: <msg123@example.com>"));
    assert!(email.contains("References: <msg123@example.com>"));
}

#[test]
fn base64_url_roundtrip() {
    let original = "Hello, Gmail!";
    let encoded = base64_url_encode(original.as_bytes());
    let decoded = base64_url_decode(&encoded).unwrap();
    assert_eq!(decoded, original);
}

#[test]
fn base64_url_encode_is_unpadded_url_alphabet() {
    assert_eq!(base64_url_encode(&[0xfb, 0xff]), "-_8");
    assert!(base64_url_decode("%%%").is_err());
}

#[test]
fn extract_text_body_finds_nested_plain_part() {
    let encoded = base64_url_encode("inner text".as_bytes());
    let payload = MessagePart {
        mime_type: Some("multipart/alternative".to_string()),
        headers: None,
        body: None,
        parts: Some(vec![
            MessagePart {
                mime_type: Some("text/html".to_string()),
                headers: None,
                body: Some(MessagePartBody { data: Some(base64_url_encode("<b>html</b>".as_bytes()).into_bytes()) }),
                parts: None,
            },
            MessagePart {
                mime_type: Some("TEXT/PLAIN".to_string()),
                headers: None,
                body: Some(MessagePartBody { data: Some(encoded.into_bytes()) }),
                parts: None,
            },
        ]),
    };
    assert_eq!(extract_text_body(&payload), "inner text");
}

#[test]
fn build_sms_form_body_correct() {
    let form = build_sms_form_body("+15559876543", "+15551234567", "Hello from Beacon");
    assert_eq!(form.len(), 3);
    assert_eq!(form[0], ("To".to_string(), "+15559876543".to_string()));
    assert_eq!(form[1], ("From".to_string(), "+15551234567".to_string()));
    assert_eq!(form[2], ("Body".to_string(), "Hello from Beacon".to_string()));
}

#[test]
fn parse_twilio_incoming() {
    let sms = TwilioIncomingSms {
        from: "+15559876543".to_string(),
        to: "+15551234567".to_string(),
        body: "Hey there".to_string(),
        message_sid: "SM_abc123".to_string(),
    };
    let msg = sms.into_incoming_message();
    assert_eq!(msg.id, "SM_abc123");
    assert_eq!(msg.channel_id, "+15559876543");
    assert_eq!(msg.sender_id, "+15559876543");
    assert_eq!(msg.sender_name, "+15559876543");
    assert_eq!(msg.content, "Hey there");
    assert!(msg.is_dm);
    assert!(msg.reply_to.is_none());
    assert!(msg.attachments.is_empty());
}

#[test]
fn twilio_messages_url_names_account() {
    assert_eq!(
        messages_url("AC123"),
        "https://api.twilio.com/2010-04-01/Accounts/AC123/Messages.json"
    );
}

#[test]
fn verify_line_signature_valid() {
    let secret = "test_channel_secret";
    let body = b"test body content";
    let mut mac = Hmac::<Sha256>::new_from_slice(secret.as_bytes()).unwrap();
    mac.update(body);
    let signature = base64::engine::general_purpose::STANDARD.encode(mac.finalize().into_bytes());
    assert!(verify_signature(secret, body, &signature));
}

#[test]
fn verify_line_signature_invalid() {
    let secret = "test_channel_secret";
    let body = b"test body content";
    let bad_signature = "aW52YWxpZF9zaWduYXR1cmU=";
    assert!(!verify_signature(secret, body, bad_signature));
}

#[test]
fn line_text_events_become_messages() {
    let events = vec![
        LineEvent {
            event_type: "follow".to_string(),
            reply_token: None,
            source: None,
            message: None,
        },
        LineEvent {
            event_type: "message".to_string(),
            reply_token: Some("reply_tok_123".to_string()),
            source: Some(LineSource {
                source_type: "user".to_string(),
                user_id: Some("U1234567890abcdef".to_string()),
            }),
            message: Some(LineMessage {
                message_type: "text".to_string(),
                id: "msg_001".to_string(),
                text: Some("Hello from Line".to_string()),
            }),
        },
    ];
    let msgs = line_events_to_incoming(&events);
    assert_eq!(msgs.len(), 1);
    assert_eq!(msgs[0].id, "msg_001");
    assert_eq!(msgs[0].sender_id, "U1234567890abcdef");
    assert_eq!(msgs[0].content, "Hello from Line");
    assert_eq!(msgs[0].reply_to.as_deref(), Some("reply_tok_123"));
    assert!(msgs[0].is_dm);
}

#[test]
fn irc_channel_message_is_not_direct() {
    let m = privmsg_to_incoming("1".to_string(), "#beacon", "hi", None);
    assert!(!m.is_dm);
    assert_eq!(m.sender_id, "unknown");
    let d = privmsg_to_incoming("2".to_string(), "beacon-bot", "psst", Some("alice"));
    assert!(d.is_dm);
    assert_eq!(d.sender_name, "alice");
}

#[test]
fn feishu_token_response_errors_carry_code() {
    let err = check_token_response(99991663, None).unwrap_err();
    assert_eq!(err.message(), "Feishu token request returned code 99991663");
    let neg = check_token_response(-7, Some("t".to_string())).unwrap_err();
    assert_eq!(neg.message(), "Feishu token request returned code -7");
    let missing = check_token_response(0, None).unwrap_err();
    assert_eq!(missing.message(), "Feishu token response missing token");
    assert_eq!(check_token_response(0, Some("tok".to_string())).unwrap(), "tok");
}

#[test]
fn feishu_webhook_challenge_and_message() {
    let challenge = decide_webhook(FeishuWebhook {
        challenge: Some("test_challenge_abc".to_string()),
        event_type: None,
        event: None,
    });
    assert!(matches!(challenge, FeishuWebhookAction::Challenge(c) if c == "test_challenge_abc"));
    let forwarded = decide_webhook(FeishuWebhook {
        challenge: None,
        event_type: Some("im.message.receive_v1".to_string()),
        event: Some(FeishuMessageEvent {
            sender_open_id: None,
            text: Some("Hello from Feishu".to_string()),
            chat_id: Some("oc_1".to_string()),
            message_id: Some("om_1".to_string()),
        }),
    });
    match forwarded {
        FeishuWebhookAction::Forward(m) => {
            assert_eq!(m.sender_id, "unknown");
            assert_eq!(m.content, "Hello from Feishu");
            assert!(!m.is_dm);
        }
        other => panic!("expected Forward, got {other:?}"),
    }
}
