use beacon::routing::rules::{MatchCondition, RoutingAction, RoutingRule};
use beacon::routing::{RoutingDecision, RoutingEngine};

fn make_rule(name: &str, match_on: MatchCondition, action: RoutingAction) -> RoutingRule {
    RoutingRule {
        name: name.to_string(),
        enabled: true,
        match_on,
        action,
        priority: 100,
    }
}

#[test]
fn empty_rules_allows_all() {
    let mut engine = RoutingEngine::new(vec![]);
    let decision = engine.evaluate("discord", "user1", "hello", false);
    assert!(matches!(decision, RoutingDecision::Allow));
}

#[test]
fn deny_rule_blocks() {
    let rule = make_rule("block-all", MatchCondition::default(), RoutingAction::Deny);
    let mut engine = RoutingEngine::new(vec![rule]);
    let decision = engine.evaluate("discord", "user1", "hello", false);
    assert!(matches!(decision, RoutingDecision::Deny));
}

#[test]
fn channel_filter_matches() {
    let rule = make_rule(
        "discord-only",
        MatchCondition {
            channels: vec!["discord".to_string()],
            ..Default::default()
        },
        RoutingAction::Deny,
    );
    let mut engine = RoutingEngine::new(vec![rule]);

    let decision = engine.evaluate("discord", "user1", "hello", false);
    assert!(matches!(decision, RoutingDecision::Deny));

    let decision = engine.evaluate("slack", "user1", "hello", false);
    assert!(matches!(decision, RoutingDecision::Allow));
}

#[test]
fn content_pattern_matches() {
    let rule = make_rule(
        "block-spam",
        MatchCondition {
            content_pattern: Some(r"(?i)buy\s+now".to_string()),
            ..Default::default()
        },
        RoutingAction::Deny,
    );
    let mut engine = RoutingEngine::new(vec![rule]);

    let decision = engine.evaluate("discord", "user1", "BUY NOW cheap stuff", false);
    assert!(matches!(decision, RoutingDecision::Deny));

    let decision = engine.evaluate("discord", "user1", "hello world", false);
    assert!(matches!(decision, RoutingDecision::Allow));
}

#[test]
fn invalid_content_pattern_never_matches() {
    let rule = make_rule(
        "broken",
        MatchCondition {
            content_pattern: Some("(unclosed".to_string()),
            ..Default::default()
        },
        RoutingAction::Deny,
    );
    let mut engine = RoutingEngine::new(vec![rule]);
    let decision = engine.evaluate("discord", "user1", "(unclosed", false);
    assert!(matches!(decision, RoutingDecision::Allow));
}

#[test]
fn priority_ordering() {
    let allow_rule = RoutingRule {
        name: "allow-all".to_string(),
        enabled: true,
        match_on: MatchCondition::default(),
        action: RoutingAction::Allow,
        priority: 10,
    };
    let deny_rule = RoutingRule {
        name: "deny-all".to_string(),
        enabled: true,
        match_on: MatchCondition::default(),
        action: RoutingAction::Deny,
        priority: 50,
    };
    let mut engine = RoutingEngine::new(vec![deny_rule, allow_rule]);
    let decision = engine.evaluate("discord", "user1", "hello", false);
    assert!(matches!(decision, RoutingDecision::Allow));
}

#[test]
fn equal_priority_keeps_given_order() {
    let first = make_rule("first", MatchCondition::default(), RoutingAction::Deny);
    let second = make_rule(
        "second",
        MatchCondition::default(),
        RoutingAction::DenyWithReply { message: "no".to_string() },
    );
    let mut engine = RoutingEngine::new(vec![first, second]);
    let decision = engine.evaluate("discord", "user1", "hello", false);
    assert!(matches!(decision, RoutingDecision::Deny));
}

#[test]
fn dm_only_filter() {
    let rule = make_rule(
        "dm-only",
        MatchCondition {
            dm_only: Some(true),
            ..Default::default()
        },
        RoutingAction::Deny,
    );
    let mut engine = RoutingEngine::new(vec![rule]);

    let decision = engine.evaluate("discord", "user1", "hello", true);
    assert!(matches!(decision, RoutingDecision::Deny));

    let decision = engine.evaluate("discord", "user1", "hello", false);
    assert!(matches!(decision, RoutingDecision::Allow));
}

#[test]
fn group_only_and_sender_filters() {
    let rule = make_rule(
        "group-sender",
        MatchCondition {
            senders: vec!["spammer".to_string()],
            group_only: Some(true),
            ..Default::default()
        },
        RoutingAction::Deny,
    );
    let mut engine = RoutingEngine::new(vec![rule]);
    assert!(matches!(engine.evaluate("discord", "spammer", "hi", false), RoutingDecision::Deny));
    assert!(matches!(engine.evaluate("discord", "spammer", "hi", true), RoutingDecision::Allow));
    assert!(matches!(engine.evaluate("discord", "friend", "hi", false), RoutingDecision::Allow));
}

#[test]
fn redirect_overrides_agent() {
    let rule = make_rule(
        "redirect",
        MatchCondition::default(),
        RoutingAction::RedirectToAgent {
            agent_id: "support-agent".to_string(),
        },
    );
    let mut engine = RoutingEngine::new(vec![rule]);
    let decision = engine.evaluate("discord", "user1", "help", false);
    match decision {
        RoutingDecision::RedirectToAgent(id) => assert_eq!(id, "support-agent"),
        other => panic!("expected RedirectToAgent, got {other:?}"),
    }
}

#[test]
fn rate_limit_enforced() {
    let rule = make_rule(
        "rate-limit",
        MatchCondition::default(),
        RoutingAction::RateLimit { max_per_minute: 2 },
    );
    let mut engine = RoutingEngine::new(vec![rule]);

    let d1 = engine.evaluate("discord", "user1", "msg1", false);
    assert!(matches!(d1, RoutingDecision::Allow));
    let d2 = engine.evaluate("discord", "user1", "msg2", false);
    assert!(matches!(d2, RoutingDecision::Allow));

    let d3 = engine.evaluate("discord", "user1", "msg3", false);
    assert!(matches!(d3, RoutingDecision::RateLimited));

    let d4 = engine.evaluate("discord", "user2", "msg1", false);
    assert!(matches!(d4, RoutingDecision::Allow));
}

#[test]
fn rate_limit_window_expires() {
    let rule = make_rule(
        "rate-limit",
        MatchCondition::default(),
        RoutingAction::RateLimit { max_per_minute: 1 },
    );
    let mut engine = RoutingEngine::new(vec![rule]);
    let minute: u128 = 60_000_000_000;
    assert!(matches!(engine.evaluate_at("discord", "u", "a", false, 0), RoutingDecision::Allow));
    assert!(matches!(engine.evaluate_at("discord", "u", "b", false, 1), RoutingDecision::RateLimited));
    assert!(matches!(
        engine.evaluate_at("discord", "u", "c", false, minute + 1),
        RoutingDecision::Allow
    ));
}

#[test]
fn disabled_rule_skipped() {
    let rule = RoutingRule {
        name: "disabled".to_string(),
        enabled: false,
        match_on: MatchCondition::default(),
        action: RoutingAction::Deny,
        priority: 1,
    };
    let mut engine = RoutingEngine::new(vec![rule]);
    let decision = engine.evaluate("discord", "user1", "hello", false);
    assert!(matches!(decision, RoutingDecision::Allow));
}

#[test]
fn deny_with_reply_returns_message() {
    let rule = make_rule(
        "deny-reply",
        MatchCondition::default(),
        RoutingAction::DenyWithReply {
            message: "not allowed".to_string(),
        },
    );
    let mut engine = RoutingEngine::new(vec![rule]);
    let decision = engine.evaluate("discord", "user1", "hello", false);
    match decision {
        RoutingDecision::DenyWithReply(msg) => assert_eq!(msg, "not allowed"),
        other => panic!("expected DenyWithReply, got {other:?}"),
    }
}

#[test]
fn same_order_within_each_priority_gives_same_decisions() {
    let mut a1 = make_rule("a1", MatchCondition::default(), RoutingAction::Deny);
    a1.priority = 5;
    let mut b1 = make_rule("b1", MatchCondition::default(), RoutingAction::Allow);
    b1.priority = 9;
    let mut b2 = make_rule("b2", MatchCondition::default(), RoutingAction::RateLimit { max_per_minute: 1 });
    b2.priority = 9;
    let mut e1 = RoutingEngine::new(vec![b1.clone(), a1.clone(), b2.clone()]);
    let mut e2 = RoutingEngine::new(vec![a1, b1, b2]);
    for (i, t) in [0u128, 5, 10].iter().enumerate() {
        let m = format!("m{i}");
        let d1 = format!("{:?}", e1.evaluate_at("discord", "u", &m, false, *t));
        let d2 = format!("{:?}", e2.evaluate_at("discord", "u", &m, false, *t));
        assert_eq!(d1, d2);
        assert_eq!(d1, "Deny");
    }
}

#[test]
fn at_most_max_allowed_within_a_window() {
    let rule = make_rule("rl", MatchCondition::default(), RoutingAction::RateLimit { max_per_minute: 3 });
    let mut engine = RoutingEngine::new(vec![rule]);
    let mut allowed = 0;
    for t in 0u128..20 {
        if matches!(engine.evaluate_at("discord", "u", "x", false, t * 1_000_000_000), RoutingDecision::Allow) {
            allowed += 1;
        }
    }
    assert_eq!(allowed, 3);
}
