use beacon::agent::binding::{AgentBinding, BindingRouter};
use beacon::agent::harness::{Execution, SessionMode};
use beacon::agent::registry::{AgentConfig, AgentId, AgentRegistry};

#[test]
fn resolve_exact_match() {
    let bindings = vec![AgentBinding {
        channel: "discord".to_string(),
        account_id: Some("guild-123".to_string()),
        agent_id: "alpha".to_string(),
    }];
    let router = BindingRouter::new(bindings, "default".to_string());
    let result = router.resolve("discord", Some("guild-123"));
    assert_eq!(result.as_str(), "alpha");
}

#[test]
fn resolve_channel_only() {
    let bindings = vec![AgentBinding {
        channel: "telegram".to_string(),
        account_id: None,
        agent_id: "beta".to_string(),
    }];
    let router = BindingRouter::new(bindings, "default".to_string());
    let result = router.resolve("telegram", Some("any-chat"));
    assert_eq!(result.as_str(), "beta");
}

#[test]
fn resolve_falls_back_to_default() {
    let bindings = vec![];
    let router = BindingRouter::new(bindings, "default".to_string());
    let result = router.resolve("slack", None);
    assert_eq!(result.as_str(), "default");
}

#[test]
fn resolve_prefers_exact_over_channel_binding() {
    let bindings = vec![
        AgentBinding {
            channel: "discord".to_string(),
            account_id: None,
            agent_id: "general".to_string(),
        },
        AgentBinding {
            channel: "discord".to_string(),
            account_id: Some("guild-9".to_string()),
            agent_id: "special".to_string(),
        },
    ];
    let router = BindingRouter::new(bindings, "default".to_string());
    assert_eq!(router.resolve("discord", Some("guild-9")).as_str(), "special");
    assert_eq!(router.resolve("discord", Some("other")).as_str(), "general");
    assert_eq!(router.resolve("discord", None).as_str(), "general");
}

#[test]
fn execution_defaults_to_builtin() {
    let exec = Execution::default();
    assert!(matches!(exec, Execution::Builtin));
}

#[test]
fn session_mode_defaults_to_resume() {
    let mode = SessionMode::default();
    assert!(matches!(mode, SessionMode::Resume));
}

#[test]
fn agent_id_normalizes_to_lowercase() {
    let id = AgentId::new("MyAgent");
    assert_eq!(id.as_str(), "myagent");
}

#[test]
fn single_registry_has_default() {
    let registry = AgentRegistry::single("/tmp");
    assert_eq!(registry.len(), 1);
    assert!(registry.default_agent().is_some());
    assert_eq!(registry.default_id(), "default");
}

#[test]
fn single_registry_workspace_is_under_agents() {
    let registry = AgentRegistry::single("/tmp");
    let agent = registry.default_agent().unwrap();
    assert_eq!(agent.workspace_dir, "/tmp/agents/default");
    assert!(!registry.is_empty());
}

fn config(id: &str, workspace: &str) -> AgentConfig {
    AgentConfig {
        id: AgentId::new(id),
        persona_id: None,
        model_override: None,
        skill_filter: None,
        workspace_dir: workspace.to_string(),
        dm_policy_override: None,
        enabled_channels: None,
        execution: Execution::default(),
    }
}

#[test]
fn multi_agent_registry() {
    let agents = vec![
        AgentConfig {
            id: AgentId::new("alpha"),
            persona_id: Some("orin".to_string()),
            model_override: None,
            skill_filter: None,
            workspace_dir: "/tmp/alpha".to_string(),
            dm_policy_override: None,
            enabled_channels: None,
            execution: Execution::default(),
        },
        AgentConfig {
            id: AgentId::new("beta"),
            persona_id: Some("assistant".to_string()),
            model_override: Some("gpt-4o".to_string()),
            skill_filter: None,
            workspace_dir: "/tmp/beta".to_string(),
            dm_policy_override: None,
            enabled_channels: Some(vec!["discord".to_string()]),
            execution: Execution::default(),
        },
    ];

    let registry = AgentRegistry::new(agents, Some("alpha".to_string()));
    assert_eq!(registry.len(), 2);
    assert_eq!(registry.default_id(), "alpha");
    assert!(registry.get("beta").is_some());
}

#[test]
fn registry_later_config_with_same_id_wins() {
    let agents = vec![config("alpha", "/first"), config("ALPHA", "/second")];
    let registry = AgentRegistry::new(agents, None);
    assert_eq!(registry.len(), 1);
    assert_eq!(registry.default_id(), "default");
    assert!(registry.default_agent().is_none());
    assert_eq!(registry.get("alpha").unwrap().workspace_dir, "/second");
    assert_eq!(registry.list().len(), 1);
}

use beacon::agent::harness::HarnessConfig;
use beacon::agent::stream_json::{build_harness_args, parse_result_event, run_from_output, run_outcome, EventUsage, StreamEvent};
use beacon::agent::turn::{HarnessRun, HarnessTurn, RunUsage, TurnAction, TurnEvent, TurnPhase};
use beacon::error::BeaconError;

fn event(kind: &str) -> StreamEvent {
    StreamEvent {
        event_type: Some(kind.to_string()),
        result: None,
        session_id: None,
        has_cost: false,
        usage: None,
        model: None,
    }
}

#[test]
fn parse_result_event_extracts_data() {
    let mut result = event("result");
    result.result = Some("Hello!".to_string());
    result.session_id = Some("sess_abc123".to_string());
    result.has_cost = true;
    result.usage = Some(EventUsage {
        input_tokens: Some(100),
        cache_read_input_tokens: Some(50),
        output_tokens: Some(200),
    });
    result.model = Some("sonnet-4-6".to_string());
    let lines = vec![Some(event("assistant")), Some(result)];
    let run = parse_result_event(&lines).unwrap();
    assert_eq!(run.response, "Hello!");
    assert_eq!(run.session_id.as_deref(), Some("sess_abc123"));
    let usage = run.usage.unwrap();
    assert_eq!(usage.input_tokens, 100);
    assert_eq!(usage.cached_input_tokens, 50);
    assert_eq!(usage.output_tokens, 200);
    assert_eq!(usage.model.as_deref(), Some("sonnet-4-6"));
}

#[test]
fn parse_result_event_handles_missing_usage() {
    let mut result = event("result");
    result.result = Some("Done".to_string());
    result.session_id = Some("sess_xyz".to_string());
    let run = parse_result_event(&vec![Some(result)]).unwrap();
    assert_eq!(run.response, "Done");
    assert_eq!(run.session_id.as_deref(), Some("sess_xyz"));
    assert!(run.usage.is_none());
}

#[test]
fn parse_result_event_returns_none_for_no_result() {
    assert!(parse_result_event(&vec![Some(event("assistant")), None]).is_none());
    let run = run_from_output("raw output".to_string(), &vec![None]);
    assert_eq!(run.response, "raw output");
    assert!(run.session_id.is_none());
}

#[test]
fn harness_args_resume_skip_and_mcp() {
    let config = HarnessConfig {
        adapter: "cli".to_string(),
        session_mode: SessionMode::Resume,
        env: vec![],
        mcp_servers: vec!["a.json".to_string()],
        skip_permissions: true,
    };
    let args = build_harness_args("hi", &config, Some("s1"));
    assert_eq!(
        args,
        vec![
            "--print",
            "--output-format",
            "stream-json",
            "--verbose",
            "--resume",
            "s1",
            "--dangerously-skip-permissions",
            "--mcp-config",
            "a.json",
            "hi"
        ]
    );
}

fn harness(mode: SessionMode) -> HarnessConfig {
    HarnessConfig {
        adapter: "cli".to_string(),
        session_mode: mode,
        env: vec![],
        mcp_servers: vec![],
        skip_permissions: false,
    }
}

#[test]
fn harness_turn_unknown_adapter_fails() {
    let (_turn, action) = HarnessTurn::begin(&harness(SessionMode::Fresh), false);
    match action {
        TurnAction::Fail(e) => assert_eq!(e.message(), "unknown harness adapter: cli"),
        other => panic!("unexpected {other:?}"),
    }
}

#[test]
fn harness_turn_retries_stale_session_fresh() {
    let (mut turn, action) = HarnessTurn::begin(&harness(SessionMode::Resume), true);
    assert!(matches!(action, TurnAction::CheckAvailable));
    assert!(matches!(turn.advance(TurnEvent::Available(true)), TurnAction::LoadSession));
    match turn.advance(TurnEvent::SessionLoaded(Ok(Some("old".to_string())))) {
        TurnAction::Run { resume } => assert_eq!(resume.as_deref(), Some("old")),
        other => panic!("unexpected {other:?}"),
    }
    assert!(matches!(
        turn.advance(TurnEvent::Ran(Err(BeaconError::Agent("stale".to_string())))),
        TurnAction::ForgetSession
    ));
    assert!(matches!(turn.advance(TurnEvent::Forgot(Ok(()))), TurnAction::Run { resume: None }));
    let run = HarnessRun {
        response: "answer".to_string(),
        session_id: Some("new".to_string()),
        usage: Some(RunUsage { input_tokens: 5, cached_input_tokens: 0, output_tokens: 7, model: None }),
    };
    match turn.advance(TurnEvent::Ran(Ok(run))) {
        TurnAction::SaveSession { session_id } => assert_eq!(session_id, "new"),
        other => panic!("unexpected {other:?}"),
    }
    match turn.advance(TurnEvent::Saved(Ok(()))) {
        TurnAction::RecordUsage { model, input_tokens, output_tokens } => {
            assert_eq!(model, "unknown");
            assert_eq!((input_tokens, output_tokens), (5, 7));
        }
        other => panic!("unexpected {other:?}"),
    }
    assert!(matches!(turn.advance(TurnEvent::Recorded), TurnAction::StoreMessages { .. }));
    match turn.advance(TurnEvent::Stored(Ok(()))) {
        TurnAction::Reply(text) => assert_eq!(text, "answer"),
        other => panic!("unexpected {other:?}"),
    }
    assert!(matches!(turn.phase, TurnPhase::Done));
}

#[test]
fn harness_turn_unavailable_cli_fails() {
    let (mut turn, _) = HarnessTurn::begin(&harness(SessionMode::Fresh), true);
    match turn.advance(TurnEvent::Available(false)) {
        TurnAction::Fail(e) => assert_eq!(e.message(), "harness CLI not found for adapter: cli"),
        other => panic!("unexpected {other:?}"),
    }
}

#[test]
fn failed_harness_exit_is_an_agent_error() {
    let mut result = event("result");
    result.result = Some("Done".to_string());
    let lines = vec![Some(result)];
    let err = run_outcome(false, "exit status: 2", "boom", "out".to_string(), &lines).unwrap_err();
    assert!(matches!(err, BeaconError::Agent(_)));
    assert_eq!(err.message(), "harness CLI exited with exit status: 2: boom");
    let run = run_outcome(true, "exit status: 0", "", "out".to_string(), &lines).unwrap();
    assert_eq!(run.response, "Done");
    let raw = run_outcome(true, "exit status: 0", "", "plain text".to_string(), &vec![None]).unwrap();
    assert_eq!(raw.response, "plain text");
    assert!(raw.session_id.is_none());
}
