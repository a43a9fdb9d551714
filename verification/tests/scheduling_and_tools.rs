use beacon::cron::{schedule_info_at, CronAction, CronJob, LocalScheduler};
use beacon::tools::cron::{
    cron_tool_kind, cron_tool_specs, get_local, list_local, schedule_local, schedule_local_with_options,
    select_cron_tool, CronTool, ScheduleParams, ToolKind,
};
use beacon::tools::sandbox::{detect_engine, engine_for, pick_engine, resolve_engine, plan_execution, sandbox_plan, SandboxConfig, SandboxPlan};

fn webhook() -> CronAction {
    CronAction::Webhook {
        url: "https://example.com".to_string(),
        payload: None,
    }
}

#[test]
fn schedule_validates_cron() {
    let mut scheduler = LocalScheduler::new();
    let job = scheduler
        .schedule("0 9 * * MON", webhook(), Some("Weekly check".to_string()), None)
        .unwrap();
    assert_eq!(job.schedule, "0 9 * * MON");
    assert_eq!(job.description.as_deref(), Some("Weekly check"));
    assert!(!job.id.is_empty());
}

#[test]
fn schedule_rejects_invalid_cron() {
    let mut scheduler = LocalScheduler::new();
    let result = scheduler.schedule("not a cron expression", webhook(), None, None);
    let err = result.unwrap_err();
    assert!(err.message().starts_with("invalid cron expression: "));
    assert!(scheduler.list().is_empty());
}

#[test]
fn list_returns_all_jobs() {
    let mut scheduler = LocalScheduler::new();
    for expr in &["0 9 * * MON", "0 12 * * *", "30 8 1 * *"] {
        scheduler.schedule(expr, webhook(), None, None).unwrap();
    }
    assert_eq!(scheduler.list().len(), 3);
}

#[test]
fn cancel_removes_job() {
    let mut scheduler = LocalScheduler::new();
    let job = scheduler.schedule("0 9 * * MON", webhook(), None, None).unwrap();
    scheduler.cancel(&job.id).unwrap();
    assert!(scheduler.list().is_empty());
    assert!(scheduler.get(&job.id).is_none());
}

#[test]
fn get_returns_job() {
    let mut scheduler = LocalScheduler::new();
    let job = scheduler
        .schedule(
            "0 9 * * MON",
            CronAction::AgentPrompt {
                prompt: "Good morning!".to_string(),
                channel: "general".to_string(),
            },
            Some("Morning greeting".to_string()),
            None,
        )
        .unwrap();
    let found = scheduler.get(&job.id).unwrap();
    assert_eq!(found.id, job.id);
    assert_eq!(found.schedule, "0 9 * * MON");
}

#[test]
fn cancel_nonexistent_returns_error() {
    let mut scheduler = LocalScheduler::new();
    let err = scheduler.cancel("nonexistent-id").unwrap_err();
    assert_eq!(err.message(), "cron job not found: nonexistent-id");
}

#[test]
fn get_nonexistent_returns_none() {
    let scheduler = LocalScheduler::new();
    assert!(scheduler.get("nonexistent-id").is_none());
}

#[test]
fn insert_job_replaces_same_id() {
    let mut scheduler = LocalScheduler::new();
    let job = |schedule: &str| CronJob {
        id: "fixed".to_string(),
        schedule: schedule.to_string(),
        description: None,
        action: webhook(),
        timezone: None,
        created_at: 0,
    };
    scheduler.insert_job(job("0 9 * * *"));
    scheduler.insert_job(job("0 10 * * *"));
    assert_eq!(scheduler.list().len(), 1);
    assert_eq!(scheduler.get("fixed").unwrap().schedule, "0 10 * * *");
}

#[test]
fn due_jobs_fire_between_checks() {
    let mut scheduler = LocalScheduler::new();
    let every_minute = CronJob {
        id: "m".to_string(),
        schedule: "* * * * *".to_string(),
        description: None,
        action: webhook(),
        timezone: None,
        created_at: 0,
    };
    scheduler.insert_job(every_minute);
    // 2024-01-01T00:00:10Z to 2024-01-01T00:01:10Z contains the minute boundary.
    let start = 1_704_067_210_000i64;
    assert_eq!(scheduler.due_jobs(start, start + 60_000).len(), 1);
    assert_eq!(scheduler.due_jobs(start, start + 1_000).len(), 0);
}

#[test]
fn schedule_info_reports_next_run_and_target() {
    let job = CronJob {
        id: "j".to_string(),
        schedule: "0 12 * * *".to_string(),
        description: Some("noon".to_string()),
        action: CronAction::AgentPrompt { prompt: "p".to_string(), channel: "general".to_string() },
        timezone: None,
        created_at: 0,
    };
    let info = schedule_info_at(job, 1_704_067_200_000);
    assert_eq!(info.action, "general");
    assert!(info.active);
    assert_eq!(info.next_run.as_deref(), Some("2024-01-01T12:00:00+00:00"));
}

#[test]
fn local_backend_schedule_and_list() {
    let mut scheduler = LocalScheduler::new();
    let id = schedule_local(&mut scheduler, "0 9 * * MON", "remind", serde_json::from_str(r#"{"msg": "hi"}"#).unwrap()).unwrap();
    assert!(!id.is_empty());
    let list = list_local(&scheduler);
    assert_eq!(list.len(), 1);
    assert_eq!(list[0].id, id);
    assert_eq!(list[0].action, "remind");
}

#[test]
fn local_backend_cancel_and_get() {
    let mut scheduler = LocalScheduler::new();
    let id = schedule_local_with_options(
        &mut scheduler,
        ScheduleParams {
            cron: "0 12 * * *".to_string(),
            action: "check_in".to_string(),
            payload: serde_json::Value::Object(serde_json::Map::new()),
            description: Some("Daily check-in".to_string()),
            timezone: None,
        },
    )
    .unwrap();
    let info = get_local(&scheduler, &id).unwrap();
    assert_eq!(info.cron, "0 12 * * *");
    assert_eq!(info.description.as_deref(), Some("Daily check-in"));
    scheduler.cancel(&id).unwrap();
    assert!(list_local(&scheduler).is_empty());
    assert_eq!(get_local(&scheduler, &id).unwrap_err().message(), format!("cron job not found: {id}"));
}

#[test]
fn cron_tool_definitions_count() {
    let defs = cron_tool_specs();
    assert_eq!(defs.len(), 4);
    let names: Vec<&str> = defs.iter().map(|d| d.name.as_str()).collect();
    assert!(names.contains(&"cron_schedule"));
    assert!(names.contains(&"cron_list"));
    assert!(names.contains(&"cron_cancel"));
    assert!(names.contains(&"cron_get"));
    assert_eq!(defs[0].required, vec!["cron".to_string(), "action".to_string(), "payload".to_string()]);
}

#[test]
fn cron_tool_kinds_and_names() {
    assert_eq!(cron_tool_kind("cron_list"), ToolKind::Read);
    assert_eq!(cron_tool_kind("cron_get"), ToolKind::Read);
    assert_eq!(cron_tool_kind("cron_schedule"), ToolKind::Mutate);
    assert_eq!(select_cron_tool("cron_cancel").unwrap(), CronTool::Cancel);
    assert_eq!(select_cron_tool("cron_nope").unwrap_err().message(), "unknown cron tool: cron_nope");
}

#[test]
fn default_config_is_sane() {
    let config = SandboxConfig::default();
    assert_eq!(config.image, "alpine:latest");
    assert_eq!(config.memory_limit, "512m");
    assert!(!config.network);
}

#[test]
fn detect_engine_finds_something_or_none() {
    match detect_engine() {
        Some(e) => assert!(e == "docker" || e == "podman"),
        None => {}
    }
}

#[test]
fn sandbox_plan_builds_container_command() {
    let config = SandboxConfig::default();
    match sandbox_plan(Some("docker".to_string()), "echo hi", "/work", &config, Some(9000)) {
        SandboxPlan::Container { engine, args, timeout_secs } => {
            assert_eq!(engine, "docker");
            assert_eq!(timeout_secs, 600);
            assert_eq!(
                args,
                vec![
                    "run", "--rm", "--memory", "512m", "--cpus", "1", "--network", "none", "-v",
                    "/work:/workspace", "-w", "/workspace", "alpine:latest", "/bin/sh", "-c", "echo hi",
                ]
            );
        }
        other => panic!("unexpected {other:?}"),
    }
    match sandbox_plan(None, "echo hi", "/work", &config, None) {
        SandboxPlan::Host { timeout_secs } => assert_eq!(timeout_secs, 120),
        other => panic!("unexpected {other:?}"),
    }
}

#[test]
fn plan_with_missing_configured_engine_runs_on_host() {
    let config = SandboxConfig {
        engine: "definitely-not-an-engine-xyz".to_string(),
        ..SandboxConfig::default()
    };
    assert!(matches!(plan_execution("true", "/tmp", &config, Some(5)), SandboxPlan::Host { timeout_secs: 5 }));
}

#[test]
fn engine_pick_prefers_docker_then_podman() {
    assert_eq!(pick_engine(true, true), Some("docker".to_string()));
    assert_eq!(pick_engine(true, false), Some("docker".to_string()));
    assert_eq!(pick_engine(false, true), Some("podman".to_string()));
    assert_eq!(pick_engine(false, false), None);
}

#[test]
fn engine_for_configured_or_detected() {
    let mut config = SandboxConfig::default();
    assert_eq!(engine_for(&config, false, Some("podman".to_string())), Some("podman".to_string()));
    assert_eq!(engine_for(&config, true, None), None);
    config.engine = "nerdctl".to_string();
    assert_eq!(engine_for(&config, true, Some("docker".to_string())), Some("nerdctl".to_string()));
    assert_eq!(engine_for(&config, false, Some("docker".to_string())), None);
}

#[test]
fn resolve_engine_with_missing_configured_engine() {
    let mut config = SandboxConfig::default();
    config.engine = "no-such-engine-binary-here".to_string();
    assert_eq!(resolve_engine(&config), None);
}
