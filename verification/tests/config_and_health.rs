use beacon::attachments::{
    description_from_parts, pdf_text_result, frame_file_name, image_data_url, is_pdf_attachment,
    keyframe_command, keyframes_read, vision_api_error, vision_request, MAX_VISION_TOKENS,
};
use beacon::config::reload::{classify_changes, is_hot_key, ReloadDiff};
use beacon::doctor::checks::{
    channel_auth, config_parseable, mcp_servers, security_warnings, service_status, sqlite_health,
    synapse_connectivity, ServiceStatus, SqliteProbe, SynapseProbe,
};
use beacon::doctor::{result_line, summary_counts, summary_line, CheckStatus};
use beacon::security::DmPolicy;
use beacon::skills::{
    build_install_command, is_openclaw_skill, requirements_verdict, validate_requirements, InstallKind,
    SkillInstallSpec, SkillMetadata,
};

fn install_spec(kind: InstallKind) -> SkillInstallSpec {
    SkillInstallSpec {
        kind,
        formula: None,
        label: None,
        bins: vec![],
        os: vec![],
        package: None,
        module: None,
        url: None,
        archive: None,
        strip_components: None,
        target_dir: None,
    }
}

#[test]
fn build_install_command_brew() {
    let spec = SkillInstallSpec {
        kind: InstallKind::Brew,
        formula: Some("jq".to_string()),
        label: None,
        bins: vec![],
        os: vec![],
        package: None,
        module: None,
        url: None,
        archive: None,
        strip_components: None,
        target_dir: None,
    };
    assert_eq!(build_install_command(&spec), Some("brew install jq".to_string()));
}

#[test]
fn build_install_command_other_kinds() {
    let mut go = install_spec(InstallKind::Go);
    go.module = Some("example.com/tool".to_string());
    assert_eq!(build_install_command(&go), Some("go install example.com/tool@latest".to_string()));
    let mut dl = install_spec(InstallKind::Download);
    dl.url = Some("https://x/y".to_string());
    assert_eq!(build_install_command(&dl), Some("curl -fsSL -o /tmp/download 'https://x/y'".to_string()));
    assert_eq!(build_install_command(&install_spec(InstallKind::Node)), None);
}

fn metadata(requires_env: Vec<&str>, requires_bins: Vec<&str>, any_bins: Vec<&str>) -> SkillMetadata {
    SkillMetadata {
        name: "test-skill".to_string(),
        description: "A test skill".to_string(),
        version: None,
        author: None,
        tags: Vec::new(),
        permissions: Vec::new(),
        always: false,
        user_invocable: true,
        disable_model_invocation: false,
        emoji: None,
        requires_env: requires_env.into_iter().map(String::from).collect(),
        os: Vec::new(),
        requires_bins: requires_bins.into_iter().map(String::from).collect(),
        requires_any_bins: any_bins.into_iter().map(String::from).collect(),
        primary_env: None,
        command_dispatch: None,
        command_tool: None,
        install: Vec::new(),
        requires_config: Vec::new(),
    }
}

#[test]
fn validates_present_env_vars() {
    let m = metadata(vec!["PATH"], vec![], vec![]);
    assert!(validate_requirements(&m, &vec![true]).is_ok());
}

#[test]
fn rejects_missing_env_vars() {
    let m = metadata(vec!["A", "DEFINITELY_NOT_SET_XYZ_123", "B"], vec![], vec![]);
    let err = validate_requirements(&m, &vec![true, false, false]).unwrap_err();
    assert_eq!(err.message(), "skill 'test-skill' requires missing env vars: DEFINITELY_NOT_SET_XYZ_123, B");
}

#[test]
fn validates_present_binaries() {
    let m = metadata(vec![], vec!["sh"], vec![]);
    assert!(validate_requirements(&m, &vec![]).is_ok());
}

#[test]
fn rejects_missing_binaries() {
    let m = metadata(vec![], vec!["nonexistent_binary_xyz_123"], vec![]);
    let err = validate_requirements(&m, &vec![]).unwrap_err();
    assert_eq!(err.message(), "skill 'test-skill' requires missing binaries: nonexistent_binary_xyz_123");
}

#[test]
fn any_of_binaries_needs_one() {
    let m = metadata(vec![], vec![], vec!["x", "y"]);
    let err = requirements_verdict(&m, &vec![], &vec![], &vec![false, false]).unwrap_err();
    assert_eq!(err.message(), "skill 'test-skill' requires at least one of: x, y");
    assert!(requirements_verdict(&m, &vec![], &vec![], &vec![false, true]).is_ok());
}

#[test]
fn is_openclaw_skill_detects_nested_metadata() {
    assert!(is_openclaw_skill(&Some(vec!["openclaw".to_string()])));
    assert!(is_openclaw_skill(&Some(vec!["other".to_string(), "clawdis".to_string()])));
}

#[test]
fn is_openclaw_skill_rejects_plain() {
    assert!(!is_openclaw_skill(&None));
    assert!(!is_openclaw_skill(&Some(vec!["requires".to_string()])));
}

#[test]
fn detects_persona_change() {
    let old = "\n[persona]\nname = \"orin\"\n";
    let new = "\n[persona]\nname = \"beacon\"\n";
    let diff = classify_changes(old, new);
    assert!(diff.persona);
    assert!(diff.has_hot_changes());
    assert!(!diff.requires_restart);
}

#[test]
fn detects_restart_required() {
    let old = "\n[server]\nport = 3000\n";
    let new = "\n[server]\nport = 4000\n";
    let diff = classify_changes(old, new);
    assert!(diff.requires_restart);
    assert!(!diff.has_hot_changes());
}

#[test]
fn no_change_is_empty() {
    let config = "\n[persona]\nname = \"orin\"\n\n[server]\nport = 3000\n";
    let diff = classify_changes(config, config);
    assert_eq!(diff, ReloadDiff::default());
    assert!(!diff.has_hot_changes());
    assert!(!diff.requires_restart);
}

#[test]
fn detects_tool_policy_change() {
    let old = "\n[tool_policy]\nallow_all = true\n";
    let new = "\n[tool_policy]\nallow_all = false\n";
    let diff = classify_changes(old, new);
    assert!(diff.tool_policy);
    assert!(diff.has_hot_changes());
}

#[test]
fn detects_tools_key_as_tool_policy() {
    let old = "";
    let new = "\n[tools]\nenabled = [\"web_search\"]\n";
    let diff = classify_changes(old, new);
    assert!(diff.tool_policy);
}

#[test]
fn mixed_hot_and_restart() {
    let old = "\n[persona]\nname = \"orin\"\n\n[channels]\ndiscord = true\n";
    let new = "\n[persona]\nname = \"beacon\"\n\n[channels]\ndiscord = false\n";
    let diff = classify_changes(old, new);
    assert!(diff.persona);
    assert!(diff.has_hot_changes());
    assert!(diff.requires_restart);
}

#[test]
fn unparseable_config_requires_restart() {
    let diff = classify_changes("[persona", "");
    assert!(diff.requires_restart);
    assert!(!diff.has_hot_changes());
    assert!(is_hot_key("media"));
    assert!(!is_hot_key("server"));
}

#[test]
fn detect_pdf_mime_type() {
    assert!(is_pdf_attachment("application/pdf"));
    assert!(!is_pdf_attachment("image/png"));
    assert!(!is_pdf_attachment("text/plain"));
    assert!(!is_pdf_attachment("application/json"));
}

#[test]
fn extract_rejects_invalid_data() {
    let extracted = pdf_extract::extract_text_from_mem(b"not a pdf").map_err(|e| e.to_string());
    let err = pdf_text_result(extracted).unwrap_err();
    assert!(err.message().starts_with("PDF extraction failed: "));
}

#[test]
fn vision_request_and_data_url() {
    let req = vision_request("m", &[1, 2, 3], "IMAGE/PNG");
    assert_eq!(req.media_type, "image/png");
    assert_eq!(req.data, "AQID");
    assert_eq!(req.max_tokens, MAX_VISION_TOKENS);
    assert_eq!(image_data_url(&[1, 2, 3], "image/bmp"), "data:image/jpeg;base64,AQID");
}

#[test]
fn vision_description_joins_text_parts() {
    let d = description_from_parts(vec![Some("A cat".to_string()), None, Some("on a mat.".to_string())]).unwrap();
    assert_eq!(d, "A cat on a mat.");
    let e = description_from_parts(vec![None]).unwrap_err();
    assert_eq!(e.message(), "Empty response from vision API");
    assert_eq!(vision_api_error("400 Bad Request", "oops").message(), "API error 400 Bad Request: oops");
}

#[test]
fn keyframe_files_and_command() {
    assert_eq!(frame_file_name(1), "frame_001.jpg");
    assert_eq!(frame_file_name(42), "frame_042.jpg");
    assert_eq!(frame_file_name(1234), "frame_1234.jpg");
    let cmd = keyframe_command("/t/input", 3, "/t/frame_%03d.jpg");
    assert_eq!(cmd[5], "3");
    assert_eq!(cmd.len(), 14);
}

#[test]
fn doctor_checks_render_messages() {
    let c = config_parseable(None, false, false);
    assert_eq!(c.message, "config at unknown (using defaults)");
    assert_eq!(mcp_servers(3).message, "3 MCP server(s) configured");
    assert_eq!(mcp_servers(0).message, "no MCP servers configured");
    let s = security_warnings(DmPolicy::Open, false);
    assert_eq!(s.status, CheckStatus::Warning);
    assert_eq!(
        s.message,
        "DM policy is 'open' (anyone can message the bot); no API key set for admin endpoints"
    );
    assert_eq!(security_warnings(DmPolicy::Pairing, true).status, CheckStatus::Pass);
    assert_eq!(channel_auth(true, false).status, CheckStatus::Warning);
    let svc = service_status(Some(ServiceStatus::Unknown("odd".to_string())));
    assert_eq!(svc.message, "service: odd");
    let db = sqlite_health("/d/beacon.db", SqliteProbe::Integrity("ok".to_string()));
    assert_eq!(db.message, "database at /d/beacon.db is healthy");
    let syn = synapse_connectivity("http://s", SynapseProbe::Unreachable { error: "refused".to_string() }, true);
    assert_eq!(syn.status, CheckStatus::Error);
    assert_eq!(syn.message, "cannot reach Synapse at http://s: refused");
}

#[test]
fn doctor_summary_counts_statuses() {
    let results = vec![
        mcp_servers(0),
        channel_auth(true, false),
        synapse_connectivity("http://s", SynapseProbe::ClientFailed, false),
        security_warnings(DmPolicy::Allowlist, true),
    ];
    assert_eq!(summary_counts(&results), (2, 1, 1));
    assert_eq!(summary_line(&results), "4 checks: 2 passed, 1 warnings, 1 errors");
    assert_eq!(result_line(&results[0]), "[pass] McpServers: no MCP servers configured");
    assert_eq!(CheckStatus::Warning.as_str(), "warning");
}

#[test]
fn pdf_text_result_passes_text_and_wraps_errors() {
    assert_eq!(pdf_text_result(Ok("page one".to_string())).unwrap(), "page one");
    let err = pdf_text_result(Err("bad xref".to_string())).unwrap_err();
    assert_eq!(err.message(), "PDF extraction failed: bad xref");
}

#[test]
fn keyframes_stop_at_first_missing_or_empty_frame() {
    let reads = vec![Some(vec![1u8, 2]), Some(vec![3u8]), None, Some(vec![4u8])];
    assert_eq!(keyframes_read(true, reads.clone()), vec![vec![1u8, 2], vec![3u8]]);
    assert!(keyframes_read(false, reads).is_empty());
    let with_empty = vec![Some(vec![9u8]), Some(vec![]), Some(vec![5u8])];
    assert_eq!(keyframes_read(true, with_empty), vec![vec![9u8]]);
    assert!(keyframes_read(true, vec![]).is_empty());
}
