//! Individual diagnostic checks. Each one turns what was found into a check result;
//! finding it (reading files, probing the network) is left to the caller.

use vstd::prelude::*;

use crate::doctor::{check_view, CheckResult, CheckStatus};
use crate::security::DmPolicy;
use crate::text::{concat, concat3, decimal, u64_to_string};
use crate::tools::sandbox::program_available;

verus! {

fn check(name: &str, status: CheckStatus, message: String, suggestion: Option<&str>) -> (r: CheckResult)
    ensures
        r.name@ == name@,
        r.status == status,
        r.message@ == message@,
        match suggestion {
            Some(s) => r.suggestion is Some && (r.suggestion->0)@ == s@,
            None => r.suggestion is None,
        },
{
    let suggestion = match suggestion {
        Some(s) => Some(String::from_str(s)),
        None => None,
    };
    CheckResult { name: String::from_str(name), status, message, suggestion }
}

/// The configuration file was read: where from, and whether it customises the persona
/// or the model (`path` is `None` when no location could be determined).
pub fn config_parseable(path: Option<&str>, has_persona: bool, has_model: bool) -> (r: CheckResult)
    ensures
        ({
            let p = match path {
                Some(p) => p@,
                None => "unknown"@,
            };
            check_view(r) == (
                "ConfigParseable"@,
                CheckStatus::Pass,
                if has_persona || has_model {
                    "config loaded from "@ + p
                } else {
                    "config at "@ + p + " (using defaults)"@
                },
                None::<Seq<char>>,
            )
        }),
{
    let p = match path {
        Some(p) => String::from_str(p),
        None => String::from_str("unknown"),
    };
    let message = if has_persona || has_model {
        concat("config loaded from ", p.as_str())
    } else {
        concat3("config at ", p.as_str(), " (using defaults)")
    };
    check("ConfigParseable", CheckStatus::Pass, message, None)
}

/// What came of asking Synapse for its health.
#[derive(Debug, Clone)]
pub enum SynapseProbe {
    /// The HTTP client could not be built
    ClientFailed,
    /// Synapse answered; `success` when the status was 2xx, `status` as text
    Responded { success: bool, status: String },
    /// The request failed
    Unreachable { error: String },
}

/// Synapse connectivity from the outcome of the health request to `url`.
pub fn synapse_connectivity(url: &str, probe: SynapseProbe, cloud_mode: bool) -> (r: CheckResult)
    ensures
        r.name@ == "SynapseConnectivity"@,
        match probe {
            SynapseProbe::ClientFailed => check_view(r) == (
                "SynapseConnectivity"@,
                CheckStatus::Error,
                "failed to create HTTP client"@,
                None::<Seq<char>>,
            ),
            SynapseProbe::Responded { success, status } => if success {
                check_view(r) == (
                    "SynapseConnectivity"@,
                    CheckStatus::Pass,
                    "Synapse reachable at "@ + url@,
                    None::<Seq<char>>,
                )
            } else {
                check_view(r) == (
                    "SynapseConnectivity"@,
                    CheckStatus::Warning,
                    "Synapse returned "@ + status@ + " at "@ + url@,
                    Some("check Synapse logs"@),
                )
            },
            SynapseProbe::Unreachable { error } => if cloud_mode {
                check_view(r) == (
                    "SynapseConnectivity"@,
                    CheckStatus::Error,
                    "cannot reach Synapse at "@ + url@ + ": "@ + error@,
                    Some("verify SYNAPSE_URL or network connectivity"@),
                )
            } else {
                check_view(r) == (
                    "SynapseConnectivity"@,
                    CheckStatus::Warning,
                    "Synapse not reachable at "@ + url@ + " (embedded mode may start it)"@,
                    None::<Seq<char>>,
                )
            },
        },
{
    let name = "SynapseConnectivity";
    match probe {
        SynapseProbe::ClientFailed => check(
            name,
            CheckStatus::Error,
            String::from_str("failed to create HTTP client"),
            None,
        ),
        SynapseProbe::Responded { success, status } => {
            if success {
                check(name, CheckStatus::Pass, concat("Synapse reachable at ", url), None)
            } else {
                let a = concat3("Synapse returned ", status.as_str(), " at ");
                check(name, CheckStatus::Warning, concat(a.as_str(), url), Some("check Synapse logs"))
            }
        },
        SynapseProbe::Unreachable { error } => {
            if cloud_mode {
                let a = concat3("cannot reach Synapse at ", url, ": ");
                check(
                    name,
                    CheckStatus::Error,
                    concat(a.as_str(), error.as_str()),
                    Some("verify SYNAPSE_URL or network connectivity"),
                )
            } else {
                check(
                    name,
                    CheckStatus::Warning,
                    concat3("Synapse not reachable at ", url, " (embedded mode may start it)"),
                    None,
                )
            }
        },
    }
}

/// What came of checking the database file.
#[derive(Debug, Clone)]
pub enum SqliteProbe {
    /// There is no database file yet
    Missing,
    /// The file could not be opened, with the error text
    OpenFailed(String),
    /// `PRAGMA integrity_check` answered with this text
    Integrity(String),
    /// The integrity check could not run, with the error text
    CheckFailed(String),
}

/// Database health from what was found at `db_path`.
pub fn sqlite_health(db_path: &str, probe: SqliteProbe) -> (r: CheckResult)
    ensures
        match probe {
            SqliteProbe::Missing => check_view(r) == (
                "SqliteHealth"@,
                CheckStatus::Warning,
                "database file not found (will be created on first run)"@,
                None::<Seq<char>>,
            ),
            SqliteProbe::OpenFailed(e) => check_view(r) == (
                "SqliteHealth"@,
                CheckStatus::Error,
                "cannot open database: "@ + e@,
                None::<Seq<char>>,
            ),
            SqliteProbe::Integrity(result) => if result@ == "ok"@ {
                check_view(r) == (
                    "SqliteHealth"@,
                    CheckStatus::Pass,
                    "database at "@ + db_path@ + " is healthy"@,
                    None::<Seq<char>>,
                )
            } else {
                check_view(r) == (
                    "SqliteHealth"@,
                    CheckStatus::Error,
                    "integrity check failed: "@ + result@,
                    Some("consider running `beacon backup create` then restoring"@),
                )
            },
            SqliteProbe::CheckFailed(e) => check_view(r) == (
                "SqliteHealth"@,
                CheckStatus::Error,
                "integrity check error: "@ + e@,
                None::<Seq<char>>,
            ),
        },
{
    let name = "SqliteHealth";
    match probe {
        SqliteProbe::Missing => check(
            name,
            CheckStatus::Warning,
            String::from_str("database file not found (will be created on first run)"),
            None,
        ),
        SqliteProbe::OpenFailed(e) => check(
            name,
            CheckStatus::Error,
            concat("cannot open database: ", e.as_str()),
            None,
        ),
        SqliteProbe::Integrity(result) => {
            if crate::text::str_eq(result.as_str(), "ok") {
                check(name, CheckStatus::Pass, concat3("database at ", db_path, " is healthy"), None)
            } else {
                check(
                    name,
                    CheckStatus::Error,
                    concat("integrity check failed: ", result.as_str()),
                    Some("consider running `beacon backup create` then restoring"),
                )
            }
        },
        SqliteProbe::CheckFailed(e) => check(
            name,
            CheckStatus::Error,
            concat("integrity check error: ", e.as_str()),
            None,
        ),
    }
}

/// Whether embeddings can be used, given whether `OPENAI_API_KEY` is set.
pub fn embeddings_available(key_set: bool) -> (r: CheckResult)
    ensures
        check_view(r) == if key_set {
            (
                "EmbeddingsAvailable"@,
                CheckStatus::Pass,
                "OPENAI_API_KEY set (embeddings enabled)"@,
                None::<Seq<char>>,
            )
        } else {
            (
                "EmbeddingsAvailable"@,
                CheckStatus::Warning,
                "OPENAI_API_KEY not set (semantic memory disabled)"@,
                Some("set OPENAI_API_KEY for memory and knowledge features"@),
            )
        },
{
    if key_set {
        check(
            "EmbeddingsAvailable",
            CheckStatus::Pass,
            String::from_str("OPENAI_API_KEY set (embeddings enabled)"),
            None,
        )
    } else {
        check(
            "EmbeddingsAvailable",
            CheckStatus::Warning,
            String::from_str("OPENAI_API_KEY not set (semantic memory disabled)"),
            Some("set OPENAI_API_KEY for memory and knowledge features"),
        )
    }
}

/// Channel credentials: a configured Telegram channel needs `TELEGRAM_BOT_TOKEN`.
pub fn channel_auth(telegram_configured: bool, telegram_token_set: bool) -> (r: CheckResult)
    ensures
        check_view(r) == if telegram_configured && !telegram_token_set {
            (
                "ChannelAuth"@,
                CheckStatus::Warning,
                "Telegram configured but TELEGRAM_BOT_TOKEN not set"@,
                Some("set missing env vars for channels you want to use"@),
            )
        } else {
            ("ChannelAuth"@, CheckStatus::Pass, "channel credentials look good"@, None::<Seq<char>>)
        },
{
    if telegram_configured && !telegram_token_set {
        check(
            "ChannelAuth",
            CheckStatus::Warning,
            String::from_str("Telegram configured but TELEGRAM_BOT_TOKEN not set"),
            Some("set missing env vars for channels you want to use"),
        )
    } else {
        check(
            "ChannelAuth",
            CheckStatus::Pass,
            String::from_str("channel credentials look good"),
            None,
        )
    }
}

/// MCP servers: how many are configured.
pub fn mcp_servers(count: usize) -> (r: CheckResult)
    ensures
        check_view(r) == (
            "McpServers"@,
            CheckStatus::Pass,
            if count == 0 {
                "no MCP servers configured"@
            } else {
                decimal(count as nat) + " MCP server(s) configured"@
            },
            None::<Seq<char>>,
        ),
{
    if count == 0 {
        return check(
            "McpServers",
            CheckStatus::Pass,
            String::from_str("no MCP servers configured"),
            None,
        );
    }
    let n = u64_to_string(count as u64);
    check("McpServers", CheckStatus::Pass, concat(n.as_str(), " MCP server(s) configured"), None)
}

/// The sandbox check when a sandbox is configured, from whether Docker and Podman were found.
pub open spec fn sandbox_verdict(has_docker: bool, has_podman: bool) -> (
    Seq<char>,
    CheckStatus,
    Seq<char>,
    Option<Seq<char>>,
) {
    if has_docker {
        ("SandboxRuntime"@, CheckStatus::Pass, "Docker available for sandbox execution"@, None)
    } else if has_podman {
        ("SandboxRuntime"@, CheckStatus::Pass, "Podman available for sandbox execution"@, None)
    } else {
        (
            "SandboxRuntime"@,
            CheckStatus::Error,
            "sandbox configured but neither Docker nor Podman found"@,
            Some("install Docker or Podman, or disable sandbox in config"@),
        )
    }
}

/// The sandbox verdict from whether Docker and Podman were found.
pub fn sandbox_runtime_verdict(has_docker: bool, has_podman: bool) -> (r: CheckResult)
    ensures
        check_view(r) == sandbox_verdict(has_docker, has_podman),
{
    if has_docker || has_podman {
        let engine = if has_docker {
            "Docker"
        } else {
            "Podman"
        };
        proof {
            reveal_strlit("Docker");
            reveal_strlit("Podman");
            reveal_strlit(" available for sandbox execution");
            reveal_strlit("Docker available for sandbox execution");
            reveal_strlit("Podman available for sandbox execution");
        }
        check(
            "SandboxRuntime",
            CheckStatus::Pass,
            concat(engine, " available for sandbox execution"),
            None,
        )
    } else {
        check(
            "SandboxRuntime",
            CheckStatus::Error,
            String::from_str("sandbox configured but neither Docker nor Podman found"),
            Some("install Docker or Podman, or disable sandbox in config"),
        )
    }
}

/// Sandbox runtime: when a sandbox is configured, look for Docker and Podman.
pub fn sandbox_runtime(sandbox_configured: bool) -> (r: CheckResult)
    ensures
        !sandbox_configured ==> check_view(r) == (
            "SandboxRuntime"@,
            CheckStatus::Pass,
            "sandbox not configured (shell runs uncontained)"@,
            None::<Seq<char>>,
        ),
        sandbox_configured ==> check_view(r) == sandbox_verdict(true, false) || check_view(r)
            == sandbox_verdict(false, true) || check_view(r) == sandbox_verdict(false, false),
{
    if !sandbox_configured {
        return check(
            "SandboxRuntime",
            CheckStatus::Pass,
            String::from_str("sandbox not configured (shell runs uncontained)"),
            None,
        );
    }
    let has_docker = program_available("docker");
    let has_podman = program_available("podman");
    sandbox_runtime_verdict(has_docker, has_podman)
}

/// Disk space: whether a file could be created in the data directory.
pub fn disk_space(data_dir: &str, writable: bool) -> (r: CheckResult)
    ensures
        check_view(r) == if writable {
            ("DiskSpace"@, CheckStatus::Pass, "data directory writable: "@ + data_dir@, None::<Seq<char>>)
        } else {
            (
                "DiskSpace"@,
                CheckStatus::Warning,
                "data directory may not be writable: "@ + data_dir@,
                Some("check permissions on data directory"@),
            )
        },
{
    if writable {
        check("DiskSpace", CheckStatus::Pass, concat("data directory writable: ", data_dir), None)
    } else {
        check(
            "DiskSpace",
            CheckStatus::Warning,
            concat("data directory may not be writable: ", data_dir),
            Some("check permissions on data directory"),
        )
    }
}

/// State of the system service.
#[derive(Debug, Clone)]
pub enum ServiceStatus {
    /// Running
    Running,
    /// Installed but stopped
    Stopped,
    /// Not installed
    NotInstalled,
    /// Something else, as reported
    Unknown(String),
}

/// Service status from what the service manager reported (`None` when it could not tell).
pub fn service_status(status: Option<ServiceStatus>) -> (r: CheckResult)
    ensures
        check_view(r) == match status {
            Some(ServiceStatus::Running) => ("ServiceStatus"@, CheckStatus::Pass, "service: running"@, None::<Seq<char>>),
            Some(ServiceStatus::Stopped) => (
                "ServiceStatus"@,
                CheckStatus::Warning,
                "service: stopped"@,
                Some("start the service or run `beacon install`"@),
            ),
            Some(ServiceStatus::NotInstalled) => (
                "ServiceStatus"@,
                CheckStatus::Warning,
                "service not installed"@,
                Some("run `beacon install` to set up as a system service"@),
            ),
            Some(ServiceStatus::Unknown(msg)) => (
                "ServiceStatus"@,
                CheckStatus::Warning,
                "service: "@ + msg@,
                None::<Seq<char>>,
            ),
            None => (
                "ServiceStatus"@,
                CheckStatus::Warning,
                "could not determine service status"@,
                Some("run `beacon install` to set up as a system service"@),
            ),
        },
{
    match status {
        Some(ServiceStatus::Running) => check(
            "ServiceStatus",
            CheckStatus::Pass,
            String::from_str("service: running"),
            None,
        ),
        Some(ServiceStatus::Stopped) => check(
            "ServiceStatus",
            CheckStatus::Warning,
            String::from_str("service: stopped"),
            Some("start the service or run `beacon install`"),
        ),
        Some(ServiceStatus::NotInstalled) => check(
            "ServiceStatus",
            CheckStatus::Warning,
            String::from_str("service not installed"),
            Some("run `beacon install` to set up as a system service"),
        ),
        Some(ServiceStatus::Unknown(msg)) => check(
            "ServiceStatus",
            CheckStatus::Warning,
            concat("service: ", msg.as_str()),
            None,
        ),
        None => check(
            "ServiceStatus",
            CheckStatus::Warning,
            String::from_str("could not determine service status"),
            Some("run `beacon install` to set up as a system service"),
        ),
    }
}

/// The security warnings for a configuration, joined by `; `.
pub open spec fn security_warning_text(dm_policy: DmPolicy, has_api_key: bool) -> Seq<char> {
    let open = "DM policy is 'open' (anyone can message the bot)"@;
    let nokey = "no API key set for admin endpoints"@;
    if dm_policy == DmPolicy::Open && !has_api_key {
        open + "; "@ + nokey
    } else if dm_policy == DmPolicy::Open {
        open
    } else {
        nokey
    }
}

/// Security warnings: an open DM policy, and admin endpoints without an API key.
pub fn security_warnings(dm_policy: DmPolicy, has_api_key: bool) -> (r: CheckResult)
    ensures
        check_view(r) == if dm_policy != DmPolicy::Open && has_api_key {
            ("SecurityWarnings"@, CheckStatus::Pass, "no security warnings"@, None::<Seq<char>>)
        } else {
            (
                "SecurityWarnings"@,
                CheckStatus::Warning,
                security_warning_text(dm_policy, has_api_key),
                Some("review security settings in config.toml"@),
            )
        },
{
    let open = dm_policy == DmPolicy::Open;
    if !open && has_api_key {
        return check(
            "SecurityWarnings",
            CheckStatus::Pass,
            String::from_str("no security warnings"),
            None,
        );
    }
    let message = if open && !has_api_key {
        concat3(
            "DM policy is 'open' (anyone can message the bot)",
            "; ",
            "no API key set for admin endpoints",
        )
    } else if open {
        String::from_str("DM policy is 'open' (anyone can message the bot)")
    } else {
        String::from_str("no API key set for admin endpoints")
    };
    check(
        "SecurityWarnings",
        CheckStatus::Warning,
        message,
        Some("review security settings in config.toml"),
    )
}

} // verus!
