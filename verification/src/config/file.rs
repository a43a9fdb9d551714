//! The configuration file: where it lives and the sections it may hold. Every field is
//! optional; the file is a partial overlay on top of defaults.

use vstd::prelude::*;

use crate::error::BeaconError;
use crate::text::{join_path, path_joined};

verus! {

/// Per-agent configuration.
#[derive(Debug, Clone)]
pub struct AgentFileConfig {
    /// Unique agent identifier
    pub id: String,
    /// Optional persona override
    pub persona_id: Option<String>,
    /// Optional model override
    pub model_override: Option<String>,
    /// Optional skill filter (allowlist)
    pub skill_filter: Option<Vec<String>>,
    /// Optional DM policy override ("open", "pairing", "allowlist")
    pub dm_policy_override: Option<String>,
    /// Channels this agent is enabled for
    pub enabled_channels: Option<Vec<String>>,
    /// Channel-to-agent bindings
    pub bindings: Vec<AgentBindingFileConfig>,
}

/// Channel binding of an agent.
#[derive(Debug, Clone)]
pub struct AgentBindingFileConfig {
    /// Channel name
    pub channel: String,
    /// Optional channel-specific account ID
    pub account_id: Option<String>,
}

/// Ecosystem service URLs.
#[derive(Debug, Clone)]
pub struct EcosystemFileConfig {
    /// Knowledge garden URL
    pub trellis_url: Option<String>,
    /// Heartbeat service monitoring URL
    pub heartbeat_url: Option<String>,
    /// Content moderation URL
    pub say_less_url: Option<String>,
    /// Audit logging URL
    pub chronicle_url: Option<String>,
}

/// LLM-related configuration.
#[derive(Debug, Clone)]
pub struct LlmFileConfig {
    /// Model identifier
    pub model: Option<String>,
    /// Preferred provider ("anthropic", "openai", "openrouter")
    pub provider: Option<String>,
}

/// API keys for external services.
#[derive(Debug, Clone)]
pub struct ApiKeysFileConfig {
    pub openai: Option<String>,
    pub anthropic: Option<String>,
    pub openrouter: Option<String>,
    pub elevenlabs: Option<String>,
    pub deepgram: Option<String>,
    pub discord: Option<String>,
    pub slack: Option<String>,
    pub telegram: Option<String>,
}

/// Channel-specific configuration.
#[derive(Debug, Clone)]
pub struct ChannelsFileConfig {
    pub discord: Option<ChannelToggle>,
    pub slack: Option<ChannelToggle>,
    pub telegram: Option<ChannelToggle>,
    pub imessage: Option<IMessageFileConfig>,
    pub irc: IrcFileConfig,
}

/// Simple channel toggle (the token lives with the API keys).
#[derive(Debug, Clone)]
pub struct ChannelToggle {
    pub enabled: Option<bool>,
}

/// IRC channel configuration.
#[derive(Debug, Clone)]
pub struct IrcFileConfig {
    /// IRC server hostname
    pub server: Option<String>,
    /// IRC server port
    pub port: Option<u16>,
    /// Bot nickname
    pub nickname: Option<String>,
    /// Channels to join
    pub channels: Option<Vec<String>>,
    /// Use TLS
    pub use_tls: Option<bool>,
    /// Server password
    pub password: Option<String>,
}

/// iMessage-specific channel configuration.
#[derive(Debug, Clone)]
pub struct IMessageFileConfig {
    pub enabled: Option<bool>,
    pub cli_path: Option<String>,
    pub db_path: Option<String>,
    pub region: Option<String>,
    pub service: Option<String>,
}

/// Server/runtime configuration.
#[derive(Debug, Clone)]
pub struct ServerFileConfig {
    /// API server port
    pub port: Option<u16>,
    /// AI router URL
    pub synapse_url: Option<String>,
    /// Cloud mode toggle
    pub cloud_mode: Option<bool>,
}

/// Skills system configuration.
#[derive(Debug, Clone)]
pub struct SkillsFileConfig {
    /// Path to managed skills directory
    pub managed_dir: Option<String>,
    /// Max skills in prompt
    pub max_skills_in_prompt: Option<usize>,
    /// Max total chars from skills in prompt
    pub max_skills_prompt_chars: Option<usize>,
    /// Max bytes per individual skill file
    pub max_skill_file_bytes: Option<usize>,
    /// Additional skill directories to scan
    pub extra_dirs: Option<Vec<String>>,
    /// Personal agent skills directory
    pub personal_dir: Option<String>,
    /// Bundled skill allowlist (empty = all)
    pub allow_bundled: Option<Vec<String>>,
    /// Prefer Homebrew for install automation
    pub prefer_brew: Option<bool>,
    /// Node package manager preference ("npm", "pnpm", "yarn", "bun")
    pub node_manager: Option<String>,
    /// Max candidate directories to scan per root
    pub max_candidates_per_root: Option<usize>,
    /// Max skills to load per source directory
    pub max_skills_per_source: Option<usize>,
    /// Skill include patterns for agent-level filtering
    pub skill_include: Option<Vec<String>>,
    /// Skill exclude patterns for agent-level filtering
    pub skill_exclude: Option<Vec<String>>,
}

/// Container sandbox configuration as written in the file.
#[derive(Debug, Clone)]
pub struct SandboxFileConfig {
    /// Container engine: "docker" or "podman" (auto-detected if empty)
    pub engine: Option<String>,
    /// Container image to use
    pub image: Option<String>,
    /// Memory limit (e.g. "512m")
    pub memory_limit: Option<String>,
    /// CPU limit (e.g. "1")
    pub cpu_limit: Option<String>,
    /// Enable container networking
    pub network: Option<bool>,
    /// Timeout in seconds
    pub timeout_secs: Option<u64>,
}

/// Media processing configuration.
#[derive(Debug, Clone)]
pub struct MediaFileConfig {
    /// Maximum keyframes to extract from video
    pub max_video_frames: Option<u32>,
    /// Maximum image size in bytes
    pub max_image_size_bytes: Option<usize>,
    /// Vision model for image/video analysis
    pub vision_model: Option<String>,
}

/// The user's configuration directory, as `directories::BaseDirs::new()` finds it.
/// It depends on the environment, so nothing is claimed of it.
#[verifier::external_body]
fn user_config_dir() -> (r: Option<String>) {
    directories::BaseDirs::new().map(|d| d.config_dir().display().to_string())
}

/// Where the configuration file lives under a configuration directory.
pub open spec fn config_file_in(base: Seq<char>) -> Seq<char> {
    path_joined(path_joined(path_joined(base, "omni"@), "beacon"@), "config.toml"@)
}

/// The configuration file under a configuration directory: `omni/beacon/config.toml`.
pub fn config_file_under(base: &str) -> (r: String)
    ensures
        r@ == config_file_in(base@),
{
    let a = join_path(base, "omni");
    let b = join_path(a.as_str(), "beacon");
    join_path(b.as_str(), "config.toml")
}

/// The configuration file path, when the configuration directory can be determined.
pub fn config_file_path() -> (r: Option<String>)
    ensures
        r matches Some(p) ==> exists|base: Seq<char>| p@ == #[trigger] config_file_in(base),
{
    match user_config_dir() {
        Some(base) => {
            let p = config_file_under(base.as_str());
            Some(p)
        },
        None => None,
    }
}

/// The configuration file path, or an error when the directory cannot be determined.
pub fn config_file_or_bail() -> (r: Result<String, BeaconError>)
    ensures
        r matches Ok(p) ==> exists|base: Seq<char>| p@ == #[trigger] config_file_in(base),
        r matches Err(e) ==> e is Config && e.spec_message() == "could not determine config directory"@,
{
    match config_file_path() {
        Some(p) => Ok(p),
        None => Err(BeaconError::Config(String::from_str("could not determine config directory"))),
    }
}

} // verus!
