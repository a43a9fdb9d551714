//! Harness adapter configuration.

use vstd::prelude::*;

verus! {

/// Session persistence mode for harness invocations.
#[derive(Debug, Clone, Copy, PartialEq, Eq, Structural)]
pub enum SessionMode {
    /// Resume previous session when possible (default)
    Resume,
    /// Fresh session each invocation
    Fresh,
}

impl Default for SessionMode {
    fn default() -> (m: Self)
        ensures
            m == SessionMode::Resume,
    {
        SessionMode::Resume
    }
}

/// Configuration for a harness-backed agent.
#[derive(Debug, Clone)]
pub struct HarnessConfig {
    /// Adapter identifier (e.g. `claude_cli`, `codex_cli`)
    pub adapter: String,
    /// Session persistence mode
    pub session_mode: SessionMode,
    /// Environment variables to inject into the harness process (name, value)
    pub env: Vec<(String, String)>,
    /// MCP servers to expose to the harness
    pub mcp_servers: Vec<String>,
    /// Whether to skip permission prompts
    pub skip_permissions: bool,
}

/// How an agent executes: built-in Synapse loop or external CLI harness.
#[derive(Debug, Clone)]
pub enum Execution {
    /// Run via the built-in agentic loop
    Builtin,
    /// Delegate to an external CLI harness
    Harness(HarnessConfig),
}

impl Default for Execution {
    fn default() -> (e: Self)
        ensures
            e is Builtin,
    {
        Execution::Builtin
    }
}

} // verus!
