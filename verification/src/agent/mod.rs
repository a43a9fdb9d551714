//! Agents: identifiers, the registry of configured agents, channel bindings and
//! the external-harness execution mode.

pub mod binding;
pub mod harness;
pub mod registry;
pub mod stream_json;
pub mod turn;

pub use binding::{AgentBinding, BindingRouter};
pub use harness::{Execution, HarnessConfig, SessionMode};
pub use registry::{AgentConfig, AgentId, AgentRegistry};
