//! Tools the agent can call: the container sandbox and the cron tool set.

pub mod cron;
pub mod sandbox;
