//! Beacon gateway core: routing, agent selection, channel message shaping,
//! scheduling and media helpers, with their contracts proved by Verus.

pub mod error;
pub mod text;
pub mod pattern;
pub mod routing;
pub mod security;
pub mod agent;
pub mod links;
pub mod hooks;
pub mod media;
pub mod billing;
pub mod channels;
pub mod cron;
pub mod tools;
pub mod skills;
pub mod doctor;
pub mod config;
pub mod attachments;
pub mod backup;
pub mod usage;
pub mod plugins;
