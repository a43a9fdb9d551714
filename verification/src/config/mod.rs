//! Configuration: the file layout, editing it by dotted key, how changes to it are
//! classified, and which file events ask for a reload.

pub mod edit;
pub mod file;
pub mod reload;
pub mod watch;
