//! Host-process identity for an embedded scripting runtime: the entry
//! module's identity, disclosed only after a blind-read permission check when
//! it names a local file, and the parent process id, derived by one of two
//! platform strategies.

pub mod identity;
pub mod main_module;
pub mod parent_pid;
pub mod permissions;
pub mod snapshot;
