//! Built-in plugins, statically linked into the host.

pub mod goals;
pub mod projects_tasks;
