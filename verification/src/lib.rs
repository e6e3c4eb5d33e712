//! Sandboxed execution of untrusted code snippets: the language registry,
//! the isolation policy, the execution runner and the front-door rules.

pub mod commands;
pub mod config;
pub mod events;
pub mod hypervisor;
pub mod line_protocol;
pub mod parsers;
pub mod text;
