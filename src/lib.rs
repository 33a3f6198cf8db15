//! Bootstraps a front-end project: the scaffolding command of each template
//! kind, the dependency configuration, the ordered plan of install steps, and
//! the config patch that wires in the utility framework, each proved against
//! its contract. Running processes and touching files is left to the caller,
//! which performs the actions that these modules ask for.

pub mod command;
pub mod config;
pub mod patch_text;
pub mod patcher;
pub mod pipeline;
pub mod runner;
pub mod template;
