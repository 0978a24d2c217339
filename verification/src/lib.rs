//! Plans the external operations that bootstrap a project from a stack template.
//!
//! A resolved [`config::ScaffoldConfig`] is turned into an ordered list of steps
//! (directories, manifest initialisation, dependency installation, script
//! injection, post-install selection) that a driver performs one at a time,
//! reporting each outcome back to the [`pipeline::Pipeline`].

pub mod text;
pub mod invocation;
pub mod module;
pub mod ecosystem;
pub mod scripts;
pub mod config;
pub mod pipeline;
pub mod builder;

pub use builder::ProjectBuilder;
pub use config::{ScaffoldConfig, StackTemplate, Tool};
pub use ecosystem::Ecosystem;
pub use invocation::Invocation;
pub use module::document::Node;
pub use module::template::{Dependencies, ParseError, TomlTemplate};
pub use module::{Module, NpmDeps, ThenCommands};
pub use pipeline::{BuildError, Failure, Outcome, Pipeline, Status, Step, TemplatePhase};
pub use scripts::ScriptMap;
