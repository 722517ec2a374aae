//! The arguments of the tool's commands.
use vstd::prelude::*;

verus! {

/// Arguments for the init command.
#[derive(Debug, Clone)]
pub struct InitArgs {
    /// Workload name ("." for the current directory).
    pub name: String,
    /// Template to use.
    pub template: String,
    /// Skip git initialization.
    pub no_git: bool,
}

/// Arguments for the build command.
#[derive(Debug, Clone)]
pub struct BuildArgs {
    /// Build in release mode.
    pub release: bool,
    /// Additional features to enable.
    pub features: Vec<String>,
    /// Skip WASM optimization.
    pub no_optimize: bool,
    /// Path to the workload (default: current directory).
    pub path: Option<String>,
}

/// Arguments for the deploy command.
#[derive(Debug, Clone)]
pub struct DeployArgs {
    /// Environment to deploy to.
    pub env: String,
    /// Skip build step.
    pub no_build: bool,
    /// Deploy as canary.
    pub canary: bool,
    /// Canary percentage (0-100).
    pub canary_percentage: Option<u8>,
    /// Version tag.
    pub tag: Option<String>,
    /// Skip confirmation prompt.
    pub yes: bool,
    /// Dry run (don't actually deploy).
    pub dry_run: bool,
}

/// Arguments for the versions command.
#[derive(Debug, Clone)]
pub struct VersionsArgs {
    /// What to do with versions (listing when absent).
    pub command: Option<VersionsCommand>,
    /// Environment to list versions for.
    pub env: String,
    /// Show only the last N versions.
    pub limit: Option<usize>,
}

/// The versions subcommands.
#[derive(Debug, Clone)]
pub enum VersionsCommand {
    /// List all versions.
    List,
    /// Show details for a specific version.
    Show { version: String },
    /// Promote a version to production.
    Promote { version: String },
    /// Delete a version.
    Delete { version: String, yes: bool },
}

/// Arguments for the rollback command.
#[derive(Debug, Clone)]
pub struct RollbackArgs {
    /// Version to rollback to.
    pub to: Option<String>,
    /// Environment.
    pub env: String,
    /// Skip confirmation prompt.
    pub yes: bool,
    /// Dry run.
    pub dry_run: bool,
}

/// Arguments for the replay command.
#[derive(Debug, Clone)]
pub struct ReplayArgs {
    /// What to do with recordings.
    pub command: ReplayCommand,
}

/// The replay subcommands.
#[derive(Debug, Clone)]
pub enum ReplayCommand {
    /// Start recording requests.
    Record { name: Option<String>, max_requests: usize, duration: Option<u64> },
    /// Stop recording.
    Stop,
    /// List recordings.
    List,
    /// Play back a recording.
    Play { recording: String, target: Option<String>, diff: bool, concurrency: usize },
    /// Delete a recording.
    Delete { recording: String },
    /// Export a recording.
    Export { recording: String, output: String },
}

/// Arguments for the config command.
#[derive(Debug, Clone)]
pub struct ConfigArgs {
    /// What to do with the configuration.
    pub command: ConfigCommand,
}

/// The config subcommands.
#[derive(Debug, Clone)]
pub enum ConfigCommand {
    /// Show current configuration.
    Show,
    /// Get a config value.
    Get { key: String },
    /// Set a config value.
    SetValue { key: String, value: String },
    /// Initialize a new config file.
    Init { force: bool },
    /// Validate the config file.
    Validate,
}

} // verus!
