//! Command-line arguments as values. Parsing them is the caller's part; the
//! CLI contains no Git or harness behaviour.

use vstd::prelude::*;

verus! {

/// Stage, draft, commit, and push with your preferred writing style.
#[derive(Debug)]
pub struct Cli {
    /// Select a named generation profile.
    pub profile: Option<String>,
    /// Override the selected profile's model for this invocation.
    pub model: Option<String>,
    /// Select the commit writing style.
    pub style: Option<StyleArg>,
    /// Read configuration from this file.
    pub config: Option<String>,
    /// Replace the configured Markdown instructions file for this invocation.
    pub instructions_file: Option<String>,
    /// Add one-off writing guidance for generated messages.
    pub instructions: Option<String>,
    /// Skip the confirmation prompt.
    pub yes: bool,
    /// Commit locally without running `git push`.
    pub no_push: bool,
    pub command: Option<Command>,
    /// Manual commit message words. With no words Yeet generates a draft.
    pub message: Vec<String>,
}

#[derive(Debug)]
pub enum Command {
    /// Manage user configuration and Markdown writing instructions.
    Config(ConfigCommand),
}

#[derive(Debug)]
pub struct ConfigCommand {
    pub action: ConfigAction,
}

#[derive(Clone, Copy, Debug, PartialEq, Eq)]
pub enum ConfigAction {
    /// Create starter config.toml and instructions.md without overwriting files.
    Init,
    /// Print resolved configuration and source paths.
    Show,
}

#[derive(Clone, Copy, Debug, PartialEq, Eq)]
pub enum StyleArg {
    Repository,
    Conventional,
    Custom,
}

} // verus!
