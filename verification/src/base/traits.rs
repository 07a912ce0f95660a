//! The traits that git-x commands implement.
use vstd::prelude::*;
use crate::Result;

verus! {

/// Trait for commands: their name and description. Running a command
/// (asking git and reporting) is done by the caller with the command's own
/// decision functions.
pub trait Command {
    /// Get the command name for help and error messages
    fn name(&self) -> &'static str;

    /// Get a brief description of what the command does
    fn description(&self) -> &'static str;
}

/// Trait for commands that support dry-run mode
pub trait DryRunnable: Command {
    /// Check if dry-run mode is enabled
    fn is_dry_run(&self) -> bool;
}

/// Trait for commands that perform destructive operations
pub trait Destructive: Command {
    /// Get a description of what will be destroyed/changed
    fn destruction_description(&self) -> String;

    /// Create a backup before the destructive operation: none by default.
    fn create_backup(&self) -> (r: Result<Option<String>>)
        default_ensures
            r matches Ok(None::<String>),
    {
        Ok(None)
    }
}

/// Trait for commands that work with git repositories
pub trait GitCommand: Command {}

/// Trait for commands that support interactive mode
pub trait Interactive: Command {}

/// Trait for formatting output
pub trait Formatter {
    /// Format output for display
    fn format(&self, content: &str) -> String;
}

/// Trait for validating inputs
pub trait Validator {
    /// Validate the input
    fn validate(&self, input: &str) -> Result<()>;

    /// Get validation rules for display to users
    fn validation_rules(&self) -> Vec<&'static str>;
}

/// Trait for git operations that can be optimized
pub trait Optimizable {
    /// Execute with optimization (batching, caching, etc.)
    fn execute_optimized(&self) -> Result<String>;
}

/// Trait for commands that support different output formats
pub trait MultiFormat: Command {
    /// Available output formats
    fn supported_formats(&self) -> Vec<&'static str>;
}

/// Trait for commands that can be configured
pub trait Configurable: Command + Sized {
    /// Configuration type for this command
    type Config;

    /// Apply configuration to the command
    fn with_config(self, config: Self::Config) -> Self;
}

} // verus!
