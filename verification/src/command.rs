//! The command interface of the git-x subcommands: a command takes an input
//! and gives an output; action commands give nothing back, query commands
//! give text, simple commands take no input.
use vstd::prelude::*;
use crate::Result;

verus! {

/// Trait for all git-x commands: a unified interface for consistent error
/// handling and testing.
pub trait Command {
    /// The input type for this command (can be () for no input)
    type Input;

    /// The output type for this command
    type Output;

    /// What each command promises of the outcome `r` of executing it on
    /// `input`: nothing unless the command says more.
    open spec fn executes(&self, input: Self::Input, r: Result<Self::Output>) -> bool {
        true
    }

    /// Execute the command with the given input
    fn execute(&self, input: Self::Input) -> (r: Result<Self::Output>)
        ensures
            self.executes(input, r),
    ;

    /// Get the name of this command (for logging/debugging)
    fn name(&self) -> &'static str;

    /// Get a description of what this command does
    fn description(&self) -> &'static str;

    /// Whether this command requires a git repository to function
    fn requires_git_repo(&self) -> (r: bool)
        default_ensures
            r,
    {
        true
    }

    /// Whether this command performs destructive operations
    fn is_destructive(&self) -> (r: bool)
        default_ensures
            !r,
    {
        false
    }
}

/// Trait for commands that don't return data but perform actions
pub trait ActionCommand: Command<Output = ()> {
    /// Execute the command; its outcome is that of `execute`.
    fn run(&self, input: Self::Input) -> (r: Result<()>)
        ensures
            self.executes(input, r),
    {
        self.execute(input)
    }
}

/// Trait for commands that return formatted output
pub trait QueryCommand: Command<Output = String> {
    /// Execute the command and return formatted output: the outcome of
    /// `execute`.
    fn query(&self, input: Self::Input) -> (r: Result<String>)
        ensures
            self.executes(input, r),
    {
        self.execute(input)
    }
}

impl<T> ActionCommand for T where T: Command<Output = ()> {}

impl<T> QueryCommand for T where T: Command<Output = String> {}

/// Helper trait for commands with no input parameters
pub trait SimpleCommand: Command<Input = ()> {
    /// Execute the command on no input: the outcome of `execute(())`.
    fn run_simple(&self) -> (r: Result<Self::Output>)
        ensures
            self.executes((), r),
    {
        self.execute(())
    }
}

impl<T> SimpleCommand for T where T: Command<Input = ()> {}

} // verus!
