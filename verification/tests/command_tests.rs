use git_x::command::{ActionCommand, Command, QueryCommand, SimpleCommand};
use git_x::Result;

struct MockActionCommand;

impl Command for MockActionCommand {
    type Input = String;
    type Output = ();

    fn execute(&self, input: String) -> Result<()> {
        println!("Mock action: {input}");
        Ok(())
    }

    fn name(&self) -> &'static str {
        "mock-action"
    }

    fn description(&self) -> &'static str {
        "A mock action command for testing"
    }
}

struct MockQueryCommand;

impl Command for MockQueryCommand {
    type Input = ();
    type Output = String;

    fn execute(&self, _input: ()) -> Result<String> {
        Ok("Mock query result".to_string())
    }

    fn name(&self) -> &'static str {
        "mock-query"
    }

    fn description(&self) -> &'static str {
        "A mock query command for testing"
    }
}

#[test]
fn test_action_command_trait() {
    let cmd = MockActionCommand;
    assert_eq!(cmd.name(), "mock-action");
    assert_eq!(cmd.description(), "A mock action command for testing");
    assert!(cmd.requires_git_repo());
    assert!(!cmd.is_destructive());

    let result = cmd.run("test input".to_string());
    assert!(result.is_ok());
}

#[test]
fn test_query_command_trait() {
    let cmd = MockQueryCommand;
    assert_eq!(cmd.name(), "mock-query");
    assert_eq!(cmd.description(), "A mock query command for testing");

    let result = cmd.query(());
    assert!(result.is_ok());
    assert_eq!(result.unwrap(), "Mock query result");
}

#[test]
fn test_simple_command_trait() {
    let cmd = MockQueryCommand;
    let result = cmd.run_simple();
    assert!(result.is_ok());
    assert_eq!(result.unwrap(), "Mock query result");
}
