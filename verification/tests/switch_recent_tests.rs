use git_x::base::git::ProcessOutput;
use git_x::switch_recent::{get_current_branch, get_recent_branches, switch_to_branch};
use git_x::GitXError;

fn output(success: bool, stdout: &str, stderr: &str) -> ProcessOutput {
    ProcessOutput {
        success,
        stdout: stdout.to_string(),
        stderr: stderr.to_string(),
    }
}

// What `git for-each-ref --sort=-committerdate` prints in a repository with
// a dozen branches, and what it prints outside a repository.
fn recent_listing() -> ProcessOutput {
    output(
        true,
        "main\nfeature/a\nfeature/b\nfix/c\nfix/d\nexp/e\nexp/f\nexp/g\nexp/h\nexp/i\nexp/j\nexp/k\n",
        "",
    )
}

fn not_a_repository() -> ProcessOutput {
    output(false, "", "fatal: not a git repository")
}

fn check_recent(result: git_x::Result<Vec<String>>) {
    match result {
        Ok(branches) => {
            assert!(branches.len() <= 10, "Should limit to 10 branches");
            for branch in branches {
                assert!(!branch.is_empty(), "Branch names should not be empty");
            }
        }
        Err(GitXError::GitCommand(_)) => {}
        Err(GitXError::Io(_)) => {}
        Err(_) => panic!("Unexpected error type"),
    }
}

#[test]
fn test_get_recent_branches_success() {
    check_recent(get_recent_branches(recent_listing(), Ok("main".to_string())));
    check_recent(get_recent_branches(not_a_repository(), Ok("main".to_string())));
}

#[test]
fn test_get_current_branch_success() {
    match get_current_branch(output(true, "main\n", "")) {
        Ok(_branch) => {}
        Err(GitXError::GitCommand(_)) => {}
        Err(GitXError::Io(_)) => {}
        Err(_) => panic!("Unexpected error type"),
    }
}

#[test]
fn test_switch_to_branch_invalid_branch() {
    let result = switch_to_branch("non-existent-branch-12345", false);
    assert!(result.is_err(), "Should fail for non-existent branch");

    if let Err(e) = result {
        match e {
            GitXError::GitCommand(msg) => {
                assert!(
                    msg.contains("Failed to switch to branch"),
                    "Error message should mention branch switching"
                );
            }
            GitXError::Io(_) => {}
            _ => panic!("Unexpected error type"),
        }
    }
}

#[test]
fn switch_recent_test_run_no_git_repo() {
    let result = get_recent_branches(not_a_repository(), Err(GitXError::GitCommand("no repo".to_string())));
    match result {
        Ok(branches) => {
            assert!(branches.len() <= 10, "Should limit to 10 branches");
            for branch in branches {
                assert!(!branch.is_empty(), "Branch names should not be empty");
            }
            println!("In git repo - skipping non-git test");
        }
        Err(GitXError::GitCommand(_)) => {
            println!("Not in git repo - git command failed as expected");
        }
        Err(GitXError::Io(_)) => {
            println!("Git binary not available - IO error as expected");
        }
        Err(_) => panic!("Unexpected error type"),
    }
}

#[test]
fn test_show_branch_picker_with_branches() {
    let branches = ["feature/test".to_string(), "main".to_string()];
    assert!(!branches.is_empty(), "Should have branches to pick from");
    assert_eq!(branches.len(), 2, "Should have exactly 2 branches");
    assert_eq!(
        branches[0], "feature/test",
        "First branch should be feature/test"
    );
    assert_eq!(branches[1], "main", "Second branch should be main");
}

#[test]
fn test_show_branch_picker_empty_branches() {
    let branches: Vec<String> = vec![];
    assert!(branches.is_empty(), "Should have no branches");
    assert_eq!(branches.len(), 0, "Should have exactly 0 branches");
}

#[test]
fn test_switch_to_branch_valid_args() {
    let result = switch_to_branch("main", false);
    match result {
        Ok(_) => {}
        Err(GitXError::GitCommand(msg)) => {
            assert!(
                msg.contains("Failed to switch to branch"),
                "Should mention switching failure"
            );
        }
        Err(GitXError::Io(_)) => {}
        Err(_) => panic!("Unexpected error type"),
    }
    assert!(switch_to_branch("main", true).is_ok());
}

#[test]
fn test_gitx_error_types() {
    let io_error = std::io::Error::new(std::io::ErrorKind::NotFound, "git not found");
    let gitx_error: GitXError = io_error.into();
    match gitx_error {
        GitXError::Io(_) => {}
        _ => panic!("Should convert to Io error"),
    }

    let git_error = GitXError::GitCommand("test error".to_string());
    assert_eq!(git_error.to_string(), "Git command failed: test error");
}

#[test]
fn test_run_function_complete_flow() {
    let branches_result = get_recent_branches(recent_listing(), Ok("main".to_string()));
    match branches_result {
        Ok(branches) => {
            assert!(branches.len() <= 10, "Should limit to 10 branches");
            for branch in &branches {
                assert!(!branch.is_empty(), "Branch names should not be empty");
            }
            if branches.is_empty() {
                println!("No recent branches found - this would trigger the empty branches error");
            } else {
                println!(
                    "Found {} recent branches - skipping interactive test to avoid hanging",
                    branches.len()
                );
            }
        }
        Err(_) => {
            println!("Failed to get recent branches - this would trigger the git error");
        }
    }
}

#[test]
fn recent_branches_leave_out_the_current_one_and_stop_at_ten() {
    let branches = get_recent_branches(recent_listing(), Ok("main".to_string())).unwrap();
    assert_eq!(
        branches,
        vec!["feature/a", "feature/b", "fix/c", "fix/d", "exp/e", "exp/f", "exp/g", "exp/h", "exp/i", "exp/j"]
    );
    let all = get_recent_branches(output(true, "  main \n\nfeature/a\n", ""), Ok("feature/a".to_string())).unwrap();
    assert_eq!(all, vec!["main"]);
}

#[test]
fn recent_branches_failure_names_stderr() {
    match get_recent_branches(not_a_repository(), Ok("main".to_string())) {
        Err(GitXError::GitCommand(m)) => {
            assert_eq!(m, "Failed to get recent branches: fatal: not a git repository")
        }
        _ => panic!("expected a git error"),
    }
}
