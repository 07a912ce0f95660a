use git_x::base::git::ProcessOutput;
use git_x::bisect::{
    ensure_bisecting, get_bisect_log, get_current_commit_info, get_remaining_steps, is_bisecting,
    mark_bad, mark_good, parse_bisect_result, reset_bisect, show_status, skip_commit, start_bisect,
    validate_commit_exists,
};
use git_x::{GitXError, Result};

fn output(success: bool, stdout: &str, stderr: &str) -> ProcessOutput {
    ProcessOutput {
        success,
        stdout: stdout.to_string(),
        stderr: stderr.to_string(),
    }
}

#[test]
fn test_parse_bisect_result() {
    let sample_output =
        "abc123def456 is the first bad commit\ncommit abc123def456\nAuthor: Test User";
    let result = parse_bisect_result(sample_output);
    assert!(result.contains("abc123def456"));
    assert!(result.contains("First bad commit"));
}

#[test]
fn test_parse_bisect_result_no_match() {
    let sample_output = "Some other git output\nNo bad commit found";
    let result = parse_bisect_result(sample_output);
    assert_eq!(result, "Bisect completed");
}

#[test]
fn bisect_test_gitx_error_integration() {
    let io_error = std::io::Error::new(std::io::ErrorKind::NotFound, "git not found");
    let gitx_error: GitXError = io_error.into();
    match gitx_error {
        GitXError::Io(_) => {}
        _ => panic!("Should convert to Io error"),
    }

    let git_error = GitXError::GitCommand("test error".to_string());
    assert_eq!(git_error.to_string(), "Git command failed: test error");
}

#[test]
fn test_get_current_commit_info_error_handling() {
    let test_result: Result<String> = Err(GitXError::GitCommand("test".to_string()));
    assert!(test_result.is_err());
}

#[test]
fn test_validate_commit_exists_logic() {
    let _validate_fn = validate_commit_exists;
}

#[test]
fn test_is_bisecting_logic() {
    let _bisect_fn = is_bisecting;
}

#[test]
fn test_ensure_bisecting_logic() {
    // Outside a bisect session git reports no bisect start file.
    let result = ensure_bisecting(is_bisecting(true, false));
    match result {
        Ok(_) => {}
        Err(GitXError::GitCommand(_)) => {}
        Err(GitXError::Io(_)) => {}
        Err(_) => panic!("Unexpected error type"),
    }
}

#[test]
fn test_get_remaining_steps_fallback() {
    let _steps_fn = get_remaining_steps;
}

#[test]
fn test_get_bisect_log_error_handling() {
    let _log_fn = get_bisect_log;
}

#[test]
fn test_bisect_workflow_functions_exist() {
    let _start_fn = start_bisect;
    let _good_fn = mark_good;
    let _bad_fn = mark_bad;
    let _skip_fn = skip_commit;
    let _reset_fn = reset_bisect;
    let _status_fn = show_status;
}

#[test]
fn bisect_outside_a_session_is_an_error() {
    match ensure_bisecting(Ok(false)) {
        Err(GitXError::GitCommand(m)) => {
            assert_eq!(m, "Not currently in bisect mode. Use 'git x bisect start <good> <bad>' first.")
        }
        _ => panic!("expected a git error"),
    }
    assert!(ensure_bisecting(Ok(true)).is_ok());
}

#[test]
fn bisect_missing_commit_is_named() {
    match validate_commit_exists("deadbeef", false) {
        Err(GitXError::GitCommand(m)) => assert!(m.contains("deadbeef")),
        _ => panic!("expected a git error"),
    }
    assert!(validate_commit_exists("deadbeef", true).is_ok());
}

#[test]
fn bisect_commit_info_and_log_come_from_stdout() {
    let info = get_current_commit_info(output(true, "abc1234 Fix the thing\n", "")).unwrap();
    assert_eq!(info, "abc1234 Fix the thing");
    assert!(get_current_commit_info(output(false, "", "bad")).is_err());
    assert!(get_bisect_log(output(false, "", "")).is_err());
}

#[test]
fn bisect_remaining_steps_are_printed() {
    assert_eq!(get_remaining_steps(true, 3).unwrap(), "3");
    assert_eq!(get_remaining_steps(false, 3).unwrap(), "unknown");
}

#[test]
fn bisect_start_refuses_a_running_session() {
    assert!(start_bisect("good1", "bad1", Ok(true), true, true).is_err());
    assert!(start_bisect("good1", "bad1", Ok(false), true, true).is_ok());
    assert!(start_bisect("good1", "bad1", Ok(false), false, true).is_err());
}
