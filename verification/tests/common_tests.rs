use git_x::base::git::ProcessOutput;
use git_x::base::interactive::Interactive;
use git_x::base::output::{BufferedOutput, Format, TermColor};
use git_x::base::safety::Safety;
use git_x::base::validation::Validate;
use git_x::GitXError;

#[test]
fn test_validate_branch_name_valid() {
    assert!(Validate::branch_name("feature-branch").is_ok());
    assert!(Validate::branch_name("feature/branch").is_ok());
    assert!(Validate::branch_name("hotfix-123").is_ok());
}

#[test]
fn test_validate_branch_name_invalid() {
    assert!(Validate::branch_name("").is_err());
    assert!(Validate::branch_name("branch with spaces").is_err());
    assert!(Validate::branch_name("HEAD").is_err());
    assert!(Validate::branch_name("-invalid").is_err());
    assert!(Validate::branch_name("branch~invalid").is_err());
}

#[test]
fn test_buffered_output_new() {
    let buffer = BufferedOutput::new();
    assert!(buffer.is_empty());
    assert_eq!(buffer.len(), 0);
}

#[test]
fn test_buffered_output_add_line() {
    let mut buffer = BufferedOutput::new();
    buffer.add_line("Test line 1".to_string());
    buffer.add_line("Test line 2".to_string());

    assert_eq!(buffer.len(), 2);
    assert!(!buffer.is_empty());
    assert_eq!(buffer.content(), "Test line 1\nTest line 2");
}

#[test]
fn test_buffered_output_add_lines() {
    let mut buffer = BufferedOutput::new();
    let lines = vec![
        "Line 1".to_string(),
        "Line 2".to_string(),
        "Line 3".to_string(),
    ];
    buffer.add_lines(lines);

    assert_eq!(buffer.len(), 3);
    assert_eq!(buffer.content(), "Line 1\nLine 2\nLine 3");
}

#[test]
fn test_buffered_output_default() {
    let buffer = BufferedOutput::default();
    assert!(buffer.is_empty());
    assert_eq!(buffer.len(), 0);
}

#[test]
fn test_validate_commit_hash_valid() {
    assert!(Validate::commit_hash("abc123").is_ok());
    assert!(Validate::commit_hash("1234567").is_ok());
    assert!(Validate::commit_hash("abcdef1234567890abcdef1234567890abcdef12").is_ok());
}

#[test]
fn test_validate_commit_hash_invalid() {
    assert!(Validate::commit_hash("").is_err());
    assert!(Validate::commit_hash("123").is_err()); // too short
    assert!(Validate::commit_hash("z123456").is_err()); // invalid char
    assert!(Validate::commit_hash("123456789012345678901234567890123456789012345").is_err()); // too long
}

#[test]
fn test_validate_remote_name_valid() {
    assert!(Validate::remote_name("origin").is_ok());
    assert!(Validate::remote_name("upstream").is_ok());
    assert!(Validate::remote_name("my-remote").is_ok());
}

#[test]
fn test_validate_remote_name_invalid() {
    assert!(Validate::remote_name("").is_err());
    assert!(Validate::remote_name("origin/main").is_err()); // contains /
    assert!(Validate::remote_name("-invalid").is_err()); // starts with -
    assert!(Validate::remote_name("invalid..name").is_err()); // contains ..
}

#[test]
fn test_validate_file_path_valid() {
    assert!(Validate::file_path("src/main.rs").is_ok());
    assert!(Validate::file_path("file.txt").is_ok());
    assert!(Validate::file_path("dir/subdir/file.txt").is_ok());
}

#[test]
fn test_validate_file_path_invalid() {
    assert!(Validate::file_path("").is_err());
    assert!(Validate::file_path("../etc/passwd").is_err()); // contains ..
    assert!(Validate::file_path("/etc/passwd").is_err()); // absolute path
    assert!(Validate::file_path("file\0.txt").is_err()); // null byte
}

#[test]
fn test_validate_positive_number_valid() {
    assert!(Validate::positive_number(5, Some(10), "test").is_ok());
    assert!(Validate::positive_number(0, None, "test").is_ok());
    assert!(Validate::positive_number(100, None, "test").is_ok());
}

#[test]
fn test_validate_positive_number_invalid() {
    assert!(Validate::positive_number(-1, None, "test").is_err());
    assert!(Validate::positive_number(15, Some(10), "test").is_err());
}

#[test]
fn test_validate_safe_string_valid() {
    assert!(Validate::safe_string("normal-string", "test").is_ok());
    assert!(Validate::safe_string("feature_branch", "test").is_ok());
    assert!(Validate::safe_string("v1.2.3", "test").is_ok());
}

#[test]
fn test_validate_safe_string_invalid() {
    assert!(Validate::safe_string("", "test").is_err());
    assert!(Validate::safe_string("dangerous;command", "test").is_err());
    assert!(Validate::safe_string("rm -rf /", "test").is_err());
    assert!(Validate::safe_string("command`injection`", "test").is_err());
}

fn parse_message(r: git_x::Result<()>) -> String {
    match r {
        Err(GitXError::Parse(m)) => m,
        _ => panic!("expected a parse error"),
    }
}

#[test]
fn validation_error_messages_are_exact() {
    assert_eq!(parse_message(Validate::branch_name("")), "Branch name cannot be empty");
    assert_eq!(
        parse_message(Validate::branch_name("a b")),
        "Branch name 'a b' contains invalid characters"
    );
    assert_eq!(parse_message(Validate::branch_name("HEAD")), "Branch name 'HEAD' is reserved");
    assert_eq!(
        parse_message(Validate::commit_hash("abc")),
        "Invalid commit hash format: 'abc' (must be 4-40 characters)"
    );
    assert_eq!(
        parse_message(Validate::commit_hash("xyz1")),
        "Invalid commit hash format: 'xyz1' (must contain only hexadecimal characters)"
    );
    assert_eq!(
        parse_message(Validate::positive_number(-12, None, "count")),
        "count must be positive, got -12"
    );
    assert_eq!(
        parse_message(Validate::positive_number(15, Some(10), "count")),
        "count must be <= 10, got 15"
    );
    assert_eq!(
        parse_message(Validate::git_date_format(&"x".repeat(101))),
        "Date string too long: 101"
    );
    assert_eq!(
        parse_message(Validate::safe_string(&"y".repeat(1001), "field")),
        "field is too long: 1001 characters"
    );
}

#[test]
fn test_format_error() {
    let formatted = Format::error("Test error");
    assert!(formatted.contains("❌"));
    assert!(formatted.contains("Test error"));
}

#[test]
fn test_format_success() {
    let formatted = Format::success("Test success");
    assert!(formatted.contains("✅"));
    assert!(formatted.contains("Test success"));
}

#[test]
fn test_interactive_fuzzy_find() {
    let items = [
        "main",
        "feature/user-auth",
        "fix/bug-123",
        "hotfix/critical",
    ];

    let results = Interactive::fuzzy_find(&items, "main", None);
    assert!(!results.is_empty());
    assert_eq!(items[results[0].0], "main");

    let results = Interactive::fuzzy_find(&items, "fix", None);
    assert!(!results.is_empty());
    assert!(!results.is_empty());

    let results = Interactive::fuzzy_find(&items, "nonexistent", None);
    assert!(results.is_empty());

    let results = Interactive::fuzzy_find(&items, "f", Some(1));
    assert!(results.len() <= 1);
}

#[test]
fn fuzzy_find_ranks_best_first() {
    let items = ["main", "feature/user-auth", "fix/bug-123", "hotfix/critical"];
    let results = Interactive::fuzzy_find(&items, "fix", None);
    let found: Vec<&str> = results.iter().map(|(i, _)| items[*i]).collect();
    assert!(found.contains(&"fix/bug-123"));
    assert!(found.contains(&"hotfix/critical"));
    for w in results.windows(2) {
        assert!(w[0].1 >= w[1].1);
    }
}

#[test]
fn test_interactive_branch_picker_empty() {
    let branches: Vec<String> = vec![];
    let result = Interactive::branch_picker_items(&branches);
    assert!(result.is_err());
}

#[test]
fn test_safety_backup_branch_validation() {
    let result = Safety::create_backup_branch(Some("test"), "main", "20250101_120000");
    match result {
        Ok(backup_name) => {
            assert!(backup_name.starts_with("test/"));
            assert!(backup_name.contains("_"));
        }
        Err(GitXError::GitCommand(_)) => {}
        Err(GitXError::Io(_)) => {}
        Err(_) => panic!("Unexpected error type"),
    }
    assert_eq!(
        Safety::create_backup_branch(None, "main", "20250101_120000").unwrap(),
        "backup/main_20250101_120000"
    );
}

#[test]
fn test_safety_list_backup_branches() {
    let listing = ProcessOutput {
        success: true,
        stdout: "  backup/main_20250101_120000\n* backup/dev_20250102_080000\n".to_string(),
        stderr: String::new(),
    };
    let result = Safety::list_backup_branches(listing);
    match result {
        Ok(branches) => {
            for branch in branches {
                assert!(branch.starts_with("backup/") || !branch.trim().is_empty());
            }
        }
        Err(GitXError::GitCommand(_)) => {}
        Err(GitXError::Io(_)) => {}
        Err(_) => panic!("Unexpected error type"),
    }
}

#[test]
fn test_safety_cleanup_old_backups_dry_run() {
    let old = ["backup/main_20240101_120000", "backup/dev_20240102_080000"];
    let results: Vec<String> = old.iter().map(|b| Safety::cleanup_line(b, true, false)).collect();
    for result_msg in results {
        if result_msg.contains("[DRY RUN]") {
            assert!(result_msg.contains("Would delete:"));
        }
    }
    assert_eq!(Safety::cleanup_line("backup/x", false, true), "Deleted: backup/x");
}

fn strip_escapes(text: &str) -> String {
    let mut result = String::new();
    let mut chars = text.chars();
    while let Some(ch) = chars.next() {
        if ch == '\x1b' {
            if chars.next() == Some('[') {
                for next in chars.by_ref() {
                    if next.is_ascii_alphabetic() {
                        break;
                    }
                }
            }
        } else {
            result.push(ch);
        }
    }
    result
}

#[test]
fn styled_messages_keep_their_text() {
    assert_eq!(strip_escapes(&Format::colored("ok", TermColor::Green)), "ok");
    assert_eq!(strip_escapes(&Format::warning("careful")), "⚠️ careful");
    assert_eq!(strip_escapes(&Format::info("note")), "ℹ️ note");
}

#[test]
fn backup_age_from_commit_time() {
    let at = |ts: &str| ProcessOutput { success: true, stdout: ts.to_string(), stderr: String::new() };
    assert_eq!(Safety::is_branch_older_than("b", at("1000\n"), 2000, 0).unwrap(), true);
    assert_eq!(Safety::is_branch_older_than("b", at("3000"), 2000, 0).unwrap(), false);
    assert_eq!(Safety::is_branch_older_than("b", at("2000"), 2000, 5).unwrap(), true);
    assert!(matches!(Safety::is_branch_older_than("b", at("soon"), 2000, 0), Err(GitXError::Parse(_))));
    assert!(matches!(
        Safety::is_branch_older_than("b", at("99999999999999999"), 2000, 0),
        Err(GitXError::Parse(m)) if m == "Invalid date for branch 'b'"
    ));
}
