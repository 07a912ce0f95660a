use git_x::technical_debt::{
    analyze_churn_patterns, analyze_file_modification_frequency, estimate_days_from_relative_date,
    identify_binary_files, parse_large_commits, parse_long_lived_branches, BranchInfo, ChurnFile,
    LargeCommit,
};
use git_x::GitXError;

#[test]
fn test_parse_large_commits() {
    let sample_output = "abc123|Add new feature|John Doe|2025-01-15
5\t10\tsrc/main.rs
3\t2\tsrc/lib.rs
15\t0\tREADME.md

def456|Refactor code|Jane Smith|2025-01-14
1\t1\tsrc/utils.rs
2\t1\tsrc/config.rs";

    let commits = parse_large_commits(sample_output);
    assert!(commits.is_empty(), "Should not include commits with few files");
}

#[test]
fn test_analyze_file_modification_frequency() {
    let sample_output = "src/main.rs
src/lib.rs
src/main.rs
src/main.rs
README.md
src/main.rs
src/main.rs
src/main.rs";

    let frequencies = analyze_file_modification_frequency(sample_output);
    assert!(!frequencies.is_empty());
    assert_eq!(frequencies[0].0, "src/main.rs");
    assert_eq!(frequencies[0].1, 6);
}

#[test]
fn test_parse_long_lived_branches() {
    let sample_output = "main|2 hours ago|John Doe
feature/old-branch|3 months ago|Jane Smith
hotfix/urgent|2 days ago|Bob Wilson
feature/ancient|1 year ago|Alice Johnson";

    let branches = parse_long_lived_branches(sample_output);
    assert_eq!(branches.len(), 2);
    assert_eq!(branches[0].name, "feature/ancient");
    assert!(branches[0].days_old > 300);
}

#[test]
fn test_analyze_churn_patterns() {
    let sample_output = "50\t30\tsrc/main.rs
100\t80\tsrc/heavy_churn.rs
5\t2\tsrc/stable.rs
200\t150\tsrc/refactored.rs";

    let churn = analyze_churn_patterns(sample_output);
    assert!(!churn.is_empty());
    assert_eq!(churn[0].path, "src/refactored.rs");
    assert_eq!(churn[0].total_changes, 350);
}

#[test]
fn test_identify_binary_files() {
    let sample_output = "src/main.rs
assets/logo.png
README.md
docs/manual.pdf
src/lib.rs
media/video.mp4";

    let binaries = identify_binary_files(sample_output);
    assert_eq!(binaries.len(), 3);
    assert!(binaries.contains(&"assets/logo.png".to_string()));
    assert!(binaries.contains(&"docs/manual.pdf".to_string()));
    assert!(binaries.contains(&"media/video.mp4".to_string()));
}

#[test]
fn test_estimate_days_from_relative_date() {
    assert_eq!(estimate_days_from_relative_date("3 months ago"), 90);
    assert_eq!(estimate_days_from_relative_date("2 weeks ago"), 14);
    assert_eq!(estimate_days_from_relative_date("5 days ago"), 5);
    assert_eq!(estimate_days_from_relative_date("1 year ago"), 365);
    assert_eq!(estimate_days_from_relative_date("2 hours ago"), 0);
}

#[test]
fn technical_debt_test_run_no_git_repo() {
    let sample_churn = analyze_churn_patterns("100\t50\ttest.rs");
    assert!(!sample_churn.is_empty());
    assert_eq!(sample_churn[0].path, "test.rs");
    assert_eq!(sample_churn[0].total_changes, 150);
}

#[test]
fn technical_debt_test_gitx_error_integration() {
    let io_error = std::io::Error::new(std::io::ErrorKind::NotFound, "git not found");
    let gitx_error: GitXError = io_error.into();
    match gitx_error {
        GitXError::Io(_) => {}
        _ => panic!("Should convert to Io error"),
    }

    let git_error = GitXError::GitCommand("test error".to_string());
    assert_eq!(git_error.to_string(), "Git command failed: test error");
}

#[test]
fn test_branch_info_struct() {
    let branch = BranchInfo {
        name: "feature/test".to_string(),
        age: "2 months ago".to_string(),
        author: "Test Author".to_string(),
        days_old: 60,
    };

    assert_eq!(branch.name, "feature/test");
    assert_eq!(branch.days_old, 60);
}

#[test]
fn test_churn_file_struct() {
    let file = ChurnFile {
        path: "src/test.rs".to_string(),
        additions: 100,
        deletions: 50,
        total_changes: 150,
    };

    assert_eq!(file.path, "src/test.rs");
    assert_eq!(file.total_changes, 150);
}

#[test]
fn test_large_commit_struct() {
    let commit = LargeCommit {
        hash: "abc123".to_string(),
        message: "Large refactor".to_string(),
        files_changed: 25,
    };

    assert_eq!(commit.hash, "abc123");
    assert_eq!(commit.files_changed, 25);
}

#[test]
fn large_commits_are_counted_sorted_and_shortened() {
    let mut log = String::new();
    log.push_str("aaa|small|A|2025-01-01\n");
    for i in 0..3 {
        log.push_str(&format!("1\t1\tf{i}\n"));
    }
    log.push_str(&format!("bbb|{}|B|2025-01-02\n", "x".repeat(80)));
    for i in 0..21 {
        log.push_str(&format!("1\t1\tg{i}\n"));
    }
    log.push_str("ccc|bigger|C|2025-01-03\n");
    for i in 0..30 {
        log.push_str(&format!("1\t1\th{i}\n"));
    }
    let commits = parse_large_commits(&log);
    assert_eq!(commits.len(), 2);
    assert_eq!(commits[0].hash, "ccc");
    assert_eq!(commits[0].files_changed, 30);
    assert_eq!(commits[1].hash, "bbb");
    assert_eq!(commits[1].files_changed, 21);
    assert_eq!(commits[1].message.chars().count(), 60);
}

#[test]
fn hotspots_leave_out_dotfiles_and_rare_files() {
    let mut out = String::new();
    for _ in 0..7 {
        out.push_str(".hidden\n  b.rs  \n");
    }
    for _ in 0..9 {
        out.push_str("a.rs\n");
    }
    out.push_str("c.rs\n");
    let f = analyze_file_modification_frequency(&out);
    assert_eq!(f, vec![("a.rs".to_string(), 9), ("b.rs".to_string(), 7)]);
}

#[test]
fn churn_sums_per_file_and_skips_malformed_lines() {
    let out = "60\t0\ta.rs\n-\t-\tbin.png\n50\t1\ta.rs\n1 2\n300\t1\tb.rs\n";
    let churn = analyze_churn_patterns(out);
    assert_eq!(churn.len(), 2);
    assert_eq!(churn[0].path, "b.rs");
    assert_eq!(churn[0].total_changes, 301);
    assert_eq!(churn[1].path, "a.rs");
    assert_eq!(churn[1].additions, 110);
    assert_eq!(churn[1].deletions, 1);
}

#[test]
fn relative_dates_without_numbers_use_defaults() {
    assert_eq!(estimate_days_from_relative_date("months ago"), 90);
    assert_eq!(estimate_days_from_relative_date("a week ago"), 14);
    assert_eq!(estimate_days_from_relative_date("yesterday day"), 7);
    assert_eq!(estimate_days_from_relative_date("2 years, 3 months ago"), 365);
}
