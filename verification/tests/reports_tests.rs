use git_x::base::git::{AsyncGitOperations, GitOperations, ProcessOutput};
use git_x::color_graph::{format_color_git_error, get_color_git_log_args, run_color_graph};
use git_x::common::{BranchStatus, RepoInfo};
use git_x::summary::{format_commit_summary, parse_commit_line, parse_git_log_output, run_summary};
use git_x::test_utils::{sync_command, sync_command_direct, TestCommandResult};
use git_x::what;
use git_x::GitXError;

fn output(success: bool, stdout: &str, stderr: &str) -> ProcessOutput {
    ProcessOutput { success, stdout: stdout.to_string(), stderr: stderr.to_string() }
}

fn today() -> (i32, u32, u32, String) {
    (2025, 7, 31, "2025-07-31".to_string())
}

#[test]
fn commit_line_has_emoji_author_and_time() {
    let (day, line) = parse_commit_line("abc123|2025-07-30|Fix parser bug|Alice|2 hours ago", &today()).unwrap();
    assert_eq!((day.0, day.1, day.2, day.3.as_str()), (2025, 7, 30, "2025-07-30"));
    assert_eq!(line, " - 🐛 Fix parser bug (by Alice, 2 hours ago)");
    assert!(parse_commit_line("not a commit", &today()).is_none());
    let (fallback, _) = parse_commit_line("abc|yesterday|Add docs|Bob|1 day ago", &today()).unwrap();
    assert_eq!(fallback.3, "2025-07-31");
}

#[test]
fn log_is_grouped_by_day_newest_first() {
    let log = "a|2025-07-29|Add feature|Bob|2 days ago\nb|2025-07-30|Fix bug|Alice|1 day ago\nc|2025-07-29|Refactor core|Carol|2 days ago\n";
    let groups = parse_git_log_output(log, &today());
    assert_eq!(groups.len(), 2);
    assert_eq!(groups[0].0 .3, "2025-07-29");
    assert_eq!(groups[0].1.len(), 2);
    assert_eq!(groups[1].0 .3, "2025-07-30");
    let text = format_commit_summary("since ", &groups);
    assert_eq!(
        text,
        "since 2025-07-30\n - 🐛 Fix bug (by Alice, 1 day ago)\n\n2025-07-29\n - ✨ Add feature (by Bob, 2 days ago)\n - 🛠 Refactor core (by Carol, 2 days ago)\n\n"
    );
}

#[test]
fn summary_without_commits_and_on_failure() {
    assert_eq!(run_summary("2 days ago", output(true, "  \n", ""), &today()).unwrap(), "2 days ago\n");
    let r = run_summary("x", output(false, "", " bad date \n"), &today());
    assert!(matches!(r, Err(GitXError::GitCommand(m)) if m == "git log failed: bad date"));
}

#[test]
fn what_reports_counts_and_changes() {
    let r = what::run(
        None,
        Ok("feature".to_string()),
        output(true, "3\t5\n", ""),
        output(true, "A\tsrc/new.rs\nM\tsrc/lib.rs\nD\told.txt\nR100\ta\tb\n", ""),
    )
    .unwrap();
    assert_eq!(
        r,
        "Branch: feature vs main\n+ 5 commits ahead\n- 3 commits behind\nChanges:\n - + src/new.rs\n - ~ src/lib.rs\n - - old.txt\n - R100 a"
    );
    assert_eq!(what::git_status_to_symbol("X"), "X");
    assert!(matches!(
        what::run(Some("dev".to_string()), Ok("f".to_string()), output(false, "", ""), output(true, "", "")),
        Err(GitXError::GitCommand(m)) if m == "Failed to compare branches"
    ));
}

#[test]
fn branch_differences_pick_the_first_found() {
    assert_eq!(AsyncGitOperations::branch_difference_bases("master"), vec!["main", "develop"]);
    let d = AsyncGitOperations::branch_difference("main", true, Ok("1 2".to_string()));
    assert_eq!(d.as_deref(), Some("📊 vs main: 2 ahead, 1 behind"));
    let same = AsyncGitOperations::branch_difference("main", true, Ok("0\t0".to_string()));
    assert_eq!(same.as_deref(), Some("✅ vs main: Up to date"));
    assert!(AsyncGitOperations::branch_difference("main", false, Ok("1 2".to_string())).is_none());
    assert!(AsyncGitOperations::branch_difference("main", true, Ok("1 2 3".to_string())).is_none());
    let found = AsyncGitOperations::get_branch_differences(vec![None, same.clone(), d]).unwrap();
    assert_eq!(found, vec!["✅ vs main: Up to date"]);
    assert!(AsyncGitOperations::get_branch_differences(vec![None]).unwrap().is_empty());
}

#[test]
fn pull_request_status_lines() {
    let none = AsyncGitOperations::check_github_pr_status(Some(output(true, "{\"currentBranch\":null}", ""))).unwrap();
    assert_eq!(none.as_deref(), Some("❌ No open PR for current branch"));
    let open = AsyncGitOperations::check_github_pr_status(Some(output(true, "{\"currentBranch\":{}}", ""))).unwrap();
    assert_eq!(open.as_deref(), Some("✅ Open PR found for current branch"));
    assert!(AsyncGitOperations::check_github_pr_status(None).unwrap().is_none());
}

#[test]
fn repository_facts() {
    assert_eq!(RepoInfo::name(Ok("/home/me/git-x".to_string())).unwrap(), "git-x");
    let status = RepoInfo::branch_status(Ok(("main".to_string(), None, 0, 0))).unwrap();
    assert_eq!(status.format_tracking(), "(no upstream)");
    let with_upstream = BranchStatus { current: "dev".to_string(), upstream: Some("origin/dev".to_string()), ahead: 1, behind: 0 };
    assert_eq!(with_upstream.format_tracking(), "origin/dev");
    assert_eq!(GitOperations::current_branch(output(true, " main\n", "")).unwrap(), "main");
}

#[test]
fn color_graph_pieces() {
    assert_eq!(get_color_git_log_args()[5], "--color=always");
    assert_eq!(format_color_git_error("boom"), "❌ git log failed:\nboom");
    assert_eq!(run_color_graph(output(true, "* a\n", "")).unwrap(), "* a\n");
    assert!(matches!(run_color_graph(output(false, "", " no repo \n")), Err(GitXError::GitCommand(m)) if m == "git log failed: no repo"));
}

#[test]
fn test_command_results() {
    assert!(TestCommandResult::success("ok".to_string()).is_success());
    assert!(TestCommandResult::failure("no".to_string(), 2).is_failure());
    assert_eq!(sync_command_direct(false, false, true).stderr, "❌ Git command failed");
    assert_eq!(sync_command_direct(false, true, true).stdout, "✅ Already up to date");
    assert_eq!(sync_command_direct(true, true, false).exit_code, 1);
    assert!(sync_command(true).merge);
}
