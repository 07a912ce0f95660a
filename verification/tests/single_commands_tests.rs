use git_x::base::git::ProcessOutput;
use git_x::fixup::{check_fixup, finish_fixup, fixup_args, rebase_args};
use git_x::rename_branch::{finish_rename, run_rename_branch, RenameStep};
use git_x::{graph, health, info, new_branch, since, undo, GitXError};

fn output(success: bool, stdout: &str, stderr: &str) -> ProcessOutput {
    ProcessOutput { success, stdout: stdout.to_string(), stderr: stderr.to_string() }
}

fn strip_ansi(text: &str) -> String {
    let mut result = String::new();
    let mut chars = text.chars();
    while let Some(ch) = chars.next() {
        if ch == '\x1b' {
            if chars.next() == Some('[') {
                for next in chars.by_ref() {
                    if next.is_ascii_alphabetic() {
                        break;
                    }
                }
            }
        } else {
            result.push(ch);
        }
    }
    result
}

#[test]
fn health_report_lists_each_check() {
    let r = health::run(
        true,
        output(true, "", ""),
        output(true, "a.txt\nb.txt\n", ""),
        output(true, "main 2 days ago\nold 3 months ago\nancient 2 years ago\n", ""),
        output(true, "12M\t.git\n", ""),
        output(true, "src/lib.rs\n\n", ""),
    )
    .unwrap();
    assert_eq!(
        strip_ansi(&r),
        "Repository Health Check\n=========================\n\n✓ Working directory is clean\n! 2 untracked files found\n! 2 potentially stale branches found\n✓ Repository size: 12M (healthy)\n! 1 files staged for commit\n\nHealth check complete!"
    );
}

#[test]
fn health_outside_a_repository_and_failures() {
    let none = || output(true, "", "");
    let r = health::run(false, none(), none(), none(), none(), none()).unwrap();
    assert!(strip_ansi(&r).ends_with("✗ Not in a Git repository"));
    let e = health::run(true, none(), output(false, "", ""), none(), none(), none());
    assert!(matches!(e, Err(GitXError::GitCommand(m)) if m == "Failed to get untracked files"));
}

#[test]
fn health_size_classes() {
    let line = |s: &str| strip_ansi(&health::check_repo_size(output(true, s, "")).unwrap());
    assert_eq!(line("800K\t.git"), "✓ Repository size: 800K (healthy)");
    assert_eq!(line("64M\t.git"), "! Repository size: 64M (moderate)");
    assert_eq!(line("2G\t.git"), "✗ Repository size: 2G (large - consider cleanup)");
    assert_eq!(line(""), "✗ Repository size: unknown (large - consider cleanup)");
}

#[test]
fn graph_undo_and_since() {
    assert_eq!(graph::graph_args(), vec!["log", "--oneline", "--graph", "--decorate", "--all"]);
    assert_eq!(graph::run(output(true, "* a\n", "")).unwrap(), "* a");
    assert_eq!(undo::undo_args(), vec!["reset", "--soft", "HEAD~1"]);
    assert_eq!(
        strip_ansi(&undo::run(true).unwrap()),
        "✅ Last commit undone (soft reset). Changes kept in working directory."
    );
    assert!(matches!(undo::run(false), Err(GitXError::GitCommand(m)) if m == "Git command failed: git reset --soft HEAD~1"));
    assert_eq!(since::since_args("v1"), vec!["log", "v1..HEAD", "--pretty=format:- %h %s"]);
    assert_eq!(since::run("v1", Ok("  ".to_string())).unwrap(), "✅ No new commits since v1");
    assert_eq!(since::run("v1", Ok("- a1 Fix".to_string())).unwrap(), "🔍 Commits since v1:\n- a1 Fix");
}

#[test]
fn info_shows_values_in_bold() {
    let r = info::run_info(
        Ok("/repo".to_string()),
        Ok(("main".to_string(), None, 2, 0)),
        Ok("Fix bug (2 hours ago)".to_string()),
    )
    .unwrap();
    assert_eq!(
        strip_ansi(&r),
        "Repo: /repo\nBranch: main\nTracking: (no upstream)\nAhead: 2 Behind: 0\nLast Commit: \"Fix bug (2 hours ago)\""
    );
    assert!(info::run_info(Err(GitXError::GitCommand("x".to_string())), Ok(("m".to_string(), None, 0, 0)), Ok(String::new())).is_err());
}

#[test]
fn new_branch_checks_and_outcome() {
    assert!(matches!(new_branch::run("bad name", None, false, false, false, Ok("main".to_string())), Err(GitXError::Parse(_))));
    assert!(matches!(
        new_branch::run("feature", None, true, false, false, Ok("main".to_string())),
        Err(GitXError::GitCommand(m)) if m == "Branch 'feature' already exists"
    ));
    assert!(matches!(
        new_branch::run("feature", Some("nope"), false, false, false, Ok("main".to_string())),
        Err(GitXError::GitCommand(m)) if m == "Base branch or ref 'nope' does not exist"
    ));
    assert_eq!(new_branch::run("feature", None, false, false, false, Ok("main".to_string())).unwrap(), "main");
    assert_eq!(new_branch::run("feature", Some("v1.0"), false, false, true, Ok("main".to_string())).unwrap(), "v1.0");
    assert_eq!(new_branch::create_args("feature", "main"), vec!["branch", "feature", "main"]);
    assert_eq!(new_branch::finish("feature", output(true, "", ""), output(true, "", "")).unwrap(), "feature\nfeature");
    assert!(matches!(
        new_branch::finish("feature", output(true, "", ""), output(false, "", " no \n")),
        Err(GitXError::GitCommand(m)) if m == "Failed to switch to new branch: no"
    ));
}

#[test]
fn rename_branch_steps_and_report() {
    match run_rename_branch("main", Ok("main".to_string())).unwrap() {
        RenameStep::AlreadyNamed(n) => assert_eq!(n, "main"),
        _ => panic!("already named"),
    }
    match run_rename_branch("new", Ok("old".to_string())).unwrap() {
        RenameStep::Rename { current, rename, push, delete_remote } => {
            assert_eq!(current, "old");
            assert_eq!(rename, vec!["branch", "-m", "new"]);
            assert_eq!(push, vec!["push", "origin", "new"]);
            assert_eq!(delete_remote, vec!["push", "origin", "--delete", "old"]);
        }
        _ => panic!("expected a rename"),
    }
    let (out, err) = finish_rename("old", Ok(()), Ok(()), false).unwrap();
    assert_eq!(out, vec!["Branch renamed successfully."]);
    assert_eq!(err, vec!["Warning: Failed to delete old branch 'old' from origin."]);
    let failed = finish_rename("old", Err(GitXError::GitCommand("boom".to_string())), Ok(()), true);
    assert!(matches!(failed, Err(GitXError::GitCommand(m)) if m == "Failed to rename local branch: Git command failed: boom"));
}

#[test]
fn fixup_checks_in_order() {
    let ok = || output(true, "abc1234\n", "");
    assert!(matches!(check_fixup("xyz", ok(), false, true, ok()), Err(GitXError::Parse(_))));
    assert!(matches!(
        check_fixup("abc1234", output(false, "", ""), false, true, ok()),
        Err(GitXError::GitCommand(m)) if m == "Git command failed: Commit hash does not exist"
    ));
    assert!(matches!(
        check_fixup("abc1234", ok(), true, false, ok()),
        Err(GitXError::GitCommand(m)) if m.contains("You have unstaged changes")
    ));
    assert!(matches!(
        check_fixup("abc1234", ok(), true, true, ok()),
        Err(GitXError::GitCommand(m)) if m == "No staged changes found. Please stage your changes first with 'git add'"
    ));
    assert_eq!(check_fixup("abc1234", ok(), false, true, ok()).unwrap(), "abc1234");
    assert_eq!(fixup_args("abc1234"), vec!["commit", "--fixup=abc1234"]);
    assert_eq!(rebase_args(" def567\n"), vec!["rebase", "-i", "--autosquash", "def567"]);
    let (out, err, r) = finish_fixup("abc1234", "abc1234", true, true, false, false);
    assert_eq!(out, vec!["abc1234", "abc1234", "🔄 Starting interactive rebase with autosquash..."]);
    assert_eq!(err, vec!["Git command failed: Cannot rebase - commit has no parent", "abc1234"]);
    assert!(r.is_ok());
    let (out, _, r) = finish_fixup("abc1234", "abc", false, false, false, false);
    assert_eq!(out, vec!["abc"]);
    assert!(r.is_err());
}
