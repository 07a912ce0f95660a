use git_x::clean_branches::{finish_clean_branches, format_deletion_summary, report, run_clean_branches, CleanStep};
use git_x::command::Command;
use git_x::prune_branches::{
    finish_prune_branches, get_all_protected_branches, is_branch_protected, run_prune_branches, PruneBranchesCommand,
    PruneStep,
};
use git_x::GitXError;

fn names(v: &[&str]) -> Vec<String> {
    v.iter().map(|s| s.to_string()).collect()
}

#[test]
fn clean_dry_run_lists_unprotected_branches() {
    let merged = names(&["main", "feature/a", "develop", "fix/b", "master"]);
    match run_clean_branches(true, Err(GitXError::GitCommand("dirty".to_string())), Ok(merged)).unwrap() {
        CleanStep::Report(lines) => {
            assert_eq!(lines, vec!["🧪 (dry run) 2 branches would be deleted:", "feature/a", "fix/b"])
        }
        _ => panic!("a dry run only reports"),
    }
}

#[test]
fn clean_asks_before_deleting_and_reports_deleted_ones() {
    let merged = names(&["feature/a", "main", "fix/b"]);
    match run_clean_branches(false, Ok(()), Ok(merged)).unwrap() {
        CleanStep::Confirm { branches, details } => {
            assert_eq!(branches, vec!["feature/a", "fix/b"]);
            assert_eq!(details, "This will delete 2 merged branches: feature/a, fix/b");
            let lines = finish_clean_branches(&branches, &vec![true, false]);
            assert_eq!(lines, vec!["🧹 Deleted 1 merged branches:", "  feature/a"]);
        }
        _ => panic!("expected a confirmation"),
    }
}

#[test]
fn clean_with_nothing_to_delete_says_so() {
    match run_clean_branches(false, Ok(()), Ok(names(&["main", "develop"]))).unwrap() {
        CleanStep::Report(lines) => assert_eq!(lines, vec!["No merged branches to delete."]),
        _ => panic!("nothing to delete"),
    }
    assert_eq!(report(&vec![], true), vec!["No merged branches to delete."]);
}

#[test]
fn clean_refuses_a_dirty_working_directory() {
    let r = run_clean_branches(false, Err(GitXError::GitCommand("dirty".to_string())), Ok(names(&["a"])));
    assert!(matches!(r, Err(GitXError::GitCommand(m)) if m == "dirty"));
}

#[test]
fn deletion_summary_texts() {
    assert_eq!(format_deletion_summary(3, true), "🧪 (dry run) 3 branches would be deleted:");
    assert_eq!(format_deletion_summary(12, false), "🧹 Deleted 12 merged branches:");
}

#[test]
fn protected_branches_include_exceptions() {
    assert_eq!(get_all_protected_branches(None), vec!["main", "master", "develop"]);
    assert_eq!(
        get_all_protected_branches(Some(" release , ,hotfix")),
        vec!["main", "master", "develop", "release", "hotfix"]
    );
    let protected = get_all_protected_branches(Some("release"));
    assert!(is_branch_protected("release", "dev", &protected));
    assert!(is_branch_protected("dev", "dev", &protected));
    assert!(!is_branch_protected("feature", "dev", &protected));
}

#[test]
fn prune_spares_current_protected_and_exceptions() {
    let merged = names(&["main", "dev", "release", "feature/x", "fix/y"]);
    match run_prune_branches(Some("release"), true, Ok("dev".to_string()), Ok(merged)).unwrap() {
        PruneStep::Report(lines) => {
            assert_eq!(lines, vec!["🧪 (dry run) 2 branches would be deleted:", "feature/x", "fix/y"])
        }
        _ => panic!("a dry run only reports"),
    }
    match run_prune_branches(None, false, Ok("dev".to_string()), Ok(names(&["main", "dev"]))).unwrap() {
        PruneStep::Report(lines) => assert_eq!(lines, vec!["✅ No merged branches to prune."]),
        _ => panic!("nothing to prune"),
    }
}

#[test]
fn prune_names_what_could_not_be_read() {
    let r = run_prune_branches(None, false, Err(GitXError::GitCommand("boom".to_string())), Ok(vec![]));
    assert!(matches!(r, Err(GitXError::GitCommand(m)) if m == "Failed to get current branch: Git command failed: boom"));
}

#[test]
fn prune_reports_deleted_and_failed_separately() {
    let branches = names(&["a", "b", "c"]);
    let (ok, failed) = finish_prune_branches(&branches, &vec![true, false, true]);
    assert_eq!(ok, vec!["a", "c"]);
    assert_eq!(failed, vec!["b"]);
    let cmd = PruneBranchesCommand;
    assert_eq!(cmd.name(), "prune-branches");
    assert!(cmd.is_destructive());
}
