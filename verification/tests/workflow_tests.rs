use git_x::command::{ActionCommand, Command, QueryCommand, SimpleCommand};
use git_x::commands::commit::{BisectAction, BisectCommand};
use git_x::commands::completion::{
    completion_candidates, completion_directory, write_failure_prefix, CompletionInstallCommand,
    CompletionShell,
};
use git_x::commands::branch::BranchCommands;
use git_x::adapters::cli_handlers::{BranchCliHandler, RepositoryCliHandler};
use git_x::domain::branch_manager::RecentBranchesResult;
use git_x::base::git::ProcessOutput;
use git_x::base::interactive::{DialogAnswer, InteractiveBuilder};
use git_x::base::safety::{Safety, SafetyBuilder, SafetyEvent, SafetyNext, SafetyStep};
use git_x::color_graph::convert_output_to_string;
use git_x::commands::analysis::contributors_total_fits;
use git_x::commands::plan::Plan;
use git_x::contributors::ContributorStats;
use git_x::technical_debt::{branch_ages_fit_of, churn_fits_of, days_fit_of};
use git_x::common::GitCommand;
use git_x::summary::parse_commit_date;
use git_x::sync::{sync_finished, sync_header, sync_status, sync_step, SyncStatus};
use git_x::commands::repository::NewBranchCommand;
use git_x::{GitXError, Result};

struct EchoQuery;

impl Command for EchoQuery {
    type Input = String;
    type Output = String;

    fn execute(&self, input: String) -> Result<String> {
        if input.is_empty() {
            Err(GitXError::Parse("empty".to_string()))
        } else {
            Ok(format!("echo: {input}"))
        }
    }

    fn name(&self) -> &'static str {
        "echo"
    }

    fn description(&self) -> &'static str {
        "Echoes its input"
    }
}

struct Unit;

impl Command for Unit {
    type Input = ();
    type Output = ();

    fn execute(&self, _input: ()) -> Result<()> {
        Err(GitXError::GitCommand("refused".to_string()))
    }

    fn name(&self) -> &'static str {
        "unit"
    }

    fn description(&self) -> &'static str {
        "Always refuses"
    }
}

#[test]
fn query_and_run_give_what_execute_gives() {
    let q = EchoQuery;
    assert_eq!(q.query("hi".to_string()).unwrap(), "echo: hi");
    assert!(matches!(q.query(String::new()), Err(GitXError::Parse(m)) if m == "empty"));
    let u = Unit;
    assert!(matches!(u.run(()), Err(GitXError::GitCommand(m)) if m == "refused"));
    assert!(matches!(u.run_simple(), Err(GitXError::GitCommand(m)) if m == "refused"));
}

#[test]
fn bisect_start_accepts_symbolic_refs() {
    let cmd = BisectCommand::new(BisectAction::Start { bad: "HEAD".to_string(), good: "HEAD~10".to_string() });
    match cmd.execute_bisect_action(false, Ok(true), Ok(true), Ok(String::new())).unwrap() {
        Plan::Run { steps, then } => {
            assert_eq!(steps, vec![
                vec!["bisect".to_string(), "start".to_string()],
                vec!["bisect".to_string(), "bad".to_string(), "HEAD".to_string()],
                vec!["bisect".to_string(), "good".to_string(), "HEAD~10".to_string()],
            ]);
            assert_eq!(then, "🔍 Started bisect between HEAD (bad) and HEAD~10 (good)");
        }
        Plan::Report(_) => panic!("expected git steps"),
    }
}

#[test]
fn bisect_start_refuses_missing_commits() {
    let cmd = BisectCommand::new(BisectAction::Start { bad: "HEAD".to_string(), good: "nope".to_string() });
    assert!(matches!(
        cmd.execute_bisect_action(false, Ok(true), Ok(false), Ok(String::new())),
        Err(GitXError::GitCommand(m)) if m == "Good commit 'nope' does not exist"
    ));
}

#[test]
fn new_branch_validates_the_name_first() {
    assert!(matches!(
        NewBranchCommand::new(String::new(), None).plan(false, false, false, Ok("main".to_string())),
        Err(GitXError::GitCommand(m)) if m == "Branch name cannot be empty"
    ));
    for bad in ["bad name", "-invalid", "HEAD"] {
        let cmd = NewBranchCommand::new(bad.to_string(), None);
        assert!(matches!(cmd.plan(false, false, false, Ok("main".to_string())), Err(GitXError::Parse(_))), "{bad}");
    }
    let cmd = NewBranchCommand::new("feature".to_string(), None);
    match cmd.plan(false, false, false, Ok("main".to_string())).unwrap() {
        Plan::Run { steps, .. } => assert_eq!(steps.len(), 2),
        Plan::Report(_) => panic!("expected git steps"),
    }
}

#[test]
fn completion_directory_for_each_shell() {
    let home = Some("/home/u".to_string());
    assert!(matches!(
        completion_directory(CompletionShell::Bash, None, vec![], vec![]),
        Err(GitXError::Other(m)) if m == "HOME environment variable not set"
    ));
    let p = completion_directory(CompletionShell::Bash, home.clone(), vec![true, true], vec![true, false]).unwrap();
    assert_eq!(p.dir, "/home/u/.local/share/bash-completion/completions");
    assert!(!p.create);
    let p = completion_directory(CompletionShell::Bash, home.clone(), vec![false, true], vec![false, false]).unwrap();
    assert_eq!(p.dir, "/home/u/.bash_completion.d");
    assert!(p.create);
    assert_eq!(p.create_error_prefix, "Failed to create directory /home/u/.bash_completion.d: ");
    let p = completion_directory(CompletionShell::Zsh, home.clone(), vec![false, false], vec![false, false]).unwrap();
    assert_eq!(p.dir, "/home/u/.local/share/zsh/site-functions");
    assert!(p.create);
    assert_eq!(p.create_error_prefix, "Failed to create completion directory: ");
    let p = completion_directory(CompletionShell::Fish, home.clone(), vec![], vec![]).unwrap();
    assert_eq!(p.dir, "/home/u/.config/fish/completions");
    assert!(p.create);
    assert!(matches!(
        completion_directory(CompletionShell::PowerShell, home.clone(), vec![], vec![]),
        Err(GitXError::Other(m)) if m.starts_with("PowerShell completion installation not supported.")
    ));
    assert!(matches!(
        completion_directory(CompletionShell::Elvish, home, vec![], vec![]),
        Err(GitXError::Other(m)) if m.ends_with("add to rc.elv manually.")
    ));
    assert_eq!(
        completion_candidates(CompletionShell::Zsh, "/h"),
        vec!["/h/.local/share/zsh/site-functions".to_string(), "/h/.zsh/completions".to_string()]
    );
    assert!(completion_candidates(CompletionShell::Fish, "/h").is_empty());
}

#[test]
fn completion_file_names_and_reports() {
    assert_eq!(CompletionInstallCommand::new(CompletionShell::Bash).get_completion_filename(), "git-x");
    assert_eq!(CompletionInstallCommand::new(CompletionShell::Zsh).get_completion_filename(), "_git-x");
    assert_eq!(CompletionInstallCommand::new(CompletionShell::Fish).get_completion_filename(), "git-x.fish");
    let fish = CompletionInstallCommand::new(CompletionShell::Fish);
    assert_eq!(
        fish.install_report("/h/.config/fish/completions/git-x.fish"),
        "✅ Shell completion installed successfully!\n\nCompletion installed to: /h/.config/fish/completions/git-x.fish\n\nFish completions are automatically loaded from ~/.config/fish/completions/\nRestart your shell or run: fish -c 'complete --erase; source ~/.config/fish/config.fish'"
    );
    let bash = CompletionInstallCommand::new(CompletionShell::Bash);
    let t = bash.get_shell_setup_instructions("/p/git-x");
    assert!(t.starts_with("Completion installed to: /p/git-x\n\nTo enable bash completions"));
    assert!(t.ends_with("Then restart your shell or run: source ~/.bashrc"));
    assert_eq!(bash.name(), "completion-install");
    assert_eq!(write_failure_prefix("/p/git-x"), "Failed to write completion file to /p/git-x: ");
    assert_eq!(GitXError::Other("plain".to_string()).to_string(), "plain");
}

#[test]
fn sync_decides_per_status() {
    let s = sync_step(&sync_status(0, 0), "origin/main", false);
    assert_eq!(s.lines, vec!["✅ Branch is up to date with upstream".to_string()]);
    assert!(s.run.is_none());
    let s = sync_step(&sync_status(3, 0), "origin/main", false);
    assert_eq!(s.lines, vec!["3".to_string()]);
    assert_eq!(s.run.unwrap(), vec!["rebase".to_string(), "origin/main".to_string()]);
    let s = sync_step(&SyncStatus::Ahead(2), "origin/main", true);
    assert_eq!(s.lines, vec!["2".to_string()]);
    assert!(s.run.is_none());
    let s = sync_step(&sync_status(1, 4), "origin/main", false);
    assert_eq!(s.lines, vec![
        "🔀 Branch has diverged: 1 behind, 4 ahead".to_string(),
        "💡 Use --merge flag to merge changes, or handle manually".to_string(),
    ]);
    assert!(s.run.is_none());
    let s = sync_step(&sync_status(1, 4), "origin/main", true);
    assert_eq!(s.lines, vec!["🔀 Branch has diverged: 1 behind, 4 ahead".to_string()]);
    assert_eq!(s.run.unwrap(), vec!["merge".to_string(), "origin/main".to_string()]);
    assert_eq!(sync_header("feature", "origin/feature"), "🔄 Syncing branch 'feature' with 'origin/feature'...");
    assert_eq!(sync_finished(true, Ok(())).unwrap(), "✅ Successfully merged upstream changes");
    assert!(matches!(
        sync_finished(false, Err(GitXError::GitCommand("conflict".to_string()))),
        Err(GitXError::GitCommand(m)) if m == "Sync failed: Git command failed: conflict"
    ));
}

#[test]
fn common_git_command_readings() {
    assert_eq!(GitCommand::commit_exists(Ok("abc".to_string())).unwrap(), true);
    assert_eq!(GitCommand::commit_exists(Err(GitXError::GitCommand("bad".to_string()))).unwrap(), false);
    assert!(GitCommand::commit_exists(Err(GitXError::Parse("x".to_string()))).is_err());
    assert_eq!(GitCommand::ahead_behind_counts("3\t5\n"), (3, 5));
    assert_eq!(GitCommand::ahead_behind_counts("x"), (0, 0));
    let (c, u, a, b) = GitCommand::branch_info_optimized(
        Ok("main".to_string()),
        Ok("origin/main".to_string()),
        Err(GitXError::GitCommand("no".to_string())),
    )
    .unwrap();
    assert_eq!((c.as_str(), u.as_deref(), a, b), ("main", Some("origin/main"), 0, 0));
    let (_, u, _, _) =
        GitCommand::branch_info_optimized(Ok("main".to_string()), Err(GitXError::GitCommand("no".to_string())), Ok((1, 2)))
            .unwrap();
    assert!(u.is_none());
}

#[test]
fn branch_commands_new_branch() {
    assert!(matches!(
        BranchCommands::new_branch("bad name", None, false, false, false, Ok("main".to_string())),
        Err(GitXError::Parse(_))
    ));
    match BranchCommands::new_branch("feature", Some("develop"), false, true, false, Ok("main".to_string())).unwrap() {
        Plan::Run { steps, .. } => {
            assert_eq!(steps[0], vec!["branch".to_string(), "feature".to_string(), "develop".to_string()]);
            assert_eq!(steps[1], vec!["checkout".to_string(), "feature".to_string()]);
        }
        Plan::Report(_) => panic!("expected git steps"),
    }
}

#[test]
fn commit_dates_are_shown_zero_padded() {
    let today = (2025, 6, 1, "2025-06-01".to_string());
    let d = parse_commit_date("2025-1-5", &today).unwrap();
    assert_eq!((d.0, d.1, d.2), (2025, 1, 5));
    assert_eq!(d.3, "2025-01-05");
    let d = parse_commit_date("not a date", &today).unwrap();
    assert_eq!(d.3, "2025-06-01");
}

#[test]
fn branch_age_at_the_edges_of_chrono_range() {
    let out = |s: &str| ProcessOutput { success: true, stdout: s.to_string(), stderr: String::new() };
    assert_eq!(Safety::is_branch_older_than("b", out("8210266876799\n"), i64::MAX, 0).unwrap(), true);
    assert!(matches!(
        Safety::is_branch_older_than("b", out("8210266876800"), i64::MAX, 0),
        Err(GitXError::Parse(m)) if m == "Invalid date for branch 'b'"
    ));
    assert_eq!(Safety::is_branch_older_than("b", out("-8334601228800"), 0, 0).unwrap(), true);
    assert!(Safety::is_branch_older_than("b", out("-8334601228801"), 0, 0).is_err());
    assert_eq!(Safety::is_branch_older_than("b", out("100"), 100, 0).unwrap(), false);
    assert_eq!(Safety::is_branch_older_than("b", out("100"), 100, 5).unwrap(), true);
}

#[test]
fn detailed_info_shows_the_root_path() {
    let h = RepositoryCliHandler::new(Ok("/work/repo".to_string())).unwrap();
    let info = h
        .repository()
        .info(Ok(("main".to_string(), Some("origin/main".to_string()), 1, 0)), Ok(true), Ok(vec![]));
    let text = h.handle_info(info, true).unwrap();
    assert!(text.contains("📂 Root path: /work/repo"));
    let info = h.repository().info(Ok(("main".to_string(), None, 0, 0)), Ok(true), Ok(vec![]));
    let short = h.handle_info(info, false).unwrap();
    assert!(!short.contains("Root path"));
    assert!(RepositoryCliHandler::new(Err(GitXError::GitCommand("not a repo".to_string()))).is_err());
}

#[test]
fn interactive_builder_runs_its_steps() {
    let steps = || {
        InteractiveBuilder::new()
            .confirm("Proceed?", true)
            .select("Pick", vec!["a".to_string(), "b".to_string()])
            .input("Name", None)
    };
    let r = steps()
        .execute(false, vec![Ok(DialogAnswer::Confirmed(false)), Ok(DialogAnswer::Selected("b".to_string())), Ok(DialogAnswer::Typed("x".to_string()))])
        .unwrap();
    assert_eq!(r.confirmations, vec![true]);
    assert_eq!(r.selections, vec!["a".to_string()]);
    assert_eq!(r.inputs, vec!["x".to_string()]);
    let r = steps()
        .execute(true, vec![Ok(DialogAnswer::Confirmed(false)), Ok(DialogAnswer::Selected("b".to_string())), Ok(DialogAnswer::Typed("y".to_string()))])
        .unwrap();
    assert_eq!(r.confirmations, vec![false]);
    assert_eq!(r.selections, vec!["b".to_string()]);
    assert_eq!(r.inputs, vec!["y".to_string()]);
    let failed = steps().execute(
        true,
        vec![Ok(DialogAnswer::Confirmed(true)), Err(GitXError::Dialog("closed".to_string())), Ok(DialogAnswer::Typed("y".to_string()))],
    );
    assert!(matches!(failed, Err(GitXError::Dialog(m)) if m == "closed"));
    let empty = InteractiveBuilder::new().select("Pick", vec![]).execute(false, vec![Ok(DialogAnswer::Selected(String::new()))]);
    assert!(matches!(empty, Err(GitXError::GitCommand(m)) if m == "No items to select from"));
}

#[test]
fn safety_builder_takes_its_steps_in_order() {
    let b = SafetyBuilder::new("Delete branches").with_clean_directory().with_backup().with_checkpoint().with_confirmation();
    assert!(matches!(b.execute(SafetyEvent::Start, None), SafetyNext::Do(SafetyStep::CheckClean)));
    assert!(matches!(b.execute(SafetyEvent::Cleaned(Ok(())), None), SafetyNext::Do(SafetyStep::Backup)));
    match b.execute(SafetyEvent::BackedUp(Ok("safety/main".to_string())), None) {
        SafetyNext::Do(SafetyStep::Checkpoint(m)) => assert_eq!(m, "Before Delete branches"),
        _ => panic!("expected the checkpoint"),
    }
    match b.execute(SafetyEvent::Checkpointed(Ok("ok".to_string())), Some("safety/main".to_string())) {
        SafetyNext::Do(SafetyStep::Confirm(d)) => assert_eq!(d, "A backup branch 'safety/main' has been created."),
        _ => panic!("expected the confirmation"),
    }
    assert!(matches!(b.execute(SafetyEvent::Confirmed(Ok(true)), None), SafetyNext::Do(SafetyStep::Run)));
    assert!(matches!(
        b.execute(SafetyEvent::Confirmed(Ok(false)), None),
        SafetyNext::Stop(Ok(m)) if m == "Operation cancelled by user."
    ));
    assert!(matches!(
        b.execute(SafetyEvent::Cleaned(Err(GitXError::GitCommand("dirty".to_string()))), None),
        SafetyNext::Stop(Err(GitXError::GitCommand(m))) if m == "dirty"
    ));
    let plain = SafetyBuilder::new("op").with_confirmation();
    match plain.execute(SafetyEvent::Start, None) {
        SafetyNext::Do(SafetyStep::Confirm(d)) => assert_eq!(d, "No backup will be created."),
        _ => panic!("expected the confirmation"),
    }
    assert!(matches!(SafetyBuilder::new("op").execute(SafetyEvent::Start, None), SafetyNext::Do(SafetyStep::Run)));
    let (out, restore) = b.finish(Err(GitXError::GitCommand("boom".to_string())));
    assert!(out.is_err() && restore);
    let (out, restore) = plain.finish(Ok("done".to_string()));
    assert_eq!(out.unwrap(), "done");
    assert!(!restore);
}

#[test]
fn branch_handler_flows() {
    let h = BranchCliHandler::new(Ok("/repo".to_string())).unwrap();
    assert!(matches!(
        h.new_branch_outcome("bad name".to_string(), None, Ok(true), Ok(false), Ok(())),
        Err(GitXError::Parse(_))
    ));
    assert!(matches!(
        h.new_branch_outcome("feature".to_string(), None, Ok(true), Ok(true), Ok(())),
        Err(GitXError::GitCommand(m)) if m == "Branch 'feature' already exists"
    ));
    let t = h.new_branch_outcome("feature".to_string(), Some("develop".to_string()), Ok(true), Ok(false), Ok(())).unwrap();
    assert!(t.ends_with(" Created and switched to branch 'feature'\n📍 Based on: develop"));
    assert!(!t.contains("Backup"));
    let recent = RecentBranchesResult { branches: vec!["a".to_string(), "b".to_string()], current_branch: "main".to_string() };
    let t = h.switch_recent_outcome(&recent, None, Ok(true), Ok(())).unwrap();
    assert!(t.ends_with(" Switched to branch 'a'"));
    let t = h.switch_recent_outcome(&recent, Some(1), Ok(true), Ok(())).unwrap();
    assert!(t.ends_with(" Switched to branch 'b'"));
    let none = RecentBranchesResult { branches: vec![], current_branch: "main".to_string() };
    assert!(matches!(
        h.switch_recent_outcome(&none, None, Ok(true), Ok(())),
        Err(GitXError::GitCommand(m)) if m == "No recent branches found"
    ));
    let t = h.clean_branches_outcome(false, vec!["x".to_string(), "y".to_string()], true, vec![true, false]);
    assert_eq!(t, "🧹 Deleted 1 merged branches:\n✅ Deleted: x\n\n❌ Failed to delete 1 branches:\n❌ Failed: y\n");
    let t = h.clean_branches_outcome(true, vec!["x".to_string()], false, vec![false]);
    assert!(t.starts_with("🧪 (dry run) 1 branches would be deleted:"));
    assert_eq!(h.clean_branches_outcome(false, vec![], true, vec![]), "No merged branches to delete.");
}

#[test]
fn output_bytes_become_text() {
    assert_eq!(convert_output_to_string(b"abc\n"), "abc\n");
    assert_eq!(convert_output_to_string(&[0x66, 0xff, 0x6f]), "f\u{FFFD}o");
    assert_eq!(convert_output_to_string("é".as_bytes()), "é");
}

#[test]
fn overflow_checks_before_counting() {
    assert!(days_fit_of("3 months ago"));
    assert!(!days_fit_of("200000000 months ago"));
    assert!(days_fit_of("4294967295 days ago"));
    assert!(!days_fit_of("700000000 weeks ago"));
    assert!(churn_fits_of("10\t5\tsrc/a.rs\n3\t1\tsrc/a.rs\n"));
    assert!(!churn_fits_of("4294967295\t1\tsrc/a.rs\n"));
    assert!(!churn_fits_of("4294967295\t0\tx\n1\t0\tx\n"));
    assert!(churn_fits_of("4294967295\t0\tx\n1\t0\ty\n"));
    assert!(branch_ages_fit_of("feature|3 months ago|Ann\nmain|999999999 months ago|Bob\n"));
    assert!(!branch_ages_fit_of("feature|999999999 months ago|Ann\n"));
    let c = |n: usize| ContributorStats {
        name: "a".to_string(),
        email: "a@x".to_string(),
        commit_count: n,
        first_commit: String::new(),
        last_commit: String::new(),
    };
    assert!(contributors_total_fits(&vec![c(1), c(2)]));
    assert!(!contributors_total_fits(&vec![c(usize::MAX), c(2)]));
}
