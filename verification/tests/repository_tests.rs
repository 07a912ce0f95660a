use git_x::base::output::Format;
use git_x::base::traits::Command;
use git_x::commands::repository::{HealthCommand, InfoCommand, SyncCommand, SyncStrategy};

// Helper function to strip ANSI escape codes for testing
fn strip_ansi_codes(text: &str) -> String {
    let mut result = String::new();
    let mut chars = text.chars();
    while let Some(ch) = chars.next() {
        if ch == '\x1b' {
            if chars.next() == Some('[') {
                for next_ch in chars.by_ref() {
                    if next_ch.is_ascii_alphabetic() {
                        break;
                    }
                }
            }
        } else {
            result.push(ch);
        }
    }
    result
}

#[test]
fn test_ansi_stripping() {
    let formatted_text = Format::bold("main");
    let clean_text = strip_ansi_codes(&formatted_text);
    assert_eq!(clean_text, "main");

    let mixed = format!("Branch: {} Status: OK", Format::bold("feature"));
    let clean_mixed = strip_ansi_codes(&mixed);
    assert_eq!(clean_mixed, "Branch: feature Status: OK");
}

#[test]
fn test_info_command_creation() {
    let cmd = InfoCommand::new();
    assert!(!cmd.show_detailed);

    let detailed_cmd = cmd.with_details();
    assert!(detailed_cmd.show_detailed);
}

#[test]
fn test_command_trait_implementations() {
    let info_cmd = InfoCommand::new();
    assert_eq!(info_cmd.name(), "info");
    assert_eq!(
        info_cmd.description(),
        "Show repository information and status"
    );

    let health_cmd = HealthCommand::new();
    assert_eq!(health_cmd.name(), "health");
    assert_eq!(
        health_cmd.description(),
        "Check repository health and configuration"
    );

    let sync_cmd = SyncCommand::new(SyncStrategy::Auto);
    assert_eq!(sync_cmd.name(), "sync");
    assert_eq!(sync_cmd.description(), "Sync current branch with upstream");
}

#[test]
fn test_branch_info_formatting() {
    let formatted = InfoCommand::format_branch_info("main", Some("origin/main"), 2, 1);
    let clean_text = strip_ansi_codes(&formatted);

    assert!(clean_text.contains("Current branch: main"));
    assert!(clean_text.contains("Upstream: origin/main"));
    assert!(clean_text.contains("2 ahead"));
    assert!(clean_text.contains("1 behind"));
}

#[test]
fn test_branch_info_formatting_no_upstream() {
    let formatted = InfoCommand::format_branch_info("feature", None, 0, 0);
    let clean_text = strip_ansi_codes(&formatted);

    assert!(clean_text.contains("Current branch: feature"));
    assert!(clean_text.contains("No upstream configured"));
}

#[test]
fn test_branch_info_formatting_up_to_date() {
    let formatted = InfoCommand::format_branch_info("main", Some("origin/main"), 0, 0);
    let clean_text = strip_ansi_codes(&formatted);

    assert!(clean_text.contains("Status: Up to date"));
}

#[test]
fn test_sync_strategy_auto_selection() {
    let sync_cmd = SyncCommand::new(SyncStrategy::Auto);
    assert_eq!(sync_cmd.name(), "sync");

    let merge_cmd = SyncCommand::new(SyncStrategy::Merge);
    let rebase_cmd = SyncCommand::new(SyncStrategy::Rebase);

    assert_eq!(merge_cmd.name(), "sync");
    assert_eq!(rebase_cmd.name(), "sync");
}

#[test]
fn branch_info_is_the_exact_text() {
    let formatted = InfoCommand::format_branch_info("main", Some("origin/main"), 2, 1);
    assert_eq!(
        strip_ansi_codes(&formatted),
        "📍 Current branch: main\n🔗 Upstream: origin/main\n📊 Status: 2 ahead, 1 behind"
    );
    let only_behind = InfoCommand::format_branch_info("dev", Some("origin/dev"), 0, 4);
    assert_eq!(
        strip_ansi_codes(&only_behind),
        "📍 Current branch: dev\n🔗 Upstream: origin/dev\n📊 Status: 4 behind"
    );
}
