use git_x::contributors::{format_contributors_output, parse_contributors, ContributorStats};
use git_x::GitXError;

#[test]
fn test_parse_contributors_success() {
    let sample_output = "alice@example.com|Alice Smith|2025-01-15
bob@example.com|Bob Jones|2025-01-10
alice@example.com|Alice Smith|2025-01-20
charlie@example.com|Charlie Brown|2025-01-12";

    let result = parse_contributors(sample_output);
    assert!(result.is_ok());

    let contributors = result.unwrap();
    assert_eq!(contributors.len(), 3);

    assert_eq!(contributors[0].name, "Alice Smith");
    assert_eq!(contributors[0].commit_count, 2);
    assert_eq!(contributors[0].first_commit, "2025-01-15");
    assert_eq!(contributors[0].last_commit, "2025-01-20");

    assert!(contributors.iter().any(|c| c.name == "Bob Jones" && c.commit_count == 1));
    assert!(contributors.iter().any(|c| c.name == "Charlie Brown" && c.commit_count == 1));
}

#[test]
fn test_parse_contributors_empty_input() {
    let result = parse_contributors("");
    assert!(result.is_ok());
    let contributors = result.unwrap();
    assert!(contributors.is_empty());
}

#[test]
fn test_parse_contributors_malformed_input() {
    let malformed_output = "invalid|line\nincomplete";
    let result = parse_contributors(malformed_output);
    assert!(result.is_ok());
    let contributors = result.unwrap();
    assert!(contributors.is_empty());
}

#[test]
fn contributors_test_run_no_git_repo() {
    let result = parse_contributors("test@example.com|Test User|2025-01-01");
    match result {
        Ok(contributors) => {
            assert_eq!(contributors.len(), 1);
            assert_eq!(contributors[0].name, "Test User");
        }
        Err(_) => panic!("Should parse valid input successfully"),
    }
}

#[test]
fn test_contributor_stats_fields() {
    let stats = ContributorStats {
        name: "Test User".to_string(),
        email: "test@example.com".to_string(),
        commit_count: 5,
        first_commit: "2025-01-01".to_string(),
        last_commit: "2025-01-15".to_string(),
    };

    assert_eq!(stats.name, "Test User");
    assert_eq!(stats.email, "test@example.com");
    assert_eq!(stats.commit_count, 5);
    assert_eq!(stats.first_commit, "2025-01-01");
    assert_eq!(stats.last_commit, "2025-01-15");
}

#[test]
fn contributors_test_gitx_error_integration() {
    let io_error = std::io::Error::new(std::io::ErrorKind::NotFound, "git not found");
    let gitx_error: GitXError = io_error.into();
    match gitx_error {
        GitXError::Io(_) => {}
        _ => panic!("Should convert to Io error"),
    }

    let git_error = GitXError::GitCommand("test error".to_string());
    assert_eq!(git_error.to_string(), "Git command failed: test error");
}

#[test]
fn test_sorting_by_commit_count() {
    let sample_output = "alice@example.com|Alice Smith|2025-01-15
bob@example.com|Bob Jones|2025-01-10
alice@example.com|Alice Smith|2025-01-20
alice@example.com|Alice Smith|2025-01-25
bob@example.com|Bob Jones|2025-01-12
charlie@example.com|Charlie Brown|2025-01-12";

    let result = parse_contributors(sample_output);
    assert!(result.is_ok());

    let contributors = result.unwrap();
    assert_eq!(contributors.len(), 3);

    assert_eq!(contributors[0].name, "Alice Smith");
    assert_eq!(contributors[0].commit_count, 3);
    assert_eq!(contributors[1].name, "Bob Jones");
    assert_eq!(contributors[1].commit_count, 2);
    assert_eq!(contributors[2].name, "Charlie Brown");
    assert_eq!(contributors[2].commit_count, 1);
}

#[test]
fn test_date_range_tracking() {
    let sample_output = "alice@example.com|Alice Smith|2025-01-20
alice@example.com|Alice Smith|2025-01-10
alice@example.com|Alice Smith|2025-01-15";

    let result = parse_contributors(sample_output);
    assert!(result.is_ok());

    let contributors = result.unwrap();
    assert_eq!(contributors.len(), 1);

    let alice = &contributors[0];
    assert_eq!(alice.first_commit, "2025-01-10");
    assert_eq!(alice.last_commit, "2025-01-20");
    assert_eq!(alice.commit_count, 3);
}

#[test]
fn contributors_ties_keep_first_appearance_order() {
    let out = parse_contributors("b@x|B|2025-01-02\na@x|A|2025-01-01\nc@x|C|2025-01-03").unwrap();
    let names: Vec<&str> = out.iter().map(|c| c.name.as_str()).collect();
    assert_eq!(names, vec!["B", "A", "C"]);
}

#[test]
fn contributors_name_of_first_commit_and_trimmed_fields() {
    let out = parse_contributors(" a@x | First |2025-02-01\na@x|Second|2025-01-01|extra").unwrap();
    assert_eq!(out.len(), 1);
    assert_eq!(out[0].email, "a@x");
    assert_eq!(out[0].name, "First");
    assert_eq!(out[0].commit_count, 2);
    // The third field takes the rest of the line.
    assert_eq!(out[0].first_commit, "2025-01-01|extra");
    assert_eq!(out[0].last_commit, "2025-02-01");
}

#[test]
fn contributors_exact_field_count_variant() {
    let out = git_x::contributors::contributors_of("a@x|A|2025-01-01|extra\nb@x|B|2025-01-02", true);
    assert_eq!(out.len(), 1);
    assert_eq!(out[0].email, "b@x");
}

/// Each contributor's share of the commits in percent, with one decimal.
fn shares(contributors: &[ContributorStats]) -> Vec<String> {
    let total: usize = contributors.iter().map(|c| c.commit_count).sum();
    contributors
        .iter()
        .map(|c| format!("{:.1}", (c.commit_count as f64 / total as f64) * 100.0))
        .collect()
}

#[test]
fn test_format_contributors_output() {
    let contributors = vec![
        ContributorStats {
            name: "Alice Smith".to_string(),
            email: "alice@example.com".to_string(),
            commit_count: 10,
            first_commit: "2025-01-01".to_string(),
            last_commit: "2025-01-15".to_string(),
        },
        ContributorStats {
            name: "Bob Jones".to_string(),
            email: "bob@example.com".to_string(),
            commit_count: 5,
            first_commit: "2025-01-05".to_string(),
            last_commit: "2025-01-10".to_string(),
        },
    ];

    let output = format_contributors_output(&contributors, &shares(&contributors));

    // Check that output contains expected elements (accounting for styling)
    assert!(output.contains("Repository Contributors"));
    assert!(output.contains("15") && output.contains("total commits")); // Account for styling
    assert!(output.contains("🥇"));
    assert!(output.contains("🥈"));
    assert!(output.contains("Alice Smith"));
    assert!(output.contains("Bob Jones"));
    assert!(output.contains("66.7%"));
    assert!(output.contains("33.3%"));
    assert!(output.contains("10") && output.contains("commits")); // Alice's commit count
    assert!(output.contains("5") && output.contains("commits")); // Bob's commit count
    assert!(output.contains("alice@example.com"));
    assert!(output.contains("bob@example.com"));
}
