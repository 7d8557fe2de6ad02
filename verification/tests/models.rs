use interactions_core::models::interaction::{generate_id, id_from_clock};
use interactions_core::models::okr::{generate_okr_id, okr_id_from_clock};
use interactions_core::{
    BackupConfig, Error, Interaction, InteractionKind, KeyResult, LintingConfig, Member, Objective,
    OkrVisibility, PublishConfig, Team, TeamConfig, Timestamp,
};

/// A fraction as the millionths that the library counts in.
fn millionths(fraction: f64) -> i64 {
    (fraction * 1_000_000.0).round() as i64
}

/// Millionths as a fraction.
fn fraction(millionths: u32) -> f32 {
    (millionths as f64 / 1_000_000.0) as f32
}

#[test]
fn test_default_config() {
    let config = TeamConfig::with_defaults();

    assert!(config.publish.is_some());
    assert!(config.linting.is_some());
    assert!(config.backup.is_some());

    let publish = config.publish.unwrap();
    assert_eq!(publish.manifesto, Some("/MANIFESTO.md".to_string()));
    assert_eq!(publish.vision, Some("/VISION.md".to_string()));
    assert_eq!(publish.okrs, Some("/okrs/".to_string()));

    let linting = config.linting.unwrap();
    assert!(linting.enabled);
    assert_eq!(linting.target_branch, Some("interactions".to_string()));

    let backup = config.backup.unwrap();
    assert_eq!(backup.protected_branch, Some("main".to_string()));
}

#[test]
fn test_empty_config() {
    let config = TeamConfig::new();
    assert!(config.publish.is_none());
    assert!(config.webhooks.is_none());
    assert!(config.linting.is_none());
    assert!(config.backup.is_none());
}

#[test]
fn test_config_builder() {
    let config = TeamConfig::new()
        .with_publish(PublishConfig {
            manifesto: Some("/docs/MANIFESTO.md".to_string()),
            vision: None,
            okrs: None,
        })
        .with_linting(LintingConfig {
            enabled: true,
            target_branch: Some("develop".to_string()),
        });

    assert!(config.publish.is_some());
    assert!(config.linting.is_some());
    assert!(config.backup.is_none());
}

#[test]
fn config_builder_replaces_one_block_and_keeps_the_rest() {
    let config = TeamConfig::with_defaults().with_backup(BackupConfig {
        protected_branch: Some("trunk".to_string()),
    });
    let defaults = TeamConfig::with_defaults();
    assert_eq!(config.backup.unwrap().protected_branch, Some("trunk".to_string()));
    assert_eq!(config.publish, defaults.publish);
    assert_eq!(config.linting, defaults.linting);
    assert_eq!(config.webhooks, None);
    assert_eq!(TeamConfig::default(), TeamConfig::new());
    assert_eq!(
        PublishConfig::default(),
        PublishConfig { manifesto: None, vision: None, okrs: None }
    );
    assert_eq!(LintingConfig::default(), LintingConfig { enabled: false, target_branch: None });
    assert_eq!(BackupConfig::default(), BackupConfig { protected_branch: None });
    assert!(TeamConfig::with_defaults().webhooks.is_none());
}

#[test]
fn test_new_interaction() {
    let interaction = Interaction::new(
        InteractionKind::Appreciation,
        "alice@example.com",
        vec!["bob@example.com".to_string()],
        "Great work on the PR!",
    );

    assert_eq!(interaction.kind, InteractionKind::Appreciation);
    assert_eq!(interaction.from, "alice@example.com");
    assert_eq!(interaction.with, vec!["bob@example.com"]);
    assert_eq!(interaction.note, "Great work on the PR!");
    assert!(!interaction.shared);
}

#[test]
fn test_appreciation_helper() {
    let interaction = Interaction::appreciation(
        "alice@example.com",
        vec!["bob@example.com".to_string()],
        "Thanks!",
    );
    assert_eq!(interaction.kind, InteractionKind::Appreciation);
}

#[test]
fn test_shared_interaction() {
    let interaction = Interaction::appreciation(
        "alice@example.com",
        vec!["bob@example.com".to_string()],
        "Thanks!",
    )
    .shared();
    assert!(interaction.shared);
}

#[test]
fn test_interaction_kind_labels() {
    assert_eq!(InteractionKind::Appreciation.label(), "Appreciation");
    assert_eq!(InteractionKind::Feedback.label(), "Feedback");
    assert_eq!(InteractionKind::Apology.label(), "Apology");
    assert_eq!(InteractionKind::CheckIn.label(), "Check-in");
    assert_eq!(InteractionKind::Retrospective.label(), "Retrospective");
}

#[test]
fn feedback_helper_sets_the_kind_and_keeps_the_rest() {
    let interaction = Interaction::feedback(
        "alice@example.com",
        vec!["bob@example.com".to_string(), "carol@example.com".to_string()],
        "Next time, ask earlier.",
    );
    assert_eq!(interaction.kind, InteractionKind::Feedback);
    assert_eq!(interaction.from, "alice@example.com");
    assert_eq!(interaction.with, vec!["bob@example.com", "carol@example.com"]);
    assert_eq!(interaction.note, "Next time, ask earlier.");
    assert!(!interaction.shared);
    assert!(interaction.timestamp.nanos < 1_000_000_000);
    assert!(interaction.timestamp.secs > 1_600_000_000);
}

#[test]
fn recorded_takes_every_field_as_given() {
    let at = Timestamp { secs: 1_700_000_000, nanos: 5 };
    let interaction = Interaction::recorded(
        "abc".to_string(),
        InteractionKind::Apology,
        "alice@example.com",
        vec![],
        "Sorry.",
        at,
    );
    assert_eq!(
        interaction,
        Interaction {
            id: "abc".to_string(),
            kind: InteractionKind::Apology,
            from: "alice@example.com".to_string(),
            with: vec![],
            note: "Sorry.".to_string(),
            timestamp: at,
            shared: false,
        }
    );
    let shared = interaction.clone().shared();
    assert_eq!(shared, Interaction { shared: true, ..interaction });
}

#[test]
fn identifiers_are_the_clock_in_hexadecimal() {
    assert_eq!(id_from_clock(1_700_000_000, 123_456_789), "6553f10075bcd15");
    assert_eq!(id_from_clock(0, 0), "00");
    assert_eq!(id_from_clock(u64::MAX, 999_999_999), "ffffffffffffffff3b9ac9ff");
    assert_eq!(id_from_clock(16, 15), "10f");
    assert_eq!(okr_id_from_clock(1_700_000_000, 123_456_789), "okr-6553f10075bcd15");
    assert_eq!(okr_id_from_clock(0, 0), "okr-00");

    let id = generate_id();
    assert!(id.len() >= 2);
    assert!(id.bytes().all(|b| b.is_ascii_digit() || (b'a'..=b'f').contains(&b)));
    let okr_id = generate_okr_id();
    assert!(okr_id.starts_with("okr-"));
    assert!(okr_id[4..].bytes().all(|b| b.is_ascii_digit() || (b'a'..=b'f').contains(&b)));
}

#[test]
fn timestamps_order_by_seconds_then_nanoseconds() {
    let a = Timestamp { secs: 10, nanos: 999_999_999 };
    let b = Timestamp { secs: 11, nanos: 0 };
    let c = Timestamp { secs: 11, nanos: 1 };
    let early = Timestamp { secs: -5, nanos: 7 };
    assert!(a.is_before(&b));
    assert!(b.is_before(&c));
    assert!(a.is_before(&c));
    assert!(early.is_before(&a));
    assert!(!b.is_before(&a));
    assert!(!c.is_before(&b));
    assert!(!a.is_before(&a));
    assert!(a < b && b < c && early < a);
}

#[test]
fn test_new_member() {
    let member = Member::new("user@example.com");
    assert_eq!(member.email, "user@example.com");
    assert!(member.name.is_none());
}

#[test]
fn test_member_with_details() {
    let member = Member::new("user@example.com")
        .with_name("Alice")
        .with_bio("Software engineer")
        .with_timezone("Europe/Amsterdam");

    assert_eq!(member.name, Some("Alice".to_string()));
    assert_eq!(member.bio, Some("Software engineer".to_string()));
    assert_eq!(member.timezone, Some("Europe/Amsterdam".to_string()));
}

#[test]
fn test_display_name() {
    let member_no_name = Member::new("user@example.com");
    assert_eq!(member_no_name.display_name(), "user@example.com");

    let member_with_name = Member::new("user@example.com").with_name("Alice");
    assert_eq!(member_with_name.display_name(), "Alice");
}

#[test]
fn member_builders_leave_the_other_fields_alone() {
    let member = Member::new("user@example.com").with_bio("Engineer");
    assert_eq!(
        member,
        Member {
            email: "user@example.com".to_string(),
            name: None,
            bio: Some("Engineer".to_string()),
            timezone: None,
        }
    );
    // An empty display name is still a display name.
    assert_eq!(Member::new("user@example.com").with_name("").display_name(), "");
}

#[test]
fn test_new_key_result() {
    let kr = KeyResult::new("Complete 10 code reviews");
    assert_eq!(kr.description, "Complete 10 code reviews");
    assert_eq!(fraction(kr.progress), 0.0);
    assert!(kr.notes.is_none());
}

#[test]
fn test_key_result_progress() {
    let mut kr = KeyResult::new("Test");
    kr.set_progress(millionths(0.5));
    assert_eq!(fraction(kr.progress), 0.5);

    // Test clamping
    kr.set_progress(millionths(1.5));
    assert_eq!(fraction(kr.progress), 1.0);

    kr.set_progress(millionths(-0.5));
    assert_eq!(fraction(kr.progress), 0.0);
}

#[test]
fn test_new_objective() {
    let obj = Objective::new("Improve code quality");
    assert_eq!(obj.title, "Improve code quality");
    assert!(obj.key_results.is_empty());
    assert_eq!(obj.visibility, OkrVisibility::Private);
}

#[test]
fn test_objective_with_key_results() {
    let mut obj = Objective::new("Improve code quality")
        .with_description("Focus on maintainability")
        .with_quarter("2026-Q1");

    let mut kr1 = KeyResult::new("Complete 10 code reviews");
    kr1.set_progress(millionths(0.8));

    let mut kr2 = KeyResult::new("Reduce bug count by 50%");
    kr2.set_progress(millionths(0.6));

    obj.add_key_result(kr1);
    obj.add_key_result(kr2);

    assert_eq!(obj.key_results.len(), 2);
    let progress = fraction(obj.overall_progress());
    assert!(
        (progress - 0.7).abs() < 0.0001,
        "Expected ~0.7, got {}",
        progress
    );
}

#[test]
fn test_overall_progress_empty() {
    let obj = Objective::new("Test");
    assert_eq!(fraction(obj.overall_progress()), 0.0);
}

#[test]
fn progress_is_kept_in_millionths_and_clamped_at_both_ends() {
    let mut kr = KeyResult::new("Test").with_note("on track");
    assert_eq!(kr.notes, Some("on track".to_string()));
    for (given, stored) in [
        (0i64, 0u32),
        (1, 1),
        (999_999, 999_999),
        (1_000_000, 1_000_000),
        (1_000_001, 1_000_000),
        (-1, 0),
        (i64::MAX, 1_000_000),
        (i64::MIN, 0),
    ] {
        kr.set_progress(given);
        assert_eq!(kr.progress, stored);
        assert_eq!(kr.description, "Test");
        assert_eq!(kr.notes, Some("on track".to_string()));
    }
}

#[test]
fn overall_progress_is_the_mean_rounded_down() {
    let mut obj = Objective::new("Test");
    assert_eq!(obj.overall_progress(), 0);
    for progress in [800_000i64, 600_000] {
        let mut kr = KeyResult::new("kr");
        kr.set_progress(progress);
        obj.add_key_result(kr);
    }
    assert_eq!(obj.overall_progress(), 700_000);
    let mut kr = KeyResult::new("kr");
    kr.set_progress(1);
    obj.add_key_result(kr);
    // (800000 + 600000 + 1) / 3 = 466667 - 1/3
    assert_eq!(obj.overall_progress(), 466_667);
    // A key result whose progress was set past the whole by hand still
    // takes part in the mean as it stands.
    obj.key_results[0].progress = u32::MAX;
    assert_eq!(
        obj.overall_progress() as u64,
        (u32::MAX as u64 + 600_000 + 1) / 3
    );
}

#[test]
fn objective_builders_set_their_field_and_keep_the_rest() {
    let obj = Objective::titled("okr-1".to_string(), "T")
        .with_visibility(OkrVisibility::Shared)
        .with_owner("alice@example.com");
    assert_eq!(
        obj,
        Objective {
            id: "okr-1".to_string(),
            title: "T".to_string(),
            description: None,
            key_results: vec![],
            visibility: OkrVisibility::Shared,
            owner: Some("alice@example.com".to_string()),
            quarter: None,
        }
    );
    assert_eq!(OkrVisibility::default(), OkrVisibility::Private);
    assert!(Objective::new("x").id.starts_with("okr-"));
}

#[test]
fn test_new_team() {
    let team = Team::new("Engineering");
    assert_eq!(team.name, "Engineering");
    assert!(team.manifesto.is_none());
    assert!(team.vision.is_none());
    assert!(team.leaders.is_empty());
    assert!(team.members.is_empty());
}

#[test]
fn test_team_with_manifesto_and_vision() {
    let team = Team::new("Engineering")
        .with_manifesto("We value collaboration")
        .with_vision("Build great software");

    assert_eq!(team.manifesto, Some("We value collaboration".to_string()));
    assert_eq!(team.vision, Some("Build great software".to_string()));
}

#[test]
fn test_team_membership() {
    let mut team = Team::new("Engineering");
    team.add_leader("leader@example.com");
    team.add_member("member@example.com");

    assert!(team.is_leader("leader@example.com"));
    assert!(!team.is_leader("member@example.com"));
    assert!(team.is_member("leader@example.com")); // Leaders are also members
    assert!(team.is_member("member@example.com"));
    assert!(!team.is_member("stranger@example.com"));
}

#[test]
fn every_leader_is_a_member() {
    let mut team = Team::new("Engineering");
    team.add_leader("a@example.com");
    team.add_leader("b@example.com");
    team.add_member("b@example.com");
    team.add_member("c@example.com");
    for who in ["a@example.com", "b@example.com", "c@example.com", "d@example.com", ""] {
        if team.is_leader(who) {
            assert!(team.is_member(who));
        }
    }
    assert!(team.is_leader("a@example.com"));
    assert!(!team.members.contains(&"a@example.com".to_string()));
    assert!(team.is_member("a@example.com"));
    assert_eq!(team.leaders, vec!["a@example.com", "b@example.com"]);
    assert_eq!(team.members, vec!["b@example.com", "c@example.com"]);
    // Identifiers are compared as they are written.
    assert!(!team.is_member("A@example.com"));
    assert!(!team.is_member("a@example.co"));
}

#[test]
fn error_messages_name_the_kind_of_failure() {
    assert_eq!(Error::Io("disk full".to_string()).message(), "IO error: disk full");
    assert_eq!(Error::Yaml("bad indent".to_string()).message(), "YAML parsing error: bad indent");
    assert_eq!(Error::TeamNotFound("x".to_string()).message(), "Team not found: x");
    assert_eq!(Error::MemberNotFound("m".to_string()).message(), "Member not found: m");
    assert_eq!(Error::InvalidConfig("c".to_string()).message(), "Invalid configuration: c");
    assert_eq!(Error::Storage("s".to_string()).message(), "Storage error: s");
    assert_eq!(Error::AuthFailed("a".to_string()).message(), "Authentication failed: a");
    assert_eq!(
        Error::CredentialsNotFound("u@example.com".to_string()).message(),
        "Credentials not found for: u@example.com"
    );
}
