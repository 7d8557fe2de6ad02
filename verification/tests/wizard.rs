use interactions_core::storage::feed::DirEntry;
use interactions_core::wizard::selection::{
    current_user, max_index_for_tab, select_after, select_before, select_item, team_name, Choice,
};
use interactions_core::wizard::states::{answer_says_yes, email_shaped};
use interactions_core::wizard::{
    build_quick_actions, AddMemberState, AddMemberStep, FeedbackState, FeedbackStep, InitState,
    InitStep, InteractionsSubTab, InteractionsView, KudosState, KudosStep, NavigateDirState,
    QuickActionKind, Tab,
};
use interactions_core::{InteractionKind, Member, Team};

fn type_line(state: &mut InitState, line: &str) {
    for c in line.chars() {
        state.input_char(c);
    }
}

fn entry(name: &str, is_dir: bool) -> DirEntry {
    DirEntry { name: name.to_string(), is_dir, path: format!("/here/{}", name) }
}

fn names(state: &NavigateDirState) -> Vec<&str> {
    state.entries.iter().map(|e| e.name.as_str()).collect()
}

#[test]
fn tabs_have_titles_and_an_order() {
    assert_eq!(Tab::all(), &[Tab::Dashboard, Tab::Team, Tab::Interactions, Tab::Okrs, Tab::Settings]);
    let titles: Vec<&str> = Tab::all().iter().map(|t| t.title()).collect();
    assert_eq!(titles, vec!["Dashboard", "Team", "Interactions", "OKRs", "Settings"]);
    assert_eq!(Tab::default(), Tab::Dashboard);
    assert_eq!(InteractionsSubTab::all(), &[InteractionsSubTab::Kudos, InteractionsSubTab::Feedback]);
    assert_eq!(InteractionsSubTab::Kudos.title(), "Kudos");
    assert_eq!(InteractionsSubTab::Feedback.title(), "Feedback");
    assert_eq!(InteractionsSubTab::default(), InteractionsSubTab::Kudos);
    assert_eq!(InteractionsView::default(), InteractionsView::Sent);
}

#[test]
fn tabs_go_round_in_both_directions() {
    let all = Tab::all();
    for (at, tab) in all.iter().enumerate() {
        assert_eq!(tab.next(), all[(at + 1) % all.len()]);
        assert_eq!(tab.previous(), all[(at + all.len() - 1) % all.len()]);
        assert_eq!(tab.next().previous(), *tab);
    }
    assert_eq!(Tab::Settings.next(), Tab::Dashboard);
    assert_eq!(Tab::Dashboard.previous(), Tab::Settings);
    assert_eq!(InteractionsSubTab::Kudos.next(), InteractionsSubTab::Feedback);
    assert_eq!(InteractionsSubTab::Feedback.next(), InteractionsSubTab::Kudos);
    assert_eq!(InteractionsView::Sent.toggled(), InteractionsView::Received);
    assert_eq!(InteractionsView::Received.toggled(), InteractionsView::Sent);
}

#[test]
fn steps_have_prompts_and_follow_each_other() {
    assert_eq!(InitStep::default(), InitStep::TeamName);
    assert_eq!(InitStep::TeamName.prompt(), "Enter your team name:");
    assert_eq!(InitStep::LeaderEmail.prompt(), "Enter your email (team leader):");
    assert_eq!(InitStep::LeaderName.prompt(), "Enter your name (press Enter to skip):");
    assert_eq!(InitStep::Pincode.prompt(), "Create a pincode (min 4 chars, hidden):");
    assert_eq!(InitStep::ConfirmPincode.prompt(), "Confirm your pincode:");
    assert_eq!(InitStep::TeamName.next(), Some(InitStep::LeaderEmail));
    assert_eq!(InitStep::LeaderEmail.next(), Some(InitStep::LeaderName));
    assert_eq!(InitStep::LeaderName.next(), Some(InitStep::Pincode));
    assert_eq!(InitStep::Pincode.next(), Some(InitStep::ConfirmPincode));
    assert_eq!(InitStep::ConfirmPincode.next(), None);

    assert_eq!(AddMemberStep::default(), AddMemberStep::Email);
    assert_eq!(AddMemberStep::Email.prompt(), "Enter member's email:");
    assert_eq!(AddMemberStep::Name.prompt(), "Enter member's name (press Enter to skip):");
    assert_eq!(AddMemberStep::Email.next(), Some(AddMemberStep::Name));
    assert_eq!(AddMemberStep::Name.next(), None);

    assert_eq!(KudosStep::default(), KudosStep::Recipient);
    assert_eq!(KudosStep::Recipient.prompt(), "Who are you giving kudos to? (email or name)");
    assert_eq!(KudosStep::Note.prompt(), "What would you like to say?");
    assert_eq!(KudosStep::Share.prompt(), "Share with the team? (y/n)");
    assert_eq!(KudosStep::Recipient.next(), Some(KudosStep::Note));
    assert_eq!(KudosStep::Note.next(), Some(KudosStep::Share));
    assert_eq!(KudosStep::Share.next(), None);

    assert_eq!(FeedbackStep::default(), FeedbackStep::Recipient);
    assert_eq!(FeedbackStep::Recipient.prompt(), "Who is this feedback for? (email or name)");
    assert_eq!(FeedbackStep::Note.prompt(), "What feedback would you like to share?");
    assert_eq!(FeedbackStep::Share.prompt(), "Share with the team? (y/n)");
    assert_eq!(FeedbackStep::Recipient.next(), Some(FeedbackStep::Note));
    assert_eq!(FeedbackStep::Note.next(), Some(FeedbackStep::Share));
    assert_eq!(FeedbackStep::Share.next(), None);
}

#[test]
fn quick_actions_offer_the_setup_only_before_it_was_done() {
    let before = build_quick_actions(false);
    let kinds: Vec<QuickActionKind> = before.iter().map(|a| a.kind).collect();
    assert_eq!(
        kinds,
        vec![
            QuickActionKind::InitTeam,
            QuickActionKind::ChangeDirectory,
            QuickActionKind::LogInteraction(InteractionKind::Appreciation),
            QuickActionKind::LogInteraction(InteractionKind::Feedback),
            QuickActionKind::LogInteraction(InteractionKind::CheckIn),
            QuickActionKind::ViewTeam,
            QuickActionKind::ViewOkrs,
        ]
    );
    let labels: Vec<&str> = before.iter().map(|a| a.label).collect();
    assert_eq!(
        labels,
        vec![
            "Initialize Team",
            "Open Folder",
            "Give Kudos",
            "Share Feedback",
            "Log Check-in",
            "View Team",
            "View OKRs"
        ]
    );
    assert_eq!(before[0].description, "Set up a new team in this directory");
    assert_eq!(before[2].description, "Appreciate someone's work");
    let after = build_quick_actions(true);
    assert_eq!(after.len(), 6);
    assert_eq!(after[0].kind, QuickActionKind::ChangeDirectory);
    assert_eq!(after[0].description, "Navigate to a different directory");
}

#[test]
fn selection_wraps_at_both_ends() {
    assert_eq!(select_after(0, 3), 1);
    assert_eq!(select_after(1, 3), 2);
    assert_eq!(select_after(2, 3), 0);
    assert_eq!(select_before(0, 3), 2);
    assert_eq!(select_before(2, 3), 1);
    assert_eq!(select_before(1, 3), 0);
    assert_eq!(select_after(0, 1), 0);
    assert_eq!(select_before(0, 1), 0);
    // Nothing to select: the index stays.
    assert_eq!(select_after(5, 0), 5);
    assert_eq!(select_before(5, 0), 5);
    assert_eq!(select_before(0, 0), 0);
    for count in 1..6usize {
        for index in 0..count {
            assert_eq!(select_before(select_after(index, count), count), index);
            assert_eq!(select_after(select_before(index, count), count), index);
            assert!(select_after(index, count) < count);
            assert!(select_before(index, count) < count);
        }
    }
}

#[test]
fn selecting_an_item_starts_what_the_item_stands_for() {
    let actions = build_quick_actions(false);
    let expected = [
        Choice::StartInit,
        Choice::StartNavigateDir,
        Choice::StartKudos,
        Choice::StartFeedback,
        Choice::NotImplemented,
        Choice::ShowTab(Tab::Team),
        Choice::ShowTab(Tab::Okrs),
    ];
    for (at, choice) in expected.iter().enumerate() {
        assert_eq!(select_item(Tab::Dashboard, at, &actions, None), *choice);
    }
    assert_eq!(select_item(Tab::Dashboard, 7, &actions, None), Choice::Nothing);

    let mut team = Team::new("Engineering");
    team.add_leader("lead@example.com");
    team.add_member("a@example.com");
    team.add_member("b@example.com");
    assert_eq!(select_item(Tab::Team, 3, &actions, Some(&team)), Choice::StartAddMember);
    assert_eq!(select_item(Tab::Team, 2, &actions, Some(&team)), Choice::Nothing);
    assert_eq!(select_item(Tab::Team, 4, &actions, Some(&team)), Choice::Nothing);
    assert_eq!(select_item(Tab::Team, 0, &actions, None), Choice::Nothing);
    assert_eq!(select_item(Tab::Okrs, 0, &actions, Some(&team)), Choice::Nothing);
    assert_eq!(select_item(Tab::Settings, 0, &actions, Some(&team)), Choice::Nothing);
    assert_eq!(select_item(Tab::Interactions, 0, &actions, Some(&team)), Choice::Nothing);

    assert_eq!(max_index_for_tab(Tab::Dashboard, actions.len(), Some(&team)), 7);
    assert_eq!(max_index_for_tab(Tab::Team, actions.len(), Some(&team)), 4);
    assert_eq!(max_index_for_tab(Tab::Team, actions.len(), None), 0);
    assert_eq!(max_index_for_tab(Tab::Okrs, actions.len(), Some(&team)), 0);

    assert_eq!(current_user(Some(&team)), Some("lead@example.com".to_string()));
    assert_eq!(current_user(Some(&Team::new("Empty"))), None);
    assert_eq!(current_user(None), None);
    assert_eq!(team_name(Some(&team)), "Engineering");
    assert_eq!(team_name(None), "No Team");
}

#[test]
fn email_shape_and_yes_answers() {
    assert!(email_shaped("a@b"));
    assert!(email_shaped("@"));
    assert!(email_shaped("é@é"));
    assert!(!email_shaped(""));
    assert!(!email_shaped("ab"));
    assert!(answer_says_yes("y"));
    assert!(answer_says_yes("Y"));
    assert!(answer_says_yes("yes"));
    assert!(answer_says_yes("YES"));
    assert!(answer_says_yes("Yes"));
    assert!(!answer_says_yes("n"));
    assert!(!answer_says_yes(""));
    assert!(!answer_says_yes("yeah"));
    assert!(!answer_says_yes(" y"));
}

#[test]
fn init_wizard_runs_through_its_steps() {
    let mut state = InitState::default();
    assert_eq!(state.step, InitStep::TeamName);

    type_line(&mut state, "  Acme  ");
    assert_eq!(state.input_buffer, "  Acme  ");
    assert!(!state.submit());
    assert_eq!(state.team_name, "Acme");
    assert_eq!(state.step, InitStep::LeaderEmail);
    assert_eq!(state.input_buffer, "");

    type_line(&mut state, "lead@example.com\n");
    assert!(!state.submit());
    assert_eq!(state.leader_email, "lead@example.com");
    assert_eq!(state.step, InitStep::LeaderName);

    // The name may be left empty.
    assert!(!state.submit());
    assert_eq!(state.leader_name, "");
    assert_eq!(state.step, InitStep::Pincode);

    type_line(&mut state, "1234");
    assert!(!state.submit());
    assert_eq!(state.pincode, "1234");
    assert_eq!(state.step, InitStep::ConfirmPincode);

    type_line(&mut state, "1234");
    assert!(state.submit());
    assert_eq!(state.confirm_pincode, "1234");
    assert_eq!(state.step, InitStep::ConfirmPincode);
    assert_eq!(state.error_message, None);

    let team = state.team();
    assert_eq!(team.name, "Acme");
    assert_eq!(team.leaders, vec!["lead@example.com"]);
    assert!(team.members.is_empty());
    assert!(team.is_member("lead@example.com"));
    assert_eq!(state.leader(), Member::new("lead@example.com"));
}

#[test]
fn init_wizard_refuses_what_breaks_the_rule_of_a_step() {
    let mut state = InitState::default();
    type_line(&mut state, "   ");
    assert!(!state.submit());
    assert_eq!(state.error_message, Some("Team name cannot be empty".to_string()));
    assert_eq!(state.step, InitStep::TeamName);
    assert_eq!(state.input_buffer, "   ");

    // Typing takes the message away; a backspace leaves it.
    state.input_backspace();
    assert_eq!(state.input_buffer, "  ");
    assert_eq!(state.error_message, Some("Team name cannot be empty".to_string()));
    state.input_char('A');
    assert_eq!(state.input_buffer, "  A");
    assert_eq!(state.error_message, None);
    assert!(!state.submit());
    assert_eq!(state.team_name, "A");

    type_line(&mut state, "no-at-sign");
    assert!(!state.submit());
    assert_eq!(state.error_message, Some("Please enter a valid email address".to_string()));
    assert_eq!(state.step, InitStep::LeaderEmail);
    assert_eq!(state.leader_email, "");
    state.input_buffer = "lead@example.com".to_string();
    assert!(!state.submit());

    state.input_buffer = " Lea ".to_string();
    assert!(!state.submit());
    assert_eq!(state.leader_name, "Lea");
    assert_eq!(state.leader(), Member::new("lead@example.com").with_name("Lea"));

    state.input_buffer = " 123 ".to_string();
    assert!(!state.submit());
    assert_eq!(state.error_message, Some("Pincode must be at least 4 characters".to_string()));
    assert_eq!(state.step, InitStep::Pincode);
    state.input_buffer = "12345".to_string();
    assert!(!state.submit());
    assert_eq!(state.pincode, "12345");

    state.input_buffer = "12346".to_string();
    assert!(!state.submit());
    assert_eq!(state.error_message, Some("Pincodes do not match".to_string()));
    assert_eq!(state.input_buffer, "");
    assert_eq!(state.step, InitStep::ConfirmPincode);
    assert_eq!(state.confirm_pincode, "");

    state.input_buffer = "12345".to_string();
    assert!(state.submit());
}

#[test]
fn backspace_on_an_empty_buffer_changes_nothing() {
    let mut state = InitState::default();
    state.input_backspace();
    assert_eq!(state.input_buffer, "");
    state.input_char('é');
    state.input_char('x');
    state.input_backspace();
    assert_eq!(state.input_buffer, "é");
    state.input_backspace();
    state.input_backspace();
    assert_eq!(state.input_buffer, "");
}

#[test]
fn add_member_wizard_checks_the_email_against_the_team() {
    let mut team = Team::new("Engineering");
    team.add_leader("lead@example.com");
    team.add_member("a@example.com");

    let mut state = AddMemberState::default();
    state.input_buffer = "nobody".to_string();
    assert!(!state.submit(Some(&team)));
    assert_eq!(state.error_message, Some("Please enter a valid email address".to_string()));

    for known in ["a@example.com", "lead@example.com", "  a@example.com "] {
        state.input_buffer = known.to_string();
        state.error_message = None;
        assert!(!state.submit(Some(&team)));
        assert_eq!(state.error_message, Some("This person is already a team member".to_string()));
        assert_eq!(state.step, AddMemberStep::Email);
    }

    state.input_char('x');
    assert_eq!(state.error_message, None);
    state.input_buffer = " b@example.com ".to_string();
    assert!(!state.submit(Some(&team)));
    assert_eq!(state.email, "b@example.com");
    assert_eq!(state.step, AddMemberStep::Name);
    assert_eq!(state.input_buffer, "");
    assert_eq!(state.display_name(), "b@example.com");
    assert_eq!(state.member(), Member::new("b@example.com"));

    state.input_buffer = "Bea".to_string();
    assert!(state.submit(Some(&team)));
    assert_eq!(state.name, "Bea");
    assert_eq!(state.display_name(), "Bea");
    assert_eq!(state.member(), Member::new("b@example.com").with_name("Bea"));

    // With no team at hand nobody is known.
    let mut state = AddMemberState::default();
    state.input_buffer = "a@example.com".to_string();
    assert!(!state.submit(None));
    assert_eq!(state.email, "a@example.com");
    state.input_backspace();
    assert_eq!(state.input_buffer, "");
}

#[test]
fn kudos_wizard_gathers_an_appreciation() {
    let mut state = KudosState::default();
    assert!(!state.submit());
    assert_eq!(state.error_message, Some("Please enter a recipient".to_string()));
    for c in " bob ".chars() {
        state.input_char(c);
    }
    assert_eq!(state.error_message, None);
    assert!(!state.submit());
    assert_eq!(state.recipient, "bob");
    assert_eq!(state.step, KudosStep::Note);

    assert!(!state.submit());
    assert_eq!(state.error_message, Some("Please write a note".to_string()));
    state.input_buffer = "Thanks!x".to_string();
    state.input_backspace();
    assert!(!state.submit());
    assert_eq!(state.note, "Thanks!");
    assert_eq!(state.step, KudosStep::Share);

    state.input_buffer = " YES ".to_string();
    assert!(state.submit());
    assert!(state.shared);

    let kudos = state.interaction(Some("alice@example.com"));
    assert_eq!(kudos.kind, InteractionKind::Appreciation);
    assert_eq!(kudos.from, "alice@example.com");
    assert_eq!(kudos.with, vec!["bob"]);
    assert_eq!(kudos.note, "Thanks!");
    assert!(kudos.shared);

    state.input_buffer = "no".to_string();
    assert!(state.submit());
    assert!(!state.shared);
    let kudos = state.interaction(None);
    assert_eq!(kudos.from, "unknown");
    assert!(!kudos.shared);
}

#[test]
fn feedback_wizard_gathers_feedback() {
    let mut state = FeedbackState::default();
    assert!(!state.submit());
    assert_eq!(state.error_message, Some("Please enter a recipient".to_string()));
    state.input_char('b');
    assert_eq!(state.error_message, None);
    assert!(!state.submit());
    assert_eq!(state.recipient, "b");

    assert!(!state.submit());
    assert_eq!(state.error_message, Some("Please write your feedback".to_string()));
    state.input_buffer = "Ask earlier.".to_string();
    assert!(!state.submit());
    assert_eq!(state.step, FeedbackStep::Share);

    state.input_buffer = "y".to_string();
    state.input_char('!');
    state.input_backspace();
    assert!(state.submit());
    assert!(state.shared);
    let feedback = state.interaction(Some("alice@example.com"));
    assert_eq!(feedback.kind, InteractionKind::Feedback);
    assert_eq!(feedback.with, vec!["b"]);
    assert_eq!(feedback.note, "Ask earlier.");
    assert!(feedback.shared);
    assert_eq!(state.interaction(None).from, "unknown");
}

#[test]
fn browsing_shows_the_way_up_and_the_visible_directories_by_name() {
    let found = vec![
        entry("zeta", true),
        entry("Alpha", true),
        entry(".git", true),
        entry("notes.txt", false),
        entry("beta", true),
        entry("alpha", true),
        entry("Beta", true),
    ];
    let state = NavigateDirState::new("/here", Some("/".to_string()), &found);
    assert_eq!(state.current_dir, "/here");
    assert_eq!(names(&state), vec!["..", "Alpha", "alpha", "beta", "Beta", "zeta"]);
    assert_eq!(state.entries[0].path, "/");
    assert!(state.entries[0].is_dir);
    assert_eq!(state.entries[1].path, "/here/Alpha");
    assert_eq!(state.selected_index, 0);
    assert_eq!(state.error_message, None);
    assert_eq!(state.input_buffer, "");
    assert!(!state.input_mode);

    // At the top there is no way up.
    let state = NavigateDirState::new("/", None, &vec![entry("b", true), entry("a", true)]);
    assert_eq!(names(&state), vec!["a", "b"]);
    let state = NavigateDirState::new("/", None, &vec![]);
    assert!(state.entries.is_empty());
}

#[test]
fn browsing_orders_names_by_their_bytes_in_lower_case() {
    let found = vec![
        entry("b", true),
        entry("ab", true),
        entry("a", true),
        entry("B2", true),
        entry("é", true),
        entry("z", true),
        entry("", true),
    ];
    let state = NavigateDirState::new("/here", None, &found);
    assert_eq!(names(&state), vec!["", "a", "ab", "b", "B2", "z", "é"]);
}

#[test]
fn browsing_moves_and_enters() {
    let found = vec![entry("a", true), entry("b", true)];
    let mut state = NavigateDirState::new("/here", Some("/".to_string()), &found);
    state.select_previous();
    assert_eq!(state.selected_index, 2);
    state.select_next();
    assert_eq!(state.selected_index, 0);
    state.select_next();
    assert_eq!(state.selected_index, 1);

    state.error_message = Some("Invalid directory path".to_string());
    assert!(state.enter_selected());
    assert_eq!(state.current_dir, "/here/a");
    assert_eq!(state.error_message, None);
    state.refresh_entries(Some("/here".to_string()), &vec![entry("inner", true)]);
    assert_eq!(names(&state), vec!["..", "inner"]);
    assert_eq!(state.selected_index, 0);
    assert_eq!(state.current_dir, "/here/a");

    // An index past the entries, or an entry that is a file, enters nothing.
    state.selected_index = 9;
    assert!(!state.enter_selected());
    assert_eq!(state.current_dir, "/here/a");
    state.entries = vec![entry("file", false)];
    state.selected_index = 0;
    assert!(!state.enter_selected());
    assert_eq!(state.current_dir, "/here/a");

    let mut empty = NavigateDirState::new("/", None, &vec![]);
    empty.select_next();
    empty.select_previous();
    assert_eq!(empty.selected_index, 0);
    assert!(!empty.enter_selected());
}

#[test]
fn browsing_takes_a_typed_path() {
    let mut state = NavigateDirState::new("/here", None, &vec![entry("a", true)]);
    // While browsing, keys of the path do nothing.
    state.input_char('x');
    state.input_backspace();
    assert_eq!(state.input_buffer, "");

    state.error_message = Some("earlier".to_string());
    state.toggle_input();
    assert!(state.input_mode);
    assert_eq!(state.input_buffer, "/here");
    assert_eq!(state.error_message, None);
    state.input_char('/');
    state.input_char('b');
    state.input_char('c');
    state.input_backspace();
    assert_eq!(state.input_buffer, "/here/b");

    assert!(!state.enter_typed(false));
    assert_eq!(state.error_message, Some("Invalid directory path".to_string()));
    assert_eq!(state.current_dir, "/here");
    assert!(state.input_mode);
    assert_eq!(state.input_buffer, "/here/b");
    state.input_char('!');
    assert_eq!(state.error_message, None);
    state.input_backspace();

    assert!(state.enter_typed(true));
    assert_eq!(state.current_dir, "/here/b");
    assert_eq!(state.input_buffer, "");
    assert!(!state.input_mode);
    assert_eq!(state.error_message, None);

    // Leaving the typing keeps what was typed so far out of the way.
    state.toggle_input();
    state.input_char('x');
    state.toggle_input();
    assert!(!state.input_mode);
    assert_eq!(state.input_buffer, "/here/bx");
    assert_eq!(state.current_dir, "/here/b");
}
