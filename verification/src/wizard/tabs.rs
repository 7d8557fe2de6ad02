//! The tabs of the terminal screen and the quick actions of its dashboard.

use vstd::prelude::*;

use crate::models::interaction::InteractionKind;

verus! {

/// The sub-tabs of the interactions tab.
#[derive(Debug, Clone, Copy, PartialEq, Eq, Structural)]
pub enum InteractionsSubTab {
    Kudos,
    Feedback,
}

impl Default for InteractionsSubTab {
    fn default() -> (tab: InteractionsSubTab)
        ensures
            tab == InteractionsSubTab::Kudos,
    {
        InteractionsSubTab::Kudos
    }
}

impl InteractionsSubTab {
    /// The title that `title` returns.
    pub open spec fn spec_title(self) -> Seq<char> {
        match self {
            InteractionsSubTab::Kudos => "Kudos"@,
            InteractionsSubTab::Feedback => "Feedback"@,
        }
    }

    /// The title shown for the sub-tab.
    pub fn title(&self) -> (title: &'static str)
        ensures
            title@ == self.spec_title(),
    {
        match self {
            InteractionsSubTab::Kudos => "Kudos",
            InteractionsSubTab::Feedback => "Feedback",
        }
    }

    /// Every sub-tab, in the order shown.
    pub fn all() -> (tabs: &'static [InteractionsSubTab])
        ensures
            tabs@ == seq![InteractionsSubTab::Kudos, InteractionsSubTab::Feedback],
    {
        &[InteractionsSubTab::Kudos, InteractionsSubTab::Feedback]
    }
}

/// Which side of a feed the interactions tab shows.
#[derive(Debug, Clone, Copy, PartialEq, Eq, Structural)]
pub enum InteractionsView {
    Sent,
    Received,
}

impl Default for InteractionsView {
    fn default() -> (view: InteractionsView)
        ensures
            view == InteractionsView::Sent,
    {
        InteractionsView::Sent
    }
}

/// The main tabs.
#[derive(Debug, Clone, Copy, PartialEq, Eq, Structural)]
pub enum Tab {
    Dashboard,
    Team,
    Interactions,
    Okrs,
    Settings,
}

impl Default for Tab {
    fn default() -> (tab: Tab)
        ensures
            tab == Tab::Dashboard,
    {
        Tab::Dashboard
    }
}

impl Tab {
    /// The title that `title` returns.
    pub open spec fn spec_title(self) -> Seq<char> {
        match self {
            Tab::Dashboard => "Dashboard"@,
            Tab::Team => "Team"@,
            Tab::Interactions => "Interactions"@,
            Tab::Okrs => "OKRs"@,
            Tab::Settings => "Settings"@,
        }
    }

    /// Every tab, in the order shown.
    pub open spec fn spec_all() -> Seq<Tab> {
        seq![Tab::Dashboard, Tab::Team, Tab::Interactions, Tab::Okrs, Tab::Settings]
    }

    /// The place of the tab among all tabs.
    pub open spec fn position(self) -> int {
        match self {
            Tab::Dashboard => 0,
            Tab::Team => 1,
            Tab::Interactions => 2,
            Tab::Okrs => 3,
            Tab::Settings => 4,
        }
    }

    /// The title shown for the tab.
    pub fn title(&self) -> (title: &'static str)
        ensures
            title@ == self.spec_title(),
    {
        match self {
            Tab::Dashboard => "Dashboard",
            Tab::Team => "Team",
            Tab::Interactions => "Interactions",
            Tab::Okrs => "OKRs",
            Tab::Settings => "Settings",
        }
    }

    /// Every tab, in the order shown.
    pub fn all() -> (tabs: &'static [Tab])
        ensures
            tabs@ == Tab::spec_all(),
    {
        &[Tab::Dashboard, Tab::Team, Tab::Interactions, Tab::Okrs, Tab::Settings]
    }

    /// The tab to the right, and the first tab after the last.
    pub fn next(&self) -> (tab: Tab)
        ensures
            tab == Tab::spec_all()[(self.position() + 1) % 5],
    {
        match self {
            Tab::Dashboard => Tab::Team,
            Tab::Team => Tab::Interactions,
            Tab::Interactions => Tab::Okrs,
            Tab::Okrs => Tab::Settings,
            Tab::Settings => Tab::Dashboard,
        }
    }

    /// The tab to the left, and the last tab before the first.
    pub fn previous(&self) -> (tab: Tab)
        ensures
            tab == Tab::spec_all()[(self.position() + 4) % 5],
    {
        match self {
            Tab::Dashboard => Tab::Settings,
            Tab::Team => Tab::Dashboard,
            Tab::Interactions => Tab::Team,
            Tab::Okrs => Tab::Interactions,
            Tab::Settings => Tab::Okrs,
        }
    }
}

/// What a quick action of the dashboard does.
#[derive(Debug, Clone, Copy, PartialEq, Eq, Structural)]
pub enum QuickActionKind {
    InitTeam,
    ChangeDirectory,
    LogInteraction(InteractionKind),
    ViewTeam,
    ViewOkrs,
}

/// A quick action of the dashboard.
#[derive(Debug, Clone)]
pub struct QuickAction {
    /// The line shown for the action.
    pub label: &'static str,
    /// What the action is for.
    pub description: &'static str,
    /// What the action does.
    pub kind: QuickActionKind,
}

/// The kinds of the quick actions of a dashboard, in the order shown: to
/// set up a team comes first, and only where the store is not initialized.
pub open spec fn quick_action_kinds(is_initialized: bool) -> Seq<QuickActionKind> {
    let always = seq![
        QuickActionKind::ChangeDirectory,
        QuickActionKind::LogInteraction(InteractionKind::Appreciation),
        QuickActionKind::LogInteraction(InteractionKind::Feedback),
        QuickActionKind::LogInteraction(InteractionKind::CheckIn),
        QuickActionKind::ViewTeam,
        QuickActionKind::ViewOkrs,
    ];
    if is_initialized {
        always
    } else {
        seq![QuickActionKind::InitTeam] + always
    }
}

impl QuickAction {
    /// The label that goes with a kind of action.
    pub open spec fn label_of(kind: QuickActionKind) -> Seq<char> {
        match kind {
            QuickActionKind::InitTeam => "Initialize Team"@,
            QuickActionKind::ChangeDirectory => "Open Folder"@,
            QuickActionKind::LogInteraction(InteractionKind::Appreciation) => "Give Kudos"@,
            QuickActionKind::LogInteraction(InteractionKind::Feedback) => "Share Feedback"@,
            QuickActionKind::LogInteraction(_) => "Log Check-in"@,
            QuickActionKind::ViewTeam => "View Team"@,
            QuickActionKind::ViewOkrs => "View OKRs"@,
        }
    }

    /// The description that goes with a kind of action.
    pub open spec fn description_of(kind: QuickActionKind) -> Seq<char> {
        match kind {
            QuickActionKind::InitTeam => "Set up a new team in this directory"@,
            QuickActionKind::ChangeDirectory => "Navigate to a different directory"@,
            QuickActionKind::LogInteraction(InteractionKind::Appreciation) =>
                "Appreciate someone's work"@,
            QuickActionKind::LogInteraction(InteractionKind::Feedback) =>
                "Provide constructive feedback"@,
            QuickActionKind::LogInteraction(_) => "Record a check-in conversation"@,
            QuickActionKind::ViewTeam => "See team members and manifesto"@,
            QuickActionKind::ViewOkrs => "Check objectives and progress"@,
        }
    }

    /// Whether the label and the description are those of the kind.
    pub open spec fn wf(&self) -> bool {
        &&& self.label@ == QuickAction::label_of(self.kind)
        &&& self.description@ == QuickAction::description_of(self.kind)
    }

    /// The quick action of the given kind.
    pub fn of_kind(kind: QuickActionKind) -> (action: QuickAction)
        ensures
            action.kind == kind,
            action.wf(),
    {
        let (label, description) = match kind {
            QuickActionKind::InitTeam => ("Initialize Team", "Set up a new team in this directory"),
            QuickActionKind::ChangeDirectory => ("Open Folder", "Navigate to a different directory"),
            QuickActionKind::LogInteraction(InteractionKind::Appreciation) => (
                "Give Kudos",
                "Appreciate someone's work",
            ),
            QuickActionKind::LogInteraction(InteractionKind::Feedback) => (
                "Share Feedback",
                "Provide constructive feedback",
            ),
            QuickActionKind::LogInteraction(_) => ("Log Check-in", "Record a check-in conversation"),
            QuickActionKind::ViewTeam => ("View Team", "See team members and manifesto"),
            QuickActionKind::ViewOkrs => ("View OKRs", "Check objectives and progress"),
        };
        QuickAction { label, description, kind }
    }
}

/// The kinds of a list of quick actions, in order.
pub open spec fn kinds_of(actions: Seq<QuickAction>) -> Seq<QuickActionKind> {
    Seq::new(actions.len(), |i: int| actions[i].kind)
}

/// The quick actions of a dashboard, in the order shown.
pub fn build_quick_actions(is_initialized: bool) -> (actions: Vec<QuickAction>)
    ensures
        kinds_of(actions@) == quick_action_kinds(is_initialized),
        forall|i: int| 0 <= i < actions@.len() ==> (#[trigger] actions@[i]).wf(),
{
    let mut actions: Vec<QuickAction> = Vec::new();
    if !is_initialized {
        actions.push(QuickAction::of_kind(QuickActionKind::InitTeam));
    }
    actions.push(QuickAction::of_kind(QuickActionKind::ChangeDirectory));
    actions.push(
        QuickAction::of_kind(QuickActionKind::LogInteraction(InteractionKind::Appreciation)),
    );
    actions.push(QuickAction::of_kind(QuickActionKind::LogInteraction(InteractionKind::Feedback)));
    actions.push(QuickAction::of_kind(QuickActionKind::LogInteraction(InteractionKind::CheckIn)));
    actions.push(QuickAction::of_kind(QuickActionKind::ViewTeam));
    actions.push(QuickAction::of_kind(QuickActionKind::ViewOkrs));
    actions
}

} // verus!
