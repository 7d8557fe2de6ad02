//! Moving a selection through a list, and what selecting an item starts.

use vstd::prelude::*;

use crate::models::interaction::InteractionKind;
use crate::models::team::{Team, TeamView};
use crate::wizard::states::team_view;
use crate::wizard::tabs::{
    InteractionsSubTab, InteractionsView, QuickAction, QuickActionKind, Tab,
};

verus! {

/// The index selected after a move down in a list of `count` items: the
/// one after, and the first from the last. In an empty list the index
/// stays.
pub open spec fn index_after(index: int, count: int) -> int {
    if count <= 0 {
        index
    } else {
        (index + 1) % count
    }
}

/// The index selected after a move up in a list of `count` items: the one
/// before, and the last from the first. In an empty list the index stays.
pub open spec fn index_before(index: int, count: int) -> int {
    if count <= 0 {
        index
    } else if index == 0 {
        count - 1
    } else {
        index - 1
    }
}

/// The index selected after a move down.
pub fn select_after(index: usize, count: usize) -> (next: usize)
    requires
        count > 0 ==> index < usize::MAX,
    ensures
        next == index_after(index as int, count as int),
{
    if count > 0 {
        (index + 1) % count
    } else {
        index
    }
}

/// The index selected after a move up.
pub fn select_before(index: usize, count: usize) -> (previous: usize)
    ensures
        previous == index_before(index as int, count as int),
{
    if count > 0 {
        if index == 0 {
            count - 1
        } else {
            index - 1
        }
    } else {
        index
    }
}

/// A selection that stands on an item stays on an item, whichever way it
/// moves.
pub proof fn lemma_selection_stays_in_range(index: int, count: int)
    requires
        0 <= index < count,
    ensures
        0 <= index_after(index, count) < count,
        0 <= index_before(index, count) < count,
{
}

/// Moving down and then up, or up and then down, comes back to where the
/// selection stood.
pub proof fn lemma_selection_moves_undo(index: int, count: int)
    requires
        0 <= index < count,
    ensures
        index_before(index_after(index, count), count) == index,
        index_after(index_before(index, count), count) == index,
{
    if index + 1 < count {
        assert((index + 1) % count == index + 1) by (nonlinear_arith)
            requires
                0 <= index + 1 < count,
        ;
    } else {
        assert((index + 1) % count == 0) by (nonlinear_arith)
            requires
                index + 1 == count,
                count > 0,
        ;
    }
    if index == 0 {
        assert((count - 1 + 1) % count == 0) by (nonlinear_arith)
            requires
                count > 0,
        ;
    } else {
        assert((index - 1 + 1) % count == index) by (nonlinear_arith)
            requires
                0 <= index < count,
        ;
    }
}

/// The number of items that can be selected on a tab: the quick actions
/// on the dashboard; on the team tab, with a team at hand, its leaders and
/// members and the line that adds a member; nothing elsewhere.
pub open spec fn item_count(tab: Tab, quick_actions: int, team: Option<TeamView>) -> int {
    match tab {
        Tab::Dashboard => quick_actions,
        Tab::Team => match team {
            Some(team) => (team.members.len() + team.leaders.len() + 1) as int,
            None => 0,
        },
        _ => 0,
    }
}

/// The number of items that can be selected on a tab.
pub fn max_index_for_tab(tab: Tab, quick_actions: usize, team: Option<&Team>) -> (count: usize)
    requires
        item_count(tab, quick_actions as int, team_view(team)) <= usize::MAX,
    ensures
        count == item_count(tab, quick_actions as int, team_view(team)),
{
    match tab {
        Tab::Dashboard => quick_actions,
        Tab::Team => match team {
            Some(team) => {
                team.members.len() + team.leaders.len() + 1
            },
            None => 0,
        },
        _ => 0,
    }
}

/// What selecting an item starts.
#[derive(Debug, Clone, Copy, PartialEq, Eq, Structural)]
pub enum Choice {
    /// Nothing happens.
    Nothing,
    /// The wizard that sets up a team.
    StartInit,
    /// The browsing for a directory.
    StartNavigateDir,
    /// The wizard that gives kudos.
    StartKudos,
    /// The wizard that gives feedback.
    StartFeedback,
    /// A message that this kind of interaction cannot be logged yet.
    NotImplemented,
    /// A switch to another tab, with its first item selected.
    ShowTab(Tab),
    /// The wizard that adds a member.
    StartAddMember,
}

/// What a quick action of the given kind starts.
pub open spec fn choice_of_action(kind: QuickActionKind) -> Choice {
    match kind {
        QuickActionKind::InitTeam => Choice::StartInit,
        QuickActionKind::ChangeDirectory => Choice::StartNavigateDir,
        QuickActionKind::LogInteraction(InteractionKind::Appreciation) => Choice::StartKudos,
        QuickActionKind::LogInteraction(InteractionKind::Feedback) => Choice::StartFeedback,
        QuickActionKind::LogInteraction(_) => Choice::NotImplemented,
        QuickActionKind::ViewTeam => Choice::ShowTab(Tab::Team),
        QuickActionKind::ViewOkrs => Choice::ShowTab(Tab::Okrs),
    }
}

/// What selecting the item `selected` on `tab` starts. On the dashboard it
/// is what the quick action at that place starts; on the team tab, the
/// line after the last person adds a member; anything else starts nothing.
pub open spec fn choice_at(
    tab: Tab,
    selected: int,
    quick_actions: Seq<QuickActionKind>,
    team: Option<TeamView>,
) -> Choice {
    match tab {
        Tab::Dashboard => if 0 <= selected < quick_actions.len() {
            choice_of_action(quick_actions[selected])
        } else {
            Choice::Nothing
        },
        Tab::Team => match team {
            Some(team) => if selected == team.leaders.len() + team.members.len() {
                Choice::StartAddMember
            } else {
                Choice::Nothing
            },
            None => Choice::Nothing,
        },
        _ => Choice::Nothing,
    }
}

/// What selecting the item `selected` on `tab` starts.
pub fn select_item(
    tab: Tab,
    selected: usize,
    quick_actions: &Vec<QuickAction>,
    team: Option<&Team>,
) -> (choice: Choice)
    ensures
        choice == choice_at(
            tab,
            selected as int,
            crate::wizard::tabs::kinds_of(quick_actions@),
            team_view(team),
        ),
{
    match tab {
        Tab::Dashboard => {
            if selected < quick_actions.len() {
                match quick_actions[selected].kind {
                    QuickActionKind::InitTeam => Choice::StartInit,
                    QuickActionKind::ChangeDirectory => Choice::StartNavigateDir,
                    QuickActionKind::LogInteraction(kind) => match kind {
                        InteractionKind::Appreciation => Choice::StartKudos,
                        InteractionKind::Feedback => Choice::StartFeedback,
                        _ => Choice::NotImplemented,
                    },
                    QuickActionKind::ViewTeam => Choice::ShowTab(Tab::Team),
                    QuickActionKind::ViewOkrs => Choice::ShowTab(Tab::Okrs),
                }
            } else {
                Choice::Nothing
            }
        },
        Tab::Team => match team {
            Some(team) => {
                let leaders = team.leaders.len();
                let members = team.members.len();
                if selected >= leaders && selected - leaders == members {
                    Choice::StartAddMember
                } else {
                    Choice::Nothing
                }
            },
            None => Choice::Nothing,
        },
        _ => Choice::Nothing,
    }
}

impl InteractionsView {
    /// The other side of the feed.
    pub fn toggled(&self) -> (view: InteractionsView)
        ensures
            view != *self,
    {
        match self {
            InteractionsView::Sent => InteractionsView::Received,
            InteractionsView::Received => InteractionsView::Sent,
        }
    }
}

impl InteractionsSubTab {
    /// The other sub-tab.
    pub fn next(&self) -> (tab: InteractionsSubTab)
        ensures
            tab != *self,
    {
        match self {
            InteractionsSubTab::Kudos => InteractionsSubTab::Feedback,
            InteractionsSubTab::Feedback => InteractionsSubTab::Kudos,
        }
    }
}

/// The person at the store: the first leader of the team at hand.
pub open spec fn first_leader(team: Option<TeamView>) -> Option<Seq<char>> {
    match team {
        Some(team) => if team.leaders.len() > 0 {
            Some(team.leaders[0])
        } else {
            None
        },
        None => None,
    }
}

/// The person at the store: the first leader of the team at hand, if
/// there is a team and it has a leader.
pub fn current_user(team: Option<&Team>) -> (user: Option<String>)
    ensures
        crate::text::opt_text(user) == first_leader(team_view(team)),
{
    match team {
        Some(team) => {
            if team.leaders.len() > 0 {
                Some(team.leaders[0].clone())
            } else {
                None
            }
        },
        None => None,
    }
}

/// The name shown for the team at hand, and `No Team` where there is none.
pub fn team_name(team: Option<&Team>) -> (name: &str)
    ensures
        name@ == (match team_view(team) {
            Some(team) => team.name,
            None => "No Team"@,
        }),
{
    match team {
        Some(team) => team.name.as_str(),
        None => "No Team",
    }
}

} // verus!
