//! The state of the terminal wizards: what each step asks, what it accepts,
//! and where it leads.

pub mod navigate;
pub mod selection;
pub mod states;
pub mod steps;
pub mod tabs;

pub use navigate::NavigateDirState;
pub use states::{AddMemberState, FeedbackState, InitState, KudosState};
pub use steps::{AddMemberStep, FeedbackStep, InitStep, KudosStep};
pub use tabs::{
    build_quick_actions, InteractionsSubTab, InteractionsView, QuickAction, QuickActionKind, Tab,
};
