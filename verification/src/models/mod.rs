//! The entities that the store keeps: plain data and small derivations.

pub mod config;
pub mod interaction;
pub mod member;
pub mod okr;
pub mod team;

pub use config::{
    BackupConfig, BackupConfigView, LintingConfig, LintingConfigView, PublishConfig,
    PublishConfigView, TeamConfig, TeamConfigView, WebhookConfig, WebhookConfigView,
};
pub use interaction::{Interaction, InteractionKind, InteractionView, Timestamp};
pub use member::{Member, MemberView};
pub use okr::{KeyResult, KeyResultView, Objective, ObjectiveView, OkrVisibility, FULL_PROGRESS};
pub use team::{Team, TeamView};
