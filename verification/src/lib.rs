//! Records of a team and of the people in it, laid out as one document per
//! file under a shared and a private directory tree, together with the
//! pincode credentials that authenticate a member.
//!
//! The library computes and decides; it never touches the disk. A caller
//! hands it what was read and carries out the file actions it gives back.
//!
//! - `models` holds the entities: teams, members, configurations,
//!   interactions and objectives.
//! - `auth` makes and verifies salted pincode hashes.
//! - `storage` knows where every record lives, what a save has to write,
//!   and in what order a feed is shown.
//! - `wizard` holds the state of the terminal wizards and the rules of
//!   their steps.
//! - `text` and `hexfmt` are the small operations on text that the rest
//!   builds on, and `error` is what an operation fails with.

pub mod auth;
pub mod error;
pub mod hexfmt;
pub mod models;
pub mod storage;
pub mod text;
pub mod wizard;

pub use auth::{Credentials, MemberCredentials};
pub use error::Error;
pub use models::{
    BackupConfig, Interaction, InteractionKind, KeyResult, LintingConfig, Member, Objective,
    OkrVisibility, PublishConfig, Team, TeamConfig, Timestamp, WebhookConfig,
};
pub use storage::actions::StoreAction;
pub use storage::feed::{DirEntry, Stored};
pub use storage::{TeamSetup, TeamStorage};
