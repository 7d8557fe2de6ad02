//! The configuration of a team: independent blocks, each of which may be
//! absent.

use vstd::prelude::*;

use crate::text::opt_text;

verus! {

/// Where generated documents are published.
#[derive(Debug, Clone, PartialEq, Default)]
pub struct PublishConfig {
    /// Where the manifesto is published.
    pub manifesto: Option<String>,
    /// Where the vision is published.
    pub vision: Option<String>,
    /// Where the objectives are published.
    pub okrs: Option<String>,
}

/// Where notifications are sent.
#[derive(Debug, Clone, PartialEq, Default)]
pub struct WebhookConfig {
    /// The address of a Discord webhook.
    pub discord: Option<String>,
    /// The address of a Slack webhook.
    pub slack: Option<String>,
    /// The settings of a Signal bridge.
    pub signal: Option<String>,
}

/// Whether and against what proposed changes are checked.
#[derive(Debug, Clone, PartialEq, Default)]
pub struct LintingConfig {
    /// Whether the check is switched on.
    pub enabled: bool,
    /// The branch that proposed changes aim at.
    pub target_branch: Option<String>,
}

/// Where backups go.
#[derive(Debug, Clone, PartialEq, Default)]
pub struct BackupConfig {
    /// The protected branch that holds the backups.
    pub protected_branch: Option<String>,
}

/// The configuration of a team. A block that is `None` is absent from the
/// stored document altogether.
#[derive(Debug, Clone, PartialEq)]
pub struct TeamConfig {
    pub publish: Option<PublishConfig>,
    pub webhooks: Option<WebhookConfig>,
    pub linting: Option<LintingConfig>,
    pub backup: Option<BackupConfig>,
}

pub struct PublishConfigView {
    pub manifesto: Option<Seq<char>>,
    pub vision: Option<Seq<char>>,
    pub okrs: Option<Seq<char>>,
}

pub struct WebhookConfigView {
    pub discord: Option<Seq<char>>,
    pub slack: Option<Seq<char>>,
    pub signal: Option<Seq<char>>,
}

pub struct LintingConfigView {
    pub enabled: bool,
    pub target_branch: Option<Seq<char>>,
}

pub struct BackupConfigView {
    pub protected_branch: Option<Seq<char>>,
}

/// What a configuration is, as mathematical values.
pub struct TeamConfigView {
    pub publish: Option<PublishConfigView>,
    pub webhooks: Option<WebhookConfigView>,
    pub linting: Option<LintingConfigView>,
    pub backup: Option<BackupConfigView>,
}

impl View for PublishConfig {
    type V = PublishConfigView;

    open spec fn view(&self) -> PublishConfigView {
        PublishConfigView {
            manifesto: opt_text(self.manifesto),
            vision: opt_text(self.vision),
            okrs: opt_text(self.okrs),
        }
    }
}

impl View for WebhookConfig {
    type V = WebhookConfigView;

    open spec fn view(&self) -> WebhookConfigView {
        WebhookConfigView {
            discord: opt_text(self.discord),
            slack: opt_text(self.slack),
            signal: opt_text(self.signal),
        }
    }
}

impl View for LintingConfig {
    type V = LintingConfigView;

    open spec fn view(&self) -> LintingConfigView {
        LintingConfigView { enabled: self.enabled, target_branch: opt_text(self.target_branch) }
    }
}

impl View for BackupConfig {
    type V = BackupConfigView;

    open spec fn view(&self) -> BackupConfigView {
        BackupConfigView { protected_branch: opt_text(self.protected_branch) }
    }
}

/// The view of an optional block.
pub open spec fn opt_view<T: View>(block: Option<T>) -> Option<T::V> {
    match block {
        Some(b) => Some(b@),
        None => None,
    }
}

impl View for TeamConfig {
    type V = TeamConfigView;

    open spec fn view(&self) -> TeamConfigView {
        TeamConfigView {
            publish: opt_view(self.publish),
            webhooks: opt_view(self.webhooks),
            linting: opt_view(self.linting),
            backup: opt_view(self.backup),
        }
    }
}

impl TeamConfigView {
    /// The configuration with no block present.
    pub open spec fn empty() -> TeamConfigView {
        TeamConfigView { publish: None, webhooks: None, linting: None, backup: None }
    }

    /// The configuration a new team starts with: the three documents are
    /// published at the top of the tree, changes are checked against the
    /// branch `interactions`, and backups go to `main`. No webhooks.
    pub open spec fn defaults() -> TeamConfigView {
        TeamConfigView {
            publish: Some(
                PublishConfigView {
                    manifesto: Some("/MANIFESTO.md"@),
                    vision: Some("/VISION.md"@),
                    okrs: Some("/okrs/"@),
                },
            ),
            webhooks: None,
            linting: Some(
                LintingConfigView { enabled: true, target_branch: Some("interactions"@) },
            ),
            backup: Some(BackupConfigView { protected_branch: Some("main"@) }),
        }
    }
}

impl Default for TeamConfig {
    fn default() -> (config: TeamConfig)
        ensures
            config@ == TeamConfigView::empty(),
    {
        TeamConfig { publish: None, webhooks: None, linting: None, backup: None }
    }
}

impl TeamConfig {
    /// A configuration with no block present.
    pub fn new() -> (config: TeamConfig)
        ensures
            config@ == TeamConfigView::empty(),
    {
        TeamConfig { publish: None, webhooks: None, linting: None, backup: None }
    }

    /// The configuration a new team starts with.
    pub fn with_defaults() -> (config: TeamConfig)
        ensures
            config@ == TeamConfigView::defaults(),
    {
        TeamConfig {
            publish: Some(
                PublishConfig {
                    manifesto: Some("/MANIFESTO.md".to_owned()),
                    vision: Some("/VISION.md".to_owned()),
                    okrs: Some("/okrs/".to_owned()),
                },
            ),
            webhooks: None,
            linting: Some(
                LintingConfig { enabled: true, target_branch: Some("interactions".to_owned()) },
            ),
            backup: Some(BackupConfig { protected_branch: Some("main".to_owned()) }),
        }
    }

    /// The same configuration with the publish block replaced.
    pub fn with_publish(self, publish: PublishConfig) -> (config: TeamConfig)
        ensures
            config@ == (TeamConfigView { publish: Some(publish@), ..self@ }),
    {
        let mut config = self;
        config.publish = Some(publish);
        config
    }

    /// The same configuration with the linting block replaced.
    pub fn with_linting(self, linting: LintingConfig) -> (config: TeamConfig)
        ensures
            config@ == (TeamConfigView { linting: Some(linting@), ..self@ }),
    {
        let mut config = self;
        config.linting = Some(linting);
        config
    }

    /// The same configuration with the backup block replaced.
    pub fn with_backup(self, backup: BackupConfig) -> (config: TeamConfig)
        ensures
            config@ == (TeamConfigView { backup: Some(backup@), ..self@ }),
    {
        let mut config = self;
        config.backup = Some(backup);
        config
    }
}

} // verus!
