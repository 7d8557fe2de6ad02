//! The store: which files and directories hold which record, and what has
//! to be written where.
//!
//! The store works on paths and documents and leaves the disk to its
//! caller: a save gives back the actions to carry out, in order, and what a
//! caller has read is handed in as plain values.

pub mod actions;
pub mod disk;
pub mod feed;
pub mod layout;

use vstd::prelude::*;
use vstd::utf8::*;

use crate::auth::{is_pincode_too_short, pincode_long_enough, MemberCredentials};
use crate::error::Error;
use crate::models::interaction::Interaction;
use crate::models::member::Member;
use actions::{action_views, create_dirs, fan_out, write_into, ActionView, StoreAction};
use layout::{document_file_name, join, Feed};

verus! {

/// What setting up a team asks for: the steps to carry out on the disk,
/// and then the credentials of the leader, which are saved once the steps
/// are done. Where the pincode was refused there are no credentials: the
/// steps are still carried out, and the refusal is reported after them.
#[derive(Debug)]
pub struct TeamSetup {
    /// The steps that make the directories and save the configuration, the
    /// team record and the profile of the leader, in that order.
    pub steps: Vec<StoreAction>,
    /// The new credentials of the leader, or why there are none.
    pub credentials: Result<MemberCredentials, Error>,
}

/// The steps that set up a team under `root`: make every directory of the
/// store, save the configuration, save the team record, and save the
/// profile of the leader.
pub open spec fn setup_steps(
    root: Seq<char>,
    team_document: Seq<char>,
    config_document: Seq<char>,
    leader_email: Seq<char>,
    leader_document: Seq<char>,
) -> Seq<ActionView> {
    create_dirs(layout::skeleton(root)) + write_into(
        layout::team_dir(root),
        "config.yaml"@,
        config_document,
    ) + write_into(layout::team_dir(root), "config.yaml"@, team_document) + write_into(
        layout::member_dir(root, leader_email),
        "profile.yaml"@,
        leader_document,
    )
}

/// The store under one root directory.
pub struct TeamStorage {
    root: String,
}

impl View for TeamStorage {
    type V = Seq<char>;

    /// The path of the root directory.
    closed spec fn view(&self) -> Seq<char> {
        self.root@
    }
}

impl TeamStorage {
    /// The store under the directory `root`.
    pub fn new(root: &str) -> (storage: TeamStorage)
        ensures
            storage@ == root@,
    {
        TeamStorage { root: root.to_owned() }
    }

    /// The root directory.
    pub fn root(&self) -> (root: &str)
        ensures
            root@ == self@,
    {
        self.root.as_str()
    }

    /// The shared tree.
    pub fn team_dir(&self) -> (dir: String)
        ensures
            dir@ == layout::team_dir(self@),
    {
        join(self.root.as_str(), ".team")
    }

    /// The private tree.
    pub fn personal_dir(&self) -> (dir: String)
        ensures
            dir@ == layout::personal_dir(self@),
    {
        join(self.root.as_str(), ".personal")
    }

    /// The directory that holds one directory for each member.
    pub fn members_dir(&self) -> (dir: String)
        ensures
            dir@ == layout::members_dir(self@),
    {
        join(self.team_dir().as_str(), "members")
    }

    /// The directory of the member `email`.
    pub fn member_dir(&self, email: &str) -> (dir: String)
        ensures
            dir@ == layout::member_dir(self@, email@),
    {
        join(self.members_dir().as_str(), email)
    }

    /// The feed of interactions: that of the team where `shared`, else the
    /// private one.
    pub fn interactions_dir(&self, shared: bool) -> (dir: String)
        ensures
            dir@ == layout::interactions_dir(self@, shared),
    {
        if shared {
            join(self.team_dir().as_str(), "team/interactions")
        } else {
            join(self.personal_dir().as_str(), "interactions")
        }
    }

    /// The private feed of the appreciations sent from this store.
    pub fn sent_kudos_dir(&self) -> (dir: String)
        ensures
            dir@ == layout::sent_dir(self@, Feed::Kudos),
    {
        join(self.personal_dir().as_str(), "kudos/sent")
    }

    /// The shared feed of the appreciations that `email` has received.
    pub fn received_kudos_dir(&self, email: &str) -> (dir: String)
        ensures
            dir@ == layout::received_dir(self@, Feed::Kudos, email@),
    {
        join(self.member_dir(email).as_str(), "kudos")
    }

    /// The private feed of the feedback sent from this store.
    pub fn sent_feedback_dir(&self) -> (dir: String)
        ensures
            dir@ == layout::sent_dir(self@, Feed::Feedback),
    {
        join(self.personal_dir().as_str(), "feedback/sent")
    }

    /// The shared feed of the feedback that `email` has received.
    pub fn received_feedback_dir(&self, email: &str) -> (dir: String)
        ensures
            dir@ == layout::received_dir(self@, Feed::Feedback, email@),
    {
        join(self.member_dir(email).as_str(), "feedback")
    }

    /// The file of the team record.
    pub fn team_file(&self) -> (file: String)
        ensures
            file@ == layout::team_file(self@),
    {
        join(self.team_dir().as_str(), "config.yaml")
    }

    /// The file of the configuration: the same file as that of the team
    /// record.
    pub fn config_file(&self) -> (file: String)
        ensures
            file@ == layout::team_file(self@),
    {
        join(self.team_dir().as_str(), "config.yaml")
    }

    /// The file of the manifesto.
    pub fn manifesto_file(&self) -> (file: String)
        ensures
            file@ == layout::manifesto_file(self@),
    {
        join(self.team_dir().as_str(), "manifesto.yaml")
    }

    /// The file of the vision.
    pub fn vision_file(&self) -> (file: String)
        ensures
            file@ == layout::vision_file(self@),
    {
        join(self.team_dir().as_str(), "vision.yaml")
    }

    /// The file of the profile of the member `email`.
    pub fn profile_file(&self, email: &str) -> (file: String)
        ensures
            file@ == layout::profile_file(self@, email@),
    {
        join(self.member_dir(email).as_str(), "profile.yaml")
    }

    /// The file of the credentials of the member `email`.
    pub fn credentials_file(&self, email: &str) -> (file: String)
        ensures
            file@ == layout::credentials_file(self@, email@),
    {
        join(self.member_dir(email).as_str(), "credentials.yaml")
    }

    /// The file of the interaction `id` in the feed chosen by `shared`.
    pub fn interaction_file(&self, id: &str, shared: bool) -> (file: String)
        ensures
            file@ == layout::interaction_file(self@, id@, shared),
    {
        join(self.interactions_dir(shared).as_str(), document_file_name(id).as_str())
    }

    /// The steps that make the directories of the store, all of them, in
    /// the order of `layout::skeleton`. They depend on the root alone, so
    /// that asking twice gives the same steps; and as making a directory
    /// that is there leaves it as it is, carrying them out again changes
    /// nothing.
    pub fn initialize(&self) -> (steps: Vec<StoreAction>)
        ensures
            action_views(steps@) == create_dirs(layout::skeleton(self@)),
    {
        let team = self.team_dir();
        let personal = self.personal_dir();
        let mut steps: Vec<StoreAction> = Vec::new();
        steps.push(StoreAction::CreateDir { path: join(self.root.as_str(), ".team") });
        steps.push(StoreAction::CreateDir { path: join(team.as_str(), "members") });
        steps.push(StoreAction::CreateDir { path: join(team.as_str(), "team/okrs") });
        steps.push(StoreAction::CreateDir { path: join(team.as_str(), "team/interactions") });
        steps.push(StoreAction::CreateDir { path: join(team.as_str(), "team/retrospectives") });
        steps.push(StoreAction::CreateDir { path: join(team.as_str(), "drafts") });
        steps.push(StoreAction::CreateDir { path: join(self.root.as_str(), ".personal") });
        steps.push(StoreAction::CreateDir { path: join(personal.as_str(), "okrs") });
        steps.push(StoreAction::CreateDir { path: join(personal.as_str(), "journal") });
        steps.push(StoreAction::CreateDir { path: join(personal.as_str(), "drafts") });
        steps
    }

    /// The steps that save the team record, whose document is `content`:
    /// the shared tree is made first, if it is not there.
    pub fn save_team(&self, content: &str) -> (steps: Vec<StoreAction>)
        ensures
            action_views(steps@) == write_into(layout::team_dir(self@), "config.yaml"@, content@),
    {
        self.save_in_team_dir("config.yaml", content)
    }

    /// The steps that save the configuration, whose document is `content`:
    /// the shared tree is made first, if it is not there.
    pub fn save_config(&self, content: &str) -> (steps: Vec<StoreAction>)
        ensures
            action_views(steps@) == write_into(layout::team_dir(self@), "config.yaml"@, content@),
    {
        self.save_in_team_dir("config.yaml", content)
    }

    /// The steps that save the manifesto `content`: the shared tree is made
    /// first, if it is not there.
    pub fn save_manifesto(&self, content: &str) -> (steps: Vec<StoreAction>)
        ensures
            action_views(steps@) == write_into(
                layout::team_dir(self@),
                "manifesto.yaml"@,
                content@,
            ),
    {
        self.save_in_team_dir("manifesto.yaml", content)
    }

    /// The steps that save the vision `content`: the shared tree is made
    /// first, if it is not there.
    pub fn save_vision(&self, content: &str) -> (steps: Vec<StoreAction>)
        ensures
            action_views(steps@) == write_into(layout::team_dir(self@), "vision.yaml"@, content@),
    {
        self.save_in_team_dir("vision.yaml", content)
    }

    /// The steps that put the file `name` with `content` into the shared
    /// tree.
    fn save_in_team_dir(&self, name: &str, content: &str) -> (steps: Vec<StoreAction>)
        ensures
            action_views(steps@) == write_into(layout::team_dir(self@), name@, content@),
    {
        let mut steps: Vec<StoreAction> = Vec::new();
        push_write_into(&mut steps, self.team_dir(), name, content);
        steps
    }

    /// The steps that save the profile of `member`, whose document is
    /// `content`: the directory of the member is made first.
    pub fn save_member(&self, member: &Member, content: &str) -> (steps: Vec<StoreAction>)
        ensures
            action_views(steps@) == write_into(
                layout::member_dir(self@, member@.email),
                "profile.yaml"@,
                content@,
            ),
    {
        let mut steps: Vec<StoreAction> = Vec::new();
        push_write_into(&mut steps, self.member_dir(member.email.as_str()), "profile.yaml", content);
        steps
    }

    /// The steps that save the credentials of a member, whose document is
    /// `content`: the directory of the member is made first.
    pub fn save_credentials(&self, credentials: &MemberCredentials, content: &str) -> (steps: Vec<
        StoreAction,
    >)
        ensures
            action_views(steps@) == write_into(
                layout::member_dir(self@, credentials@.email),
                "credentials.yaml"@,
                content@,
            ),
    {
        let mut steps: Vec<StoreAction> = Vec::new();
        push_write_into(
            &mut steps,
            self.member_dir(credentials.email.as_str()),
            "credentials.yaml",
            content,
        );
        steps
    }

    /// The steps that save `interaction`, whose document is `content`, in
    /// the one feed that its `shared` flag chooses.
    pub fn save_interaction(&self, interaction: &Interaction, content: &str) -> (steps: Vec<
        StoreAction,
    >)
        ensures
            action_views(steps@) == write_into(
                layout::interactions_dir(self@, interaction@.shared),
                layout::document_name(interaction@.id),
                content@,
            ),
    {
        let mut steps: Vec<StoreAction> = Vec::new();
        let name = document_file_name(interaction.id.as_str());
        push_write_into(
            &mut steps,
            self.interactions_dir(interaction.shared),
            name.as_str(),
            content,
        );
        steps
    }

    /// The steps that save an appreciation, whose document is `content`:
    /// one copy for the sender, one for each recipient and, where the
    /// appreciation is shared, one for the team.
    pub fn save_kudos(&self, interaction: &Interaction, content: &str) -> (steps: Vec<StoreAction>)
        ensures
            action_views(steps@) == fan_out(self@, Feed::Kudos, interaction@, content@),
    {
        self.save_to_feed(Feed::Kudos, interaction, content)
    }

    /// The steps that save a piece of feedback, whose document is
    /// `content`: one copy for the sender, one for each recipient and,
    /// where the feedback is shared, one for the team.
    pub fn save_feedback(&self, interaction: &Interaction, content: &str) -> (steps: Vec<
        StoreAction,
    >)
        ensures
            action_views(steps@) == fan_out(self@, Feed::Feedback, interaction@, content@),
    {
        self.save_to_feed(Feed::Feedback, interaction, content)
    }

    /// The private feed of what was sent from this store, for `feed`.
    fn sent_dir(&self, feed: Feed) -> (dir: String)
        ensures
            dir@ == layout::sent_dir(self@, feed),
    {
        match feed {
            Feed::Kudos => self.sent_kudos_dir(),
            Feed::Feedback => self.sent_feedback_dir(),
        }
    }

    /// The shared feed of what `email` has received, for `feed`.
    fn received_dir(&self, feed: Feed, email: &str) -> (dir: String)
        ensures
            dir@ == layout::received_dir(self@, feed, email@),
    {
        match feed {
            Feed::Kudos => self.received_kudos_dir(email),
            Feed::Feedback => self.received_feedback_dir(email),
        }
    }

    /// The steps that save an interaction of `feed`.
    fn save_to_feed(&self, feed: Feed, interaction: &Interaction, content: &str) -> (steps: Vec<
        StoreAction,
    >)
        ensures
            action_views(steps@) == fan_out(self@, feed, interaction@, content@),
    {
        let name = document_file_name(interaction.id.as_str());
        let ghost recipients = interaction@.with;
        let mut steps: Vec<StoreAction> = Vec::new();
        push_write_into(&mut steps, self.sent_dir(feed), name.as_str(), content);
        let ghost sent = action_views(steps@);
        let mut i: usize = 0;
        while i < interaction.with.len()
            invariant
                i <= interaction.with@.len(),
                recipients == interaction@.with,
                name@ == layout::document_name(interaction@.id),
                action_views(steps@) == sent + actions::received_writes(
                    self@,
                    feed,
                    recipients.take(i as int),
                    name@,
                    content@,
                ),
            decreases interaction.with@.len() - i,
        {
            let dir = self.received_dir(feed, interaction.with[i].as_str());
            push_write_into(&mut steps, dir, name.as_str(), content);
            proof {
                assert(recipients.take(i + 1).drop_last() =~= recipients.take(i as int));
            }
            i += 1;
        }
        assert(recipients.take(i as int) =~= recipients);
        if interaction.shared {
            push_write_into(&mut steps, self.interactions_dir(true), name.as_str(), content);
        }
        steps
    }

    /// Whether `pincode` is the pincode of the member `email`, whose stored
    /// credentials are `stored`: `None` where the member has none. A member
    /// without credentials cannot be authenticated, which is an error of
    /// its own and never the answer that the pincode is wrong.
    pub fn verify_pincode(
        &self,
        email: &str,
        pincode: &str,
        stored: Option<&MemberCredentials>,
    ) -> (verdict: Result<bool, Error>)
        ensures
            match stored {
                Some(credentials) => verdict == Ok::<bool, Error>(
                    credentials@.credentials.accepts(encode_utf8(pincode@)),
                ),
                None => verdict matches Err(Error::CredentialsNotFound(who)) && who@ == email@,
            },
    {
        match stored {
            Some(credentials) => Ok(credentials.verify(pincode)),
            None => Err(Error::CredentialsNotFound(email.to_owned())),
        }
    }

    /// Sets up a team: the steps that make the directories of the store
    /// and save the configuration, the team record and the profile of
    /// `leader`, whose documents are given, and the new credentials of the
    /// leader for `pincode`. The credentials come last; where the pincode
    /// is refused, what the steps have written stays.
    pub fn initialize_team(
        &self,
        team_document: &str,
        config_document: &str,
        leader: &Member,
        leader_document: &str,
        pincode: &str,
    ) -> (setup: TeamSetup)
        ensures
            action_views(setup.steps@) == setup_steps(
                self@,
                team_document@,
                config_document@,
                leader@.email,
                leader_document@,
            ),
            match setup.credentials {
                Ok(credentials) => pincode_long_enough(encode_utf8(pincode@))
                    && credentials@.email == leader@.email && credentials@.credentials.made_for(
                    encode_utf8(pincode@),
                ),
                Err(error) => !pincode_long_enough(encode_utf8(pincode@)) && is_pincode_too_short(
                    error,
                ),
            },
    {
        let mut steps = self.initialize();
        push_write_into(&mut steps, self.team_dir(), "config.yaml", config_document);
        push_write_into(&mut steps, self.team_dir(), "config.yaml", team_document);
        push_write_into(
            &mut steps,
            self.member_dir(leader.email.as_str()),
            "profile.yaml",
            leader_document,
        );
        let credentials = MemberCredentials::new(leader.email.as_str(), pincode);
        TeamSetup { steps, credentials }
    }
}

/// Adds the steps that put the file `name` with `content` into `dir`.
fn push_write_into(steps: &mut Vec<StoreAction>, dir: String, name: &str, content: &str)
    ensures
        action_views(final(steps)@) == action_views(old(steps)@) + write_into(
            dir@,
            name@,
            content@,
        ),
{
    let path = join(dir.as_str(), name);
    steps.push(StoreAction::CreateDir { path: dir });
    steps.push(StoreAction::WriteFile { path, content: content.to_owned() });
}

} // verus!
