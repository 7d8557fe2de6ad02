//! Where each record lives: paths under the root of a store.
//!
//! A path is text whose parts are separated by `/`. The shared tree is the
//! directory `.team` under the root, the private tree the directory
//! `.personal`; every record is a file with the extension `yaml`.

use vstd::prelude::*;
use vstd::string::*;

verus! {

/// `part` joined to `base`. A part that starts with `/` is a path from the
/// top and stands for itself; any other part follows `base`, after a `/`
/// where `base` is not empty and does not end in one already.
pub open spec fn join_path(base: Seq<char>, part: Seq<char>) -> Seq<char> {
    if part.len() > 0 && part[0] == '/' {
        part
    } else if base.len() == 0 || base.last() == '/' {
        base + part
    } else {
        base + seq!['/'] + part
    }
}

/// The two kinds of interaction that are written to more than one place.
#[derive(Debug, Clone, Copy, PartialEq, Eq, Structural)]
pub enum Feed {
    /// Appreciations.
    Kudos,
    /// Feedback.
    Feedback,
}

/// The shared tree.
pub open spec fn team_dir(root: Seq<char>) -> Seq<char> {
    join_path(root, ".team"@)
}

/// The private tree.
pub open spec fn personal_dir(root: Seq<char>) -> Seq<char> {
    join_path(root, ".personal"@)
}

/// The directory that holds one directory for each member.
pub open spec fn members_dir(root: Seq<char>) -> Seq<char> {
    join_path(team_dir(root), "members"@)
}

/// The directory of the member `email`.
pub open spec fn member_dir(root: Seq<char>, email: Seq<char>) -> Seq<char> {
    join_path(members_dir(root), email)
}

/// The feed of interactions: that of the team where `shared`, else the
/// private one.
pub open spec fn interactions_dir(root: Seq<char>, shared: bool) -> Seq<char> {
    if shared {
        join_path(team_dir(root), "team/interactions"@)
    } else {
        join_path(personal_dir(root), "interactions"@)
    }
}

/// The private feed of what the person at this store has sent.
pub open spec fn sent_dir(root: Seq<char>, feed: Feed) -> Seq<char> {
    match feed {
        Feed::Kudos => join_path(personal_dir(root), "kudos/sent"@),
        Feed::Feedback => join_path(personal_dir(root), "feedback/sent"@),
    }
}

/// The shared feed of what the member `email` has received.
pub open spec fn received_dir(root: Seq<char>, feed: Feed, email: Seq<char>) -> Seq<char> {
    match feed {
        Feed::Kudos => join_path(member_dir(root, email), "kudos"@),
        Feed::Feedback => join_path(member_dir(root, email), "feedback"@),
    }
}

/// The name of the file that holds the record `id` of a feed.
pub open spec fn document_name(id: Seq<char>) -> Seq<char> {
    id + ".yaml"@
}

/// The file of the team record. It is the file of the configuration too:
/// whichever of the two is saved last is what the file holds.
pub open spec fn team_file(root: Seq<char>) -> Seq<char> {
    join_path(team_dir(root), "config.yaml"@)
}

/// The file of the manifesto.
pub open spec fn manifesto_file(root: Seq<char>) -> Seq<char> {
    join_path(team_dir(root), "manifesto.yaml"@)
}

/// The file of the vision.
pub open spec fn vision_file(root: Seq<char>) -> Seq<char> {
    join_path(team_dir(root), "vision.yaml"@)
}

/// The file of the profile of the member `email`.
pub open spec fn profile_file(root: Seq<char>, email: Seq<char>) -> Seq<char> {
    join_path(member_dir(root, email), "profile.yaml"@)
}

/// The file of the credentials of the member `email`.
pub open spec fn credentials_file(root: Seq<char>, email: Seq<char>) -> Seq<char> {
    join_path(member_dir(root, email), "credentials.yaml"@)
}

/// The file of the interaction `id` in the feed chosen by `shared`.
pub open spec fn interaction_file(root: Seq<char>, id: Seq<char>, shared: bool) -> Seq<char> {
    join_path(interactions_dir(root, shared), document_name(id))
}

/// The directories of an initialized store, in the order they are made:
/// the shared tree with its members, objectives, interactions,
/// retrospectives and drafts, then the private tree with its objectives,
/// journal and drafts.
pub open spec fn skeleton(root: Seq<char>) -> Seq<Seq<char>> {
    seq![
        team_dir(root),
        join_path(team_dir(root), "members"@),
        join_path(team_dir(root), "team/okrs"@),
        join_path(team_dir(root), "team/interactions"@),
        join_path(team_dir(root), "team/retrospectives"@),
        join_path(team_dir(root), "drafts"@),
        personal_dir(root),
        join_path(personal_dir(root), "okrs"@),
        join_path(personal_dir(root), "journal"@),
        join_path(personal_dir(root), "drafts"@),
    ]
}

/// `part` joined to `base`.
pub fn join(base: &str, part: &str) -> (path: String)
    ensures
        path@ == join_path(base@, part@),
{
    let part_len = part.unicode_len();
    if part_len > 0 && part.get_char(0) == '/' {
        return part.to_owned();
    }
    let base_len = base.unicode_len();
    let mut path = base.to_owned();
    if base_len > 0 && base.get_char(base_len - 1) != '/' {
        proof {
            reveal_strlit("/");
        }
        path.append("/");
    }
    path.append(part);
    path
}

/// The name of the file that holds the record `id` of a feed.
pub fn document_file_name(id: &str) -> (name: String)
    ensures
        name@ == document_name(id@),
{
    let mut name = id.to_owned();
    name.append(".yaml");
    name
}

} // verus!
