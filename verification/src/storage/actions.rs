//! What a save asks of the disk: directories to make and files to write.

use vstd::prelude::*;

use crate::models::interaction::InteractionView;
use crate::storage::layout::{
    document_name, interactions_dir, join_path, received_dir, sent_dir, Feed,
};

verus! {

/// One step of a save. The steps of a save are carried out in order, and
/// the save fails at the first step that fails; the steps before it stay
/// done.
#[derive(Debug, Clone, PartialEq)]
pub enum StoreAction {
    /// Make the directory `path` and every missing directory above it. A
    /// directory that is there already is left as it is.
    CreateDir { path: String },
    /// Write `content` as the whole of the file `path`, in place of what
    /// the file held.
    WriteFile { path: String, content: String },
}

/// What a step is, as mathematical values.
pub enum ActionView {
    CreateDir { path: Seq<char> },
    WriteFile { path: Seq<char>, content: Seq<char> },
}

impl View for StoreAction {
    type V = ActionView;

    open spec fn view(&self) -> ActionView {
        match self {
            StoreAction::CreateDir { path } => ActionView::CreateDir { path: path@ },
            StoreAction::WriteFile { path, content } => ActionView::WriteFile {
                path: path@,
                content: content@,
            },
        }
    }
}

/// The views of a list of steps, in order.
pub open spec fn action_views(list: Seq<StoreAction>) -> Seq<ActionView> {
    Seq::new(list.len(), |i: int| list[i]@)
}

/// The steps that make each of `dirs`, in order.
pub open spec fn create_dirs(dirs: Seq<Seq<char>>) -> Seq<ActionView> {
    Seq::new(dirs.len(), |i: int| ActionView::CreateDir { path: dirs[i] })
}

/// The steps that put the file `name` with `content` into the directory
/// `dir`: make the directory, then write the file.
pub open spec fn write_into(dir: Seq<char>, name: Seq<char>, content: Seq<char>) -> Seq<
    ActionView,
> {
    seq![
        ActionView::CreateDir { path: dir },
        ActionView::WriteFile { path: join_path(dir, name), content },
    ]
}

/// The steps that put the file `name` with `content` into the received
/// feed of each of `recipients`, in their order.
pub open spec fn received_writes(
    root: Seq<char>,
    feed: Feed,
    recipients: Seq<Seq<char>>,
    name: Seq<char>,
    content: Seq<char>,
) -> Seq<ActionView>
    decreases recipients.len(),
{
    if recipients.len() == 0 {
        Seq::empty()
    } else {
        received_writes(root, feed, recipients.drop_last(), name, content) + write_into(
            received_dir(root, feed, recipients.last()),
            name,
            content,
        )
    }
}

/// The steps that put the file `name` with `content` into the feed of the
/// team where `shared`, and none where not.
pub open spec fn team_write(root: Seq<char>, shared: bool, name: Seq<char>, content: Seq<char>) -> Seq<
    ActionView,
> {
    if shared {
        write_into(interactions_dir(root, true), name, content)
    } else {
        Seq::empty()
    }
}

/// The steps that save an interaction of a feed with the document
/// `content`: into the sent feed of the person at the store, into the
/// received feed of every recipient, and, where the interaction is shared,
/// into the feed of the team.
pub open spec fn fan_out(
    root: Seq<char>,
    feed: Feed,
    interaction: InteractionView,
    content: Seq<char>,
) -> Seq<ActionView> {
    let name = document_name(interaction.id);
    write_into(sent_dir(root, feed), name, content) + received_writes(
        root,
        feed,
        interaction.with,
        name,
        content,
    ) + team_write(root, interaction.shared, name, content)
}

/// The number of files that `steps` write.
pub open spec fn count_writes(steps: Seq<ActionView>) -> nat
    decreases steps.len(),
{
    if steps.len() == 0 {
        0
    } else {
        count_writes(steps.drop_last()) + if steps.last() is WriteFile {
            1nat
        } else {
            0nat
        }
    }
}

/// Whether every file that `steps` write gets the content `content`.
pub open spec fn all_writes_hold(steps: Seq<ActionView>, content: Seq<char>) -> bool {
    forall|i: int|
        0 <= i < steps.len() ==> ((#[trigger] steps[i]) matches ActionView::WriteFile {
            content: c,
            ..
        } ==> c == content)
}

/// The files written by two runs of steps, one after the other, are those
/// of the first and those of the second.
pub proof fn lemma_count_writes_concat(first: Seq<ActionView>, second: Seq<ActionView>)
    ensures
        count_writes(first + second) == count_writes(first) + count_writes(second),
    decreases second.len(),
{
    if second.len() == 0 {
        assert(first + second =~= first);
    } else {
        assert((first + second).drop_last() =~= first + second.drop_last());
        lemma_count_writes_concat(first, second.drop_last());
    }
}

/// Putting a file into a directory writes one file.
pub proof fn lemma_write_into_counts(dir: Seq<char>, name: Seq<char>, content: Seq<char>)
    ensures
        count_writes(write_into(dir, name, content)) == 1,
        all_writes_hold(write_into(dir, name, content), content),
{
    let steps = write_into(dir, name, content);
    assert(steps.drop_last() =~= seq![ActionView::CreateDir { path: dir }]);
    assert(steps.drop_last().drop_last() =~= Seq::<ActionView>::empty());
    reveal_with_fuel(count_writes, 3);
}

/// The received feeds get one file for each recipient, each with the same
/// content.
pub proof fn lemma_received_writes_counts(
    root: Seq<char>,
    feed: Feed,
    recipients: Seq<Seq<char>>,
    name: Seq<char>,
    content: Seq<char>,
)
    ensures
        count_writes(received_writes(root, feed, recipients, name, content)) == recipients.len(),
        all_writes_hold(received_writes(root, feed, recipients, name, content), content),
    decreases recipients.len(),
{
    if recipients.len() > 0 {
        let before = received_writes(root, feed, recipients.drop_last(), name, content);
        let last = write_into(received_dir(root, feed, recipients.last()), name, content);
        lemma_received_writes_counts(root, feed, recipients.drop_last(), name, content);
        lemma_write_into_counts(received_dir(root, feed, recipients.last()), name, content);
        lemma_count_writes_concat(before, last);
    }
}

/// A save of an interaction of a feed writes one file for the sender, one
/// for each recipient, and one more for the team exactly where the
/// interaction is shared; and every one of these files holds the same
/// document.
pub proof fn lemma_fan_out_complete(
    root: Seq<char>,
    feed: Feed,
    interaction: InteractionView,
    content: Seq<char>,
)
    ensures
        count_writes(fan_out(root, feed, interaction, content)) == 1 + interaction.with.len() + (
        if interaction.shared {
            1nat
        } else {
            0nat
        }),
        all_writes_hold(fan_out(root, feed, interaction, content), content),
{
    let name = document_name(interaction.id);
    let sent = write_into(sent_dir(root, feed), name, content);
    let received = received_writes(root, feed, interaction.with, name, content);
    let team = team_write(root, interaction.shared, name, content);
    lemma_write_into_counts(sent_dir(root, feed), name, content);
    lemma_received_writes_counts(root, feed, interaction.with, name, content);
    if interaction.shared {
        lemma_write_into_counts(interactions_dir(root, true), name, content);
    }
    lemma_count_writes_concat(sent, received);
    lemma_count_writes_concat(sent + received, team);
}

} // verus!
