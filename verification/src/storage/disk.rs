//! What the steps of a save do to a disk, as far as the store relies on it:
//! a model on which every step succeeds.

use vstd::prelude::*;

use crate::models::interaction::InteractionView;
use crate::storage::actions::{
    all_writes_hold, create_dirs, fan_out, received_writes, team_write, write_into, ActionView,
};
use crate::storage::layout::{
    credentials_file, document_name, interaction_file, interactions_dir, join_path,
    manifesto_file, member_dir, profile_file, received_dir, sent_dir, skeleton, team_dir,
    team_file, vision_file, Feed,
};

verus! {

/// A disk: the directories that were made, and what each file holds. The
/// directories that making a directory makes above it are not listed.
pub struct DiskView {
    pub dirs: Set<Seq<char>>,
    pub files: Map<Seq<char>, Seq<char>>,
}

impl DiskView {
    /// The disk after one step.
    pub open spec fn after(self, step: ActionView) -> DiskView {
        match step {
            ActionView::CreateDir { path } => DiskView { dirs: self.dirs.insert(path), ..self },
            ActionView::WriteFile { path, content } => DiskView {
                files: self.files.insert(path, content),
                ..self
            },
        }
    }

    /// The disk after `steps`, carried out in order.
    pub open spec fn after_all(self, steps: Seq<ActionView>) -> DiskView
        decreases steps.len(),
    {
        if steps.len() == 0 {
            self
        } else {
            self.after_all(steps.drop_last()).after(steps.last())
        }
    }

    /// Whether the file `path` is there and holds `content`.
    pub open spec fn holds(self, path: Seq<char>, content: Seq<char>) -> bool {
        self.files.dom().contains(path) && self.files[path] == content
    }
}

/// Whether `step` writes the file `path`.
pub open spec fn is_write_to(step: ActionView, path: Seq<char>) -> bool {
    step matches ActionView::WriteFile { path: p, .. } && p == path
}

/// Whether `steps` write the file `path`.
pub open spec fn writes_to(steps: Seq<ActionView>, path: Seq<char>) -> bool {
    exists|i: int| 0 <= i < steps.len() && is_write_to(#[trigger] steps[i], path)
}

/// Carrying out two runs of steps one after the other is carrying out the
/// first and then, on what it leaves, the second.
pub proof fn lemma_after_all_concat(disk: DiskView, first: Seq<ActionView>, second: Seq<ActionView>)
    ensures
        disk.after_all(first + second) == disk.after_all(first).after_all(second),
    decreases second.len(),
{
    if second.len() == 0 {
        assert(first + second =~= first);
    } else {
        assert((first + second).drop_last() =~= first + second.drop_last());
        lemma_after_all_concat(disk, first, second.drop_last());
    }
}

/// The directories `made` together with those of `dirs`.
pub open spec fn with_dirs(made: Set<Seq<char>>, dirs: Seq<Seq<char>>) -> Set<Seq<char>> {
    Set::new(|d: Seq<char>| made.contains(d) || dirs.contains(d))
}

/// Steps that only make directories leave every file as it was, and add
/// their directories to those that were there.
pub proof fn lemma_create_dirs_only(disk: DiskView, dirs: Seq<Seq<char>>)
    ensures
        disk.after_all(create_dirs(dirs)).files == disk.files,
        disk.after_all(create_dirs(dirs)).dirs == with_dirs(disk.dirs, dirs),
    decreases dirs.len(),
{
    let steps = create_dirs(dirs);
    let after = disk.after_all(steps);
    if dirs.len() == 0 {
        assert(after.dirs =~= with_dirs(disk.dirs, dirs));
    } else {
        let front = dirs.drop_last();
        assert(steps.drop_last() =~= create_dirs(front));
        lemma_create_dirs_only(disk, front);
        assert forall|d: Seq<char>| after.dirs.contains(d) <==> with_dirs(disk.dirs, dirs).contains(
            d,
        ) by {
            if front.contains(d) {
                let k = choose|k: int| 0 <= k < front.len() && front[k] == d;
                assert(dirs[k] == d);
            }
            if dirs.contains(d) && d != dirs.last() {
                let k = choose|k: int| 0 <= k < dirs.len() && dirs[k] == d;
                assert(front[k] == d);
            }
            if d == dirs.last() {
                assert(dirs[dirs.len() - 1] == d);
            }
        }
        assert(after.dirs =~= with_dirs(disk.dirs, dirs));
    }
}

/// Making the directories of the store a second time changes nothing:
/// after the steps of an initialization, the same steps leave the disk as
/// it is.
pub proof fn lemma_initialize_twice(disk: DiskView, root: Seq<char>)
    ensures
        disk.after_all(create_dirs(skeleton(root))).after_all(create_dirs(skeleton(root)))
            == disk.after_all(create_dirs(skeleton(root))),
{
    let once = disk.after_all(create_dirs(skeleton(root)));
    let twice = once.after_all(create_dirs(skeleton(root)));
    lemma_create_dirs_only(disk, skeleton(root));
    lemma_create_dirs_only(once, skeleton(root));
    assert(twice.dirs =~= once.dirs);
    assert(twice.files =~= once.files);
}

/// Where every file that the steps write gets the same content, each file
/// they write holds that content afterwards.
pub proof fn lemma_written_file_holds(
    disk: DiskView,
    steps: Seq<ActionView>,
    path: Seq<char>,
    content: Seq<char>,
)
    requires
        all_writes_hold(steps, content),
        writes_to(steps, path),
    ensures
        disk.after_all(steps).holds(path, content),
    decreases steps.len(),
{
    let at = choose|i: int| 0 <= i < steps.len() && is_write_to(#[trigger] steps[i], path);
    let front = steps.drop_last();
    assert(all_writes_hold(front, content)) by {
        assert forall|i: int| 0 <= i < front.len() implies ((#[trigger] front[i])
            matches ActionView::WriteFile { content: c, .. } ==> c == content) by {
            assert(front[i] == steps[i]);
        }
    }
    let last = steps.last();
    assert(last == steps[steps.len() - 1]);
    if is_write_to(last, path) {
    } else {
        assert(at < steps.len() - 1);
        assert(front[at] == steps[at]);
        assert(writes_to(front, path));
        lemma_written_file_holds(disk, front, path, content);
    }
}

/// After a file was put into a directory, the directory is there and the
/// file holds what was put.
pub proof fn lemma_write_into_holds(
    disk: DiskView,
    dir: Seq<char>,
    name: Seq<char>,
    content: Seq<char>,
)
    ensures
        disk.after_all(write_into(dir, name, content)).holds(join_path(dir, name), content),
        disk.after_all(write_into(dir, name, content)).dirs.contains(dir),
{
    let steps = write_into(dir, name, content);
    assert(steps.drop_last() =~= seq![ActionView::CreateDir { path: dir }]);
    assert(steps.drop_last().drop_last() =~= Seq::<ActionView>::empty());
    reveal_with_fuel(DiskView::after_all, 3);
}

/// The steps that reach the received feeds write the file of each
/// recipient.
proof fn lemma_received_writes_reach(
    root: Seq<char>,
    feed: Feed,
    recipients: Seq<Seq<char>>,
    name: Seq<char>,
    content: Seq<char>,
    k: int,
)
    requires
        0 <= k < recipients.len(),
    ensures
        writes_to(
            received_writes(root, feed, recipients, name, content),
            join_path(received_dir(root, feed, recipients[k]), name),
        ),
    decreases recipients.len(),
{
    let steps = received_writes(root, feed, recipients, name, content);
    let before = received_writes(root, feed, recipients.drop_last(), name, content);
    let path = join_path(received_dir(root, feed, recipients[k]), name);
    if k == recipients.len() - 1 {
        assert(steps[(before.len() + 1) as int] == ActionView::WriteFile { path, content });
    } else {
        lemma_received_writes_reach(root, feed, recipients.drop_last(), name, content, k);
        let at = choose|i: int| 0 <= i < before.len() && is_write_to(#[trigger] before[i], path);
        assert(steps[at] == before[at]);
    }
}

/// After an interaction of a feed was saved, each place it belongs to
/// holds the saved document: the sent feed of the sender, the received
/// feed of every recipient and, where the interaction is shared, the feed
/// of the team.
pub proof fn lemma_fan_out_reaches_every_place(
    disk: DiskView,
    root: Seq<char>,
    feed: Feed,
    interaction: InteractionView,
    content: Seq<char>,
)
    ensures
        ({
            let name = document_name(interaction.id);
            let after = disk.after_all(fan_out(root, feed, interaction, content));
            &&& after.holds(join_path(sent_dir(root, feed), name), content)
            &&& forall|k: int|
                0 <= k < interaction.with.len() ==> after.holds(
                    join_path(received_dir(root, feed, #[trigger] interaction.with[k]), name),
                    content,
                )
            &&& interaction.shared ==> after.holds(
                join_path(interactions_dir(root, true), name),
                content,
            )
        }),
{
    let name = document_name(interaction.id);
    let steps = fan_out(root, feed, interaction, content);
    let sent = write_into(sent_dir(root, feed), name, content);
    let received = received_writes(root, feed, interaction.with, name, content);
    let team = team_write(root, interaction.shared, name, content);
    crate::storage::actions::lemma_fan_out_complete(root, feed, interaction, content);
    assert(steps[1] == sent[1]);
    assert(writes_to(steps, join_path(sent_dir(root, feed), name)));
    lemma_written_file_holds(disk, steps, join_path(sent_dir(root, feed), name), content);
    assert forall|k: int| 0 <= k < interaction.with.len() implies disk.after_all(steps).holds(
        join_path(received_dir(root, feed, #[trigger] interaction.with[k]), name),
        content,
    ) by {
        let path = join_path(received_dir(root, feed, interaction.with[k]), name);
        lemma_received_writes_reach(root, feed, interaction.with, name, content, k);
        let at = choose|i: int|
            0 <= i < received.len() && is_write_to(#[trigger] received[i], path);
        assert(steps[(sent.len() + at) as int] == received[at]);
        lemma_written_file_holds(disk, steps, path, content);
    }
    if interaction.shared {
        let path = join_path(interactions_dir(root, true), name);
        assert(steps[(sent.len() + received.len() + 1) as int] == team[1]);
        lemma_written_file_holds(disk, steps, path, content);
    }
}

/// What was saved is what is read back: after the steps of a save, the
/// file that a load of the same record reads holds the saved document.
/// This holds of the team record and the configuration, of the manifesto
/// and the vision, of the profile and the credentials of a member, and of
/// an interaction in the feed that its `shared` flag chooses.
pub proof fn lemma_saved_is_read_back(
    disk: DiskView,
    root: Seq<char>,
    email: Seq<char>,
    id: Seq<char>,
    shared: bool,
    content: Seq<char>,
)
    ensures
        disk.after_all(write_into(team_dir(root), "config.yaml"@, content)).holds(
            team_file(root),
            content,
        ),
        disk.after_all(write_into(team_dir(root), "manifesto.yaml"@, content)).holds(
            manifesto_file(root),
            content,
        ),
        disk.after_all(write_into(team_dir(root), "vision.yaml"@, content)).holds(
            vision_file(root),
            content,
        ),
        disk.after_all(write_into(member_dir(root, email), "profile.yaml"@, content)).holds(
            profile_file(root, email),
            content,
        ),
        disk.after_all(write_into(member_dir(root, email), "credentials.yaml"@, content)).holds(
            credentials_file(root, email),
            content,
        ),
        disk.after_all(
            write_into(interactions_dir(root, shared), document_name(id), content),
        ).holds(interaction_file(root, id, shared), content),
{
    lemma_write_into_holds(disk, team_dir(root), "config.yaml"@, content);
    lemma_write_into_holds(disk, team_dir(root), "manifesto.yaml"@, content);
    lemma_write_into_holds(disk, team_dir(root), "vision.yaml"@, content);
    lemma_write_into_holds(disk, member_dir(root, email), "profile.yaml"@, content);
    lemma_write_into_holds(disk, member_dir(root, email), "credentials.yaml"@, content);
    lemma_write_into_holds(disk, interactions_dir(root, shared), document_name(id), content);
}

} // verus!
