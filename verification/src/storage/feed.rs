//! Reading the store: what a listing of a directory tells, what a file
//! that was read gives, and in what order the records of a feed are shown.

use vstd::multiset::Multiset;
use vstd::prelude::*;

use crate::models::interaction::Interaction;
use crate::error::Error;
use crate::storage::TeamStorage;
use crate::text::{
    ends_with, strip_suffix_all, text_ends_with, text_eq, text_strip_suffix_all, texts,
};

verus! {

/// What was found in a directory under one name.
#[derive(Debug, Clone, PartialEq)]
pub struct DirEntry {
    /// The name within the directory.
    pub name: String,
    /// Whether it is a directory.
    pub is_dir: bool,
    /// The path that leads to it.
    pub path: String,
}

/// What an entry of a directory is, as mathematical values.
pub struct DirEntryView {
    pub name: Seq<char>,
    pub is_dir: bool,
    pub path: Seq<char>,
}

impl View for DirEntry {
    type V = DirEntryView;

    open spec fn view(&self) -> DirEntryView {
        DirEntryView { name: self.name@, is_dir: self.is_dir, path: self.path@ }
    }
}

/// The views of a list of entries, in order.
pub open spec fn entry_views(list: Seq<DirEntry>) -> Seq<DirEntryView> {
    Seq::new(list.len(), |i: int| list[i]@)
}

/// Whether a file of this name holds a record: the name ends in `.yaml`,
/// and something stands before that.
pub open spec fn has_yaml_extension(name: Seq<char>) -> bool {
    name.len() > ".yaml"@.len() && ends_with(name, ".yaml"@)
}

/// The identifier that a file name stands for: the name without `.yaml` at
/// its end, however often it stands there.
pub open spec fn id_of_name(name: Seq<char>) -> Seq<char> {
    strip_suffix_all(name, ".yaml"@)
}

/// The identifiers of the records among the files `names`, in the order of
/// the names: one for each name that ends in `.yaml`.
pub open spec fn listed_ids(names: Seq<Seq<char>>) -> Seq<Seq<char>>
    decreases names.len(),
{
    if names.len() == 0 {
        Seq::empty()
    } else if ends_with(names.last(), ".yaml"@) {
        listed_ids(names.drop_last()).push(id_of_name(names.last()))
    } else {
        listed_ids(names.drop_last())
    }
}

/// The names of the directories among `entries`, in the order of the
/// entries.
pub open spec fn directory_names(entries: Seq<DirEntryView>) -> Seq<Seq<char>>
    decreases entries.len(),
{
    if entries.len() == 0 {
        Seq::empty()
    } else if entries.last().is_dir {
        directory_names(entries.drop_last()).push(entries.last().name)
    } else {
        directory_names(entries.drop_last())
    }
}

/// Whether something of the name `name` is among `entries`.
pub open spec fn has_entry(entries: Seq<DirEntryView>, name: Seq<char>) -> bool {
    exists|i: int| 0 <= i < entries.len() && (#[trigger] entries[i]).name == name
}

/// What reading the file of a record gave.
#[derive(Debug, Clone, PartialEq)]
pub enum Stored<T> {
    /// There is no such file.
    Missing,
    /// The file is there, but what it holds could not be decoded; the
    /// text says why.
    Corrupt(String),
    /// The file holds this record.
    Record(T),
}

/// The records among what the files of a feed gave, each as often as it
/// occurs: a file that is missing or could not be decoded counts for
/// nothing.
pub open spec fn present(stored: Seq<Stored<Interaction>>) -> Multiset<Interaction>
    decreases stored.len(),
{
    if stored.len() == 0 {
        Multiset::empty()
    } else {
        match stored.last() {
            Stored::Record(interaction) => present(stored.drop_last()).insert(interaction),
            _ => present(stored.drop_last()),
        }
    }
}

/// Whether `feed` runs from the newest record to the oldest: no record
/// stands before one that is newer.
pub open spec fn newest_first(feed: Seq<Interaction>) -> bool {
    forall|i: int, j: int|
        0 <= i < j < feed.len() ==> !feed[i].timestamp.before(feed[j].timestamp)
}

/// Whether the file `name` of a feed holds a record, and is to be read.
pub fn is_feed_file(name: &str) -> (r: bool)
    ensures
        r == has_yaml_extension(name@),
{
    name.unicode_len() > ".yaml".unicode_len() && text_ends_with(name, ".yaml")
}

impl TeamStorage {
    /// Whether the store is initialized: whether the shared tree is among
    /// `root_entries`, which are what the root directory holds.
    pub fn is_initialized(&self, root_entries: &Vec<DirEntry>) -> (r: bool)
        ensures
            r == has_entry(entry_views(root_entries@), ".team"@),
    {
        let mut i: usize = 0;
        while i < root_entries.len()
            invariant
                i <= root_entries@.len(),
                forall|k: int| 0 <= k < i ==> root_entries@[k].name@ != ".team"@,
            decreases root_entries@.len() - i,
        {
            if text_eq(root_entries[i].name.as_str(), ".team") {
                assert(entry_views(root_entries@)[i as int].name == ".team"@);
                return true;
            }
            i += 1;
        }
        false
    }

    /// The identifiers of the interactions of a feed, whose files are
    /// `names`.
    pub fn list_interactions(&self, names: &Vec<String>) -> (ids: Vec<String>)
        ensures
            texts(ids@) == listed_ids(texts(names@)),
    {
        let ghost all = texts(names@);
        let mut ids: Vec<String> = Vec::new();
        let mut i: usize = 0;
        while i < names.len()
            invariant
                i <= names@.len(),
                all == texts(names@),
                texts(ids@) == listed_ids(all.take(i as int)),
            decreases names@.len() - i,
        {
            let name = names[i].as_str();
            assert(all.take(i + 1).drop_last() =~= all.take(i as int));
            if text_ends_with(name, ".yaml") {
                ids.push(text_strip_suffix_all(name, ".yaml"));
            }
            i += 1;
        }
        assert(all.take(i as int) =~= all);
        ids
    }

    /// The identifiers of the members: the names of the directories among
    /// `entries`, which are what the members directory holds. Whether a
    /// directory holds a profile is not looked at.
    pub fn list_members(&self, entries: &Vec<DirEntry>) -> (ids: Vec<String>)
        ensures
            texts(ids@) == directory_names(entry_views(entries@)),
    {
        let ghost all = entry_views(entries@);
        let mut ids: Vec<String> = Vec::new();
        let mut i: usize = 0;
        while i < entries.len()
            invariant
                i <= entries@.len(),
                all == entry_views(entries@),
                texts(ids@) == directory_names(all.take(i as int)),
            decreases entries@.len() - i,
        {
            assert(all.take(i + 1).drop_last() =~= all.take(i as int));
            if entries[i].is_dir {
                ids.push(entries[i].name.clone());
            }
            i += 1;
        }
        assert(all.take(i as int) =~= all);
        ids
    }
}

/// Putting a value into a sequence adds it once to what the sequence
/// holds.
proof fn lemma_insert_to_multiset<A>(s: Seq<A>, at: int, value: A)
    requires
        0 <= at <= s.len(),
    ensures
        s.insert(at, value).to_multiset() == s.to_multiset().insert(value),
{
    broadcast use vstd::seq_lib::group_to_multiset_ensures;

    let t = s.insert(at, value);
    assert(t.remove(at) =~= s);
    assert(t[at] == value);
    vstd::seq_lib::to_multiset_remove(t, at);
    assert(t.to_multiset().count(value) > 0) by {
        assert(t.contains(value));
    }
    assert(t.to_multiset() =~= s.to_multiset().insert(value));
}

/// Puts `interaction` into `feed` before the first record that is older.
fn insert_by_time(feed: &mut Vec<Interaction>, interaction: Interaction)
    requires
        newest_first(old(feed)@),
    ensures
        newest_first(final(feed)@),
        final(feed)@.to_multiset() == old(feed)@.to_multiset().insert(interaction),
{
    let mut at: usize = 0;
    while at < feed.len() && !feed[at].timestamp.is_before(&interaction.timestamp)
        invariant
            at <= feed@.len(),
            feed@ == old(feed)@,
            forall|k: int| 0 <= k < at ==> !feed@[k].timestamp.before(interaction.timestamp),
        decreases feed@.len() - at,
    {
        at += 1;
    }
    proof {
        lemma_insert_to_multiset(feed@, at as int, interaction);
    }
    let ghost before = feed@;
    feed.insert(at, interaction);
    assert forall|i: int, j: int| 0 <= i < j < feed@.len() implies !feed@[i].timestamp.before(
        feed@[j].timestamp,
    ) by {
        if j < at {
            assert(feed@[i] == before[i] && feed@[j] == before[j]);
        } else if j == at {
            assert(feed@[i] == before[i]);
        } else if i < at {
            assert(feed@[i] == before[i] && feed@[j] == before[j - 1]);
        } else if i == at {
            assert(feed@[j] == before[j - 1]);
            assert(before[at as int].timestamp.before(interaction.timestamp));
            assert(j - 1 == at || !before[at as int].timestamp.before(before[j - 1].timestamp));
        } else {
            assert(feed@[i] == before[i - 1] && feed@[j] == before[j - 1]);
        }
    }
}

impl TeamStorage {
    /// What a load of a single record gives, from what reading its file
    /// gave: a record that is missing is no error, it is just not there;
    /// a file that could not be decoded is an error of its own, which
    /// carries the reason.
    pub fn load<T>(&self, stored: Stored<T>) -> (loaded: Result<Option<T>, Error>)
        ensures
            match stored {
                Stored::Missing => loaded == Ok::<Option<T>, Error>(None),
                Stored::Corrupt(reason) => loaded matches Err(Error::Yaml(m)) && m@ == reason@,
                Stored::Record(record) => loaded == Ok::<Option<T>, Error>(Some(record)),
            },
    {
        match stored {
            Stored::Missing => Ok(None),
            Stored::Corrupt(reason) => Err(Error::Yaml(reason)),
            Stored::Record(record) => Ok(Some(record)),
        }
    }

    /// The records of a feed in the order they are shown, newest first.
    /// Each entry of `stored` is what one file of the feed gave. A file
    /// that could not be decoded is passed over, where a load of a single
    /// record would fail; the rest is all there. Of two records of the
    /// same instant either may come first.
    pub fn load_all(&self, stored: Vec<Stored<Interaction>>) -> (feed: Vec<Interaction>)
        ensures
            feed@.to_multiset() == present(stored@),
            newest_first(feed@),
    {
        let mut rest = stored;
        let mut feed: Vec<Interaction> = Vec::new();
        proof {
            broadcast use vstd::seq_lib::group_to_multiset_ensures;

            assert(feed@.to_multiset() =~= Multiset::empty());
            assert(feed@.to_multiset().add(present(rest@)) =~= present(stored@));
        }
        while rest.len() > 0
            invariant
                feed@.to_multiset().add(present(rest@)) == present(stored@),
                newest_first(feed@),
            decreases rest@.len(),
        {
            let ghost before = rest@;
            let ghost shown = feed@;
            let item = rest.pop();
            assert(rest@ =~= before.drop_last());
            match item {
                Some(Stored::Record(interaction)) => {
                    insert_by_time(&mut feed, interaction);
                    assert(feed@.to_multiset().add(present(rest@)) =~= shown.to_multiset().add(
                        present(before),
                    ));
                },
                _ => {},
            }
        }
        assert(present(rest@) =~= Multiset::empty());
        assert(feed@.to_multiset() =~= feed@.to_multiset().add(present(rest@)));
        feed
    }
}

/// Whether no two records of `feed` are of the same instant.
pub open spec fn distinct_instants(feed: Seq<Interaction>) -> bool {
    forall|i: int, j: int|
        0 <= i < feed.len() && 0 <= j < feed.len() && i != j ==> feed[i].timestamp
            != feed[j].timestamp
}

/// The order of a feed does not depend on the order its records were saved
/// or read in: two feeds that hold the same records, no two of the same
/// instant, and that both run from the newest to the oldest, are the same
/// feed.
pub proof fn lemma_newest_first_unique(a: Seq<Interaction>, b: Seq<Interaction>)
    requires
        a.to_multiset() == b.to_multiset(),
        newest_first(a),
        newest_first(b),
        distinct_instants(a),
    ensures
        a == b,
    decreases a.len(),
{
    broadcast use vstd::seq_lib::group_to_multiset_ensures;

    assert(a.len() == a.to_multiset().len());
    assert(b.len() == b.to_multiset().len());
    if a.len() == 0 {
        assert(a =~= b);
    } else {
        // The first record of `a` stands somewhere in `b`, and the first
        // of `b` somewhere in `a`.
        assert(a.contains(a[0]));
        assert(b.to_multiset().count(a[0]) > 0);
        assert(b.contains(a[0]));
        let k = choose|k: int| 0 <= k < b.len() && b[k] == a[0];
        assert(b.contains(b[0]));
        assert(a.to_multiset().count(b[0]) > 0);
        assert(a.contains(b[0]));
        let m = choose|m: int| 0 <= m < a.len() && a[m] == b[0];
        if m != 0 {
            // Then `b[0]` is no newer than `a[0]`, which is no newer than
            // `b[0]`: the same instant at two places of `a`.
            assert(!a[0].timestamp.before(a[m].timestamp));
            if k != 0 {
                assert(!b[0].timestamp.before(b[k].timestamp));
            }
            assert(a[0].timestamp == a[m].timestamp);
            assert(false);
        }
        assert(a[0] == b[0]);
        vstd::seq_lib::to_multiset_remove(a, 0);
        vstd::seq_lib::to_multiset_remove(b, 0);
        assert(a.remove(0) =~= a.drop_first());
        assert(b.remove(0) =~= b.drop_first());
        let rest_a = a.drop_first();
        let rest_b = b.drop_first();
        assert(newest_first(rest_a)) by {
            assert forall|i: int, j: int| 0 <= i < j < rest_a.len() implies !rest_a[i].timestamp.before(
                rest_a[j].timestamp,
            ) by {
                assert(rest_a[i] == a[i + 1] && rest_a[j] == a[j + 1]);
            }
        }
        assert(newest_first(rest_b)) by {
            assert forall|i: int, j: int| 0 <= i < j < rest_b.len() implies !rest_b[i].timestamp.before(
                rest_b[j].timestamp,
            ) by {
                assert(rest_b[i] == b[i + 1] && rest_b[j] == b[j + 1]);
            }
        }
        assert(distinct_instants(rest_a)) by {
            assert forall|i: int, j: int|
                0 <= i < rest_a.len() && 0 <= j < rest_a.len() && i != j implies rest_a[i].timestamp
                != rest_a[j].timestamp by {
                assert(rest_a[i] == a[i + 1] && rest_a[j] == a[j + 1]);
            }
        }
        lemma_newest_first_unique(rest_a, rest_b);
        assert(a =~= seq![a[0]] + rest_a);
        assert(b =~= seq![b[0]] + rest_b);
    }
}

} // verus!
