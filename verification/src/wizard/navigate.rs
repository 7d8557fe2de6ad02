//! Browsing for a directory: the entries shown, the one selected, and what
//! moving and entering do.

use vstd::prelude::*;
use vstd::utf8::*;

use crate::storage::feed::{entry_views, DirEntry, DirEntryView};
use crate::text::{lowercase_text, lowercased, opt_text, pop_char, push_char};
use crate::wizard::states::{erased, typed};
use crate::wizard::selection::{index_after, index_before, select_after, select_before};

verus! {

/// Whether the bytes `a` come before the bytes `b` or are the same, in the
/// order of a dictionary: by the first byte in which they differ, and the
/// shorter first where one is the start of the other.
pub open spec fn bytes_le(a: Seq<u8>, b: Seq<u8>) -> bool
    decreases a.len(),
{
    if a.len() == 0 {
        true
    } else if b.len() == 0 {
        false
    } else if a[0] != b[0] {
        a[0] < b[0]
    } else {
        bytes_le(a.drop_first(), b.drop_first())
    }
}

/// What entries are ordered by: the bytes of the name in lower case.
pub open spec fn sort_key(entry: DirEntryView) -> Seq<u8> {
    encode_utf8(lowercased(entry.name))
}

/// Whether `a` may stand before `b` in the list.
pub open spec fn name_le(a: DirEntryView, b: DirEntryView) -> bool {
    bytes_le(sort_key(a), sort_key(b))
}

/// Whether an entry is shown: it is a directory, and its name does not
/// start with a dot.
pub open spec fn is_visible_dir(entry: DirEntryView) -> bool {
    entry.is_dir && !(entry.name.len() > 0 && entry.name[0] == '.')
}

/// The entries of `found` that are shown, in the order found.
pub open spec fn visible_dirs(found: Seq<DirEntryView>) -> Seq<DirEntryView>
    decreases found.len(),
{
    if found.len() == 0 {
        Seq::empty()
    } else if is_visible_dir(found.last()) {
        visible_dirs(found.drop_last()).push(found.last())
    } else {
        visible_dirs(found.drop_last())
    }
}

/// `entry` put into the ordered list `sorted`: behind every entry that may
/// stand before it, and before the rest.
pub open spec fn insert_by_name(sorted: Seq<DirEntryView>, entry: DirEntryView) -> Seq<
    DirEntryView,
>
    decreases sorted.len(),
{
    if sorted.len() == 0 {
        seq![entry]
    } else if name_le(sorted.last(), entry) {
        sorted.push(entry)
    } else {
        insert_by_name(sorted.drop_last(), entry).push(sorted.last())
    }
}

/// `list` ordered by name without regard to case. Entries whose names are
/// the same but for case keep the order they had.
pub open spec fn sorted_by_name(list: Seq<DirEntryView>) -> Seq<DirEntryView>
    decreases list.len(),
{
    if list.len() == 0 {
        Seq::empty()
    } else {
        insert_by_name(sorted_by_name(list.drop_last()), list.last())
    }
}

/// Whether each entry of `list` may stand before the next.
pub open spec fn ordered_by_name(list: Seq<DirEntryView>) -> bool {
    forall|i: int| 0 <= i < list.len() - 1 ==> name_le(#[trigger] list[i], list[i + 1])
}

/// The entry that leads to the directory above, where there is one.
pub open spec fn parent_entry(parent: Option<Seq<char>>) -> Seq<DirEntryView> {
    match parent {
        Some(path) => seq![DirEntryView { name: ".."@, is_dir: true, path }],
        None => Seq::empty(),
    }
}

/// The entries shown for a directory: the way up, where there is one, and
/// then the directories in it that are shown, ordered by name.
pub open spec fn shown_entries(parent: Option<Seq<char>>, found: Seq<DirEntryView>) -> Seq<
    DirEntryView,
> {
    parent_entry(parent) + sorted_by_name(visible_dirs(found))
}

/// Of any two runs of bytes, one comes before the other or they are the
/// same.
pub proof fn lemma_bytes_le_total(a: Seq<u8>, b: Seq<u8>)
    ensures
        bytes_le(a, b) || bytes_le(b, a),
    decreases a.len(),
{
    if a.len() > 0 && b.len() > 0 && a[0] == b[0] {
        lemma_bytes_le_total(a.drop_first(), b.drop_first());
    }
}

/// Putting an entry into an ordered list leaves the list ordered, adds the
/// entry and nothing else.
pub proof fn lemma_insert_by_name(sorted: Seq<DirEntryView>, entry: DirEntryView)
    requires
        ordered_by_name(sorted),
    ensures
        ordered_by_name(insert_by_name(sorted, entry)),
        insert_by_name(sorted, entry).to_multiset() == sorted.to_multiset().insert(entry),
        insert_by_name(sorted, entry).len() == sorted.len() + 1,
        insert_by_name(sorted, entry).last() == entry || (sorted.len() > 0 && insert_by_name(
            sorted,
            entry,
        ).last() == sorted.last() && name_le(entry, sorted.last())),
    decreases sorted.len(),
{
    broadcast use vstd::seq_lib::group_to_multiset_ensures;

    let result = insert_by_name(sorted, entry);
    if sorted.len() == 0 {
        assert(sorted.to_multiset() =~= vstd::multiset::Multiset::empty());
        assert(result =~= Seq::<DirEntryView>::empty().push(entry));
    } else if name_le(sorted.last(), entry) {
        assert forall|i: int| 0 <= i < result.len() - 1 implies name_le(
            #[trigger] result[i],
            result[i + 1],
        ) by {
            if i < sorted.len() - 1 {
                assert(name_le(sorted[i], sorted[i + 1]));
            }
        }
    } else {
        let front = sorted.drop_last();
        assert forall|i: int| 0 <= i < front.len() - 1 implies name_le(
            #[trigger] front[i],
            front[i + 1],
        ) by {
            assert(name_le(sorted[i], sorted[i + 1]));
        }
        lemma_insert_by_name(front, entry);
        let inner = insert_by_name(front, entry);
        lemma_bytes_le_total(sort_key(sorted.last()), sort_key(entry));
        assert forall|i: int| 0 <= i < result.len() - 1 implies name_le(
            #[trigger] result[i],
            result[i + 1],
        ) by {
            if i < inner.len() - 1 {
                assert(name_le(inner[i], inner[i + 1]));
            } else {
                if inner.last() != entry {
                    assert(front.last() == sorted[sorted.len() - 2]);
                    assert(name_le(sorted[sorted.len() - 2], sorted[sorted.len() - 2 + 1]));
                }
            }
        }
        assert(sorted =~= front.push(sorted.last()));
        assert(result.to_multiset() =~= sorted.to_multiset().insert(entry));
    }
}

/// Ordering a list by name gives an ordered list that holds what the list
/// held, each entry as often.
pub proof fn lemma_sorted_by_name(list: Seq<DirEntryView>)
    ensures
        ordered_by_name(sorted_by_name(list)),
        sorted_by_name(list).to_multiset() == list.to_multiset(),
        sorted_by_name(list).len() == list.len(),
    decreases list.len(),
{
    broadcast use vstd::seq_lib::group_to_multiset_ensures;

    if list.len() == 0 {
    } else {
        lemma_sorted_by_name(list.drop_last());
        lemma_insert_by_name(sorted_by_name(list.drop_last()), list.last());
        assert(list =~= list.drop_last().push(list.last()));
    }
}

/// Whether the bytes `a` come before the bytes `b` or are the same.
fn compare_bytes_le(a: &[u8], b: &[u8]) -> (r: bool)
    ensures
        r == bytes_le(a@, b@),
{
    let mut i: usize = 0;
    assert(a@.skip(0) =~= a@);
    assert(b@.skip(0) =~= b@);
    while i < a.len() && i < b.len()
        invariant
            i <= a@.len(),
            i <= b@.len(),
            bytes_le(a@, b@) == bytes_le(a@.skip(i as int), b@.skip(i as int)),
        decreases a@.len() - i,
    {
        let ghost rest_a = a@.skip(i as int);
        let ghost rest_b = b@.skip(i as int);
        assert(rest_a[0] == a@[i as int] && rest_b[0] == b@[i as int]);
        if a[i] != b[i] {
            return a[i] < b[i];
        }
        assert(rest_a.drop_first() =~= a@.skip(i + 1));
        assert(rest_b.drop_first() =~= b@.skip(i + 1));
        i += 1;
    }
    i == a.len()
}

/// Whether an entry is shown.
fn visible_dir(entry: &DirEntry) -> (r: bool)
    ensures
        r == is_visible_dir(entry@),
{
    entry.is_dir && !(entry.name.as_str().unicode_len() > 0 && entry.name.as_str().get_char(0)
        == '.')
}

/// A copy of `entry`.
fn copy_entry(entry: &DirEntry) -> (copy: DirEntry)
    ensures
        copy@ == entry@,
{
    DirEntry { name: entry.name.clone(), is_dir: entry.is_dir, path: entry.path.clone() }
}

/// Puts `entry` into the ordered list `sorted`.
fn insert_entry_by_name(sorted: &mut Vec<DirEntry>, entry: DirEntry)
    ensures
        entry_views(final(sorted)@) == insert_by_name(entry_views(old(sorted)@), entry@),
{
    let key = lowercase_text(entry.name.as_str());
    let ghost before = entry_views(sorted@);
    let mut at: usize = sorted.len();
    assert(before.take(at as int) =~= before);
    assert(before.skip(at as int) =~= Seq::empty());
    assert(insert_by_name(before, entry@) =~= insert_by_name(before.take(at as int), entry@)
        + before.skip(at as int));
    loop
        invariant
            at <= sorted@.len(),
            sorted@ == old(sorted)@,
            before == entry_views(sorted@),
            key@ == lowercased(entry@.name),
            insert_by_name(before, entry@) == insert_by_name(before.take(at as int), entry@)
                + before.skip(at as int),
        ensures
            at <= sorted@.len(),
            sorted@ == old(sorted)@,
            before == entry_views(sorted@),
            insert_by_name(before, entry@) == before.take(at as int).push(entry@) + before.skip(
                at as int,
            ),
        decreases at,
    {
        if at == 0 {
            assert(before.take(0) =~= Seq::empty());
            assert(insert_by_name(before.take(0), entry@) =~= before.take(0).push(entry@));
            break;
        }
        let other = lowercase_text(sorted[at - 1].name.as_str());
        let ghost head = before.take(at as int);
        assert(head.last() == sorted@[at - 1]@);
        if compare_bytes_le(other.as_str().as_bytes(), key.as_str().as_bytes()) {
            break;
        }
        assert(head.drop_last() =~= before.take(at - 1));
        assert(insert_by_name(head, entry@) + before.skip(at as int) =~= insert_by_name(
            before.take(at - 1),
            entry@,
        ) + before.skip(at - 1));
        at -= 1;
    }
    let ghost view = entry@;
    sorted.insert(at, entry);
    assert(entry_views(sorted@) =~= before.take(at as int).push(view) + before.skip(at as int));
}

/// The state of browsing for a directory.
#[derive(Debug, Clone)]
pub struct NavigateDirState {
    /// The directory that is shown.
    pub current_dir: String,
    /// The entries shown for it.
    pub entries: Vec<DirEntry>,
    /// Which entry is selected.
    pub selected_index: usize,
    /// What went wrong last, if anything.
    pub error_message: Option<String>,
    /// The path that is being typed.
    pub input_buffer: String,
    /// Whether a path is being typed.
    pub input_mode: bool,
}

/// What the state of browsing is, as mathematical values.
pub struct NavigateDirStateView {
    pub current_dir: Seq<char>,
    pub entries: Seq<DirEntryView>,
    pub selected_index: usize,
    pub error_message: Option<Seq<char>>,
    pub input_buffer: Seq<char>,
    pub input_mode: bool,
}

impl View for NavigateDirState {
    type V = NavigateDirStateView;

    open spec fn view(&self) -> NavigateDirStateView {
        NavigateDirStateView {
            current_dir: self.current_dir@,
            entries: entry_views(self.entries@),
            selected_index: self.selected_index,
            error_message: opt_text(self.error_message),
            input_buffer: self.input_buffer@,
            input_mode: self.input_mode,
        }
    }
}

impl NavigateDirStateView {
    /// Whether the selected entry is a directory that can be entered.
    pub open spec fn can_enter(self) -> bool {
        self.selected_index < self.entries.len() && self.entries[self.selected_index as int].is_dir
    }
}

/// The text of the path of the directory above, if there is one.
pub open spec fn parent_text(parent: Option<String>) -> Option<Seq<char>> {
    opt_text(parent)
}

impl NavigateDirState {
    /// Browsing that starts in `start_dir`, whose directory above is
    /// `parent`, if it has one, and which holds `found`.
    pub fn new(start_dir: &str, parent: Option<String>, found: &Vec<DirEntry>) -> (state:
        NavigateDirState)
        ensures
            state@ == (NavigateDirStateView {
                current_dir: start_dir@,
                entries: shown_entries(parent_text(parent), entry_views(found@)),
                selected_index: 0,
                error_message: None,
                input_buffer: Seq::empty(),
                input_mode: false,
            }),
    {
        let mut state = NavigateDirState {
            current_dir: start_dir.to_owned(),
            entries: Vec::new(),
            selected_index: 0,
            error_message: None,
            input_buffer: String::new(),
            input_mode: false,
        };
        state.refresh_entries(parent, found);
        state
    }

    /// Shows the directory anew: `parent` is the directory above it, if it
    /// has one, and `found` is what it holds. The first entry is selected.
    pub fn refresh_entries(&mut self, parent: Option<String>, found: &Vec<DirEntry>)
        ensures
            final(self)@ == (NavigateDirStateView {
                entries: shown_entries(parent_text(parent), entry_views(found@)),
                selected_index: 0,
                ..old(self)@
            }),
    {
        let ghost all = entry_views(found@);
        let mut sorted: Vec<DirEntry> = Vec::new();
        let mut i: usize = 0;
        while i < found.len()
            invariant
                i <= found@.len(),
                all == entry_views(found@),
                entry_views(sorted@) == sorted_by_name(visible_dirs(all.take(i as int))),
            decreases found@.len() - i,
        {
            let ghost prefix = all.take(i as int);
            let ghost longer = all.take(i + 1);
            assert(longer.drop_last() =~= prefix);
            if visible_dir(&found[i]) {
                let ghost visible = visible_dirs(prefix);
                assert(visible.push(found@[i as int]@).drop_last() =~= visible);
                insert_entry_by_name(&mut sorted, copy_entry(&found[i]));
            }
            i += 1;
        }
        assert(all.take(i as int) =~= all);
        let mut entries: Vec<DirEntry> = Vec::new();
        match parent {
            Some(path) => {
                entries.push(DirEntry { name: "..".to_owned(), is_dir: true, path });
            },
            None => {},
        }
        assert(entry_views(entries@) =~= parent_entry(parent_text(parent)));
        let ghost top = entry_views(entries@);
        let ghost below = entry_views(sorted@);
        entries.append(&mut sorted);
        assert(entry_views(entries@) =~= top + below);
        self.entries = entries;
        self.selected_index = 0;
    }

    /// Enters the selected entry, where it is a directory: that directory
    /// becomes the one shown, and the message of an earlier failure goes
    /// away. Gives whether it did so; the caller then lists the directory
    /// and hands what it holds to `refresh_entries`.
    pub fn enter_selected(&mut self) -> (entered: bool)
        ensures
            entered == old(self)@.can_enter(),
            entered ==> final(self)@ == (NavigateDirStateView {
                current_dir: old(self)@.entries[old(self)@.selected_index as int].path,
                error_message: None,
                ..old(self)@
            }),
            !entered ==> final(self)@ == old(self)@,
    {
        if self.selected_index < self.entries.len() && self.entries[self.selected_index].is_dir {
            self.current_dir = self.entries[self.selected_index].path.clone();
            self.error_message = None;
            return true;
        }
        false
    }

    /// Switches between browsing and typing a path. Typing starts from the
    /// path of the directory shown. The message of an earlier failure goes
    /// away either way.
    pub fn toggle_input(&mut self)
        ensures
            final(self)@ == (NavigateDirStateView {
                input_mode: !old(self)@.input_mode,
                input_buffer: if old(self)@.input_mode {
                    old(self)@.input_buffer
                } else {
                    old(self)@.current_dir
                },
                error_message: None,
                ..old(self)@
            }),
    {
        self.input_mode = !self.input_mode;
        if self.input_mode {
            self.input_buffer = self.current_dir.clone();
        }
        self.error_message = None;
    }

    /// Types one character of the path: while a path is being typed, it
    /// goes to the end of the buffer, and the message of an earlier failure
    /// goes away. While browsing, nothing happens.
    pub fn input_char(&mut self, c: char)
        ensures
            old(self)@.input_mode ==> final(self)@ == (NavigateDirStateView {
                input_buffer: typed(old(self)@.input_buffer, c),
                error_message: None,
                ..old(self)@
            }),
            !old(self)@.input_mode ==> final(self)@ == old(self)@,
    {
        if self.input_mode {
            push_char(&mut self.input_buffer, c);
            self.error_message = None;
        }
    }

    /// Takes the last character off the path that is being typed, if there
    /// is one. While browsing, nothing happens.
    pub fn input_backspace(&mut self)
        ensures
            old(self)@.input_mode ==> final(self)@ == (NavigateDirStateView {
                input_buffer: erased(old(self)@.input_buffer),
                ..old(self)@
            }),
            !old(self)@.input_mode ==> final(self)@ == old(self)@,
    {
        if self.input_mode {
            pop_char(&mut self.input_buffer);
        }
    }

    /// Enters the path that was typed, of which the caller says whether it
    /// leads to a directory. Where it does, that directory becomes the one
    /// shown, the typing ends with an empty buffer, and the caller lists
    /// the directory and hands what it holds to `refresh_entries`. Where it
    /// does not, a message says so and everything else stays.
    pub fn enter_typed(&mut self, is_dir: bool) -> (entered: bool)
        ensures
            entered == is_dir,
            is_dir ==> final(self)@ == (NavigateDirStateView {
                current_dir: old(self)@.input_buffer,
                input_buffer: Seq::empty(),
                input_mode: false,
                error_message: None,
                ..old(self)@
            }),
            !is_dir ==> final(self)@ == (NavigateDirStateView {
                error_message: Some("Invalid directory path"@),
                ..old(self)@
            }),
    {
        if is_dir {
            self.current_dir = self.input_buffer.clone();
            self.input_buffer = String::new();
            self.input_mode = false;
            self.error_message = None;
            true
        } else {
            self.error_message = Some("Invalid directory path".to_owned());
            false
        }
    }

    /// Moves the selection up by one, and from the first entry to the last.
    pub fn select_previous(&mut self)
        ensures
            final(self)@ == (NavigateDirStateView {
                selected_index: index_before(
                    old(self)@.selected_index as int,
                    old(self)@.entries.len() as int,
                ) as usize,
                ..old(self)@
            }),
    {
        self.selected_index = select_before(self.selected_index, self.entries.len());
    }

    /// Moves the selection down by one, and from the last entry to the
    /// first.
    pub fn select_next(&mut self)
        requires
            old(self)@.entries.len() > 0 ==> old(self)@.selected_index < usize::MAX,
        ensures
            final(self)@ == (NavigateDirStateView {
                selected_index: index_after(
                    old(self)@.selected_index as int,
                    old(self)@.entries.len() as int,
                ) as usize,
                ..old(self)@
            }),
    {
        self.selected_index = select_after(self.selected_index, self.entries.len());
    }
}

} // verus!
