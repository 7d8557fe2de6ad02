//! Small operations on text that the rest of the library builds on.

use vstd::prelude::*;
use vstd::utf8::*;

verus! {

/// Whether two strings hold the same text, decided byte by byte.
pub fn text_eq(a: &str, b: &str) -> (r: bool)
    ensures
        r == (a@ == b@),
{
    let x = a.as_bytes();
    let y = b.as_bytes();
    proof {
        encode_utf8_decode_utf8(a@);
        encode_utf8_decode_utf8(b@);
    }
    if x.len() != y.len() {
        return false;
    }
    let mut i: usize = 0;
    while i < x.len()
        invariant
            i <= x@.len(),
            x@.len() == y@.len(),
            x@ == encode_utf8(a@),
            y@ == encode_utf8(b@),
            forall|j: int| 0 <= j < i ==> x@[j] == y@[j],
        decreases x@.len() - i,
    {
        if x[i] != y[i] {
            return false;
        }
        i += 1;
    }
    assert(x@ =~= y@);
    true
}

/// The texts of a list of strings, in order.
pub open spec fn texts(list: Seq<String>) -> Seq<Seq<char>> {
    Seq::new(list.len(), |i: int| list[i]@)
}

/// The text of an optional string.
pub open spec fn opt_text(value: Option<String>) -> Option<Seq<char>> {
    match value {
        Some(s) => Some(s@),
        None => None,
    }
}

/// Whether `needle` is the text of one of the strings in `list`.
pub fn contains_text(list: &Vec<String>, needle: &str) -> (r: bool)
    ensures
        r == texts(list@).contains(needle@),
{
    let mut i: usize = 0;
    while i < list.len()
        invariant
            i <= list@.len(),
            forall|j: int| 0 <= j < i ==> list@[j]@ != needle@,
        decreases list@.len() - i,
    {
        if text_eq(list[i].as_str(), needle) {
            assert(texts(list@)[i as int] == needle@);
            return true;
        }
        i += 1;
    }
    assert forall|j: int| 0 <= j < texts(list@).len() implies texts(list@)[j] != needle@ by {}
    false
}

/// Whether `text` ends with `suffix`.
pub open spec fn ends_with(text: Seq<char>, suffix: Seq<char>) -> bool {
    text.len() >= suffix.len() && text.subrange(text.len() - suffix.len(), text.len() as int)
        == suffix
}

/// `text` without its last `count` characters.
pub open spec fn without_last(text: Seq<char>, count: nat) -> Seq<char>
    recommends
        count <= text.len(),
{
    text.subrange(0, text.len() - count)
}

/// `text` with `suffix` taken from its end as often as it stands there.
pub open spec fn strip_suffix_all(text: Seq<char>, suffix: Seq<char>) -> Seq<char>
    decreases text.len(),
{
    if suffix.len() > 0 && ends_with(text, suffix) {
        strip_suffix_all(without_last(text, suffix.len()), suffix)
    } else {
        text
    }
}

/// Whether `text` ends with `suffix`.
pub fn text_ends_with(text: &str, suffix: &str) -> (r: bool)
    ensures
        r == ends_with(text@, suffix@),
{
    let text_len = text.unicode_len();
    let suffix_len = suffix.unicode_len();
    if text_len < suffix_len {
        return false;
    }
    text_eq(text.substring_char(text_len - suffix_len, text_len), suffix)
}

/// `text` with `suffix` taken from its end as often as it stands there.
pub fn text_strip_suffix_all(text: &str, suffix: &str) -> (stripped: String)
    ensures
        stripped@ == strip_suffix_all(text@, suffix@),
{
    let suffix_len = suffix.unicode_len();
    let mut end = text.unicode_len();
    if suffix_len > 0 {
        assert(text@.subrange(0, end as int) =~= text@);
        while end >= suffix_len && text_eq(text.substring_char(end - suffix_len, end), suffix)
            invariant
                end <= text@.len(),
                suffix_len == suffix@.len(),
                suffix_len > 0,
                strip_suffix_all(text@, suffix@) == strip_suffix_all(
                    text@.subrange(0, end as int),
                    suffix@,
                ),
            decreases end,
        {
            let ghost head = text@.subrange(0, end as int);
            assert(head.subrange(head.len() - suffix@.len(), head.len() as int) =~= text@.subrange(
                end - suffix_len,
                end as int,
            ));
            assert(without_last(head, suffix@.len()) =~= text@.subrange(0, end - suffix_len));
            end = end - suffix_len;
        }
        proof {
            let head = text@.subrange(0, end as int);
            if end >= suffix_len {
                assert(head.subrange(head.len() - suffix@.len(), head.len() as int)
                    =~= text@.subrange(end - suffix_len, end as int));
            }
        }
    }
    text.substring_char(0, end).to_owned()
}

/// `text` without the white space at its start and at its end, as
/// `str::trim` gives it.
pub uninterp spec fn trimmed(text: Seq<char>) -> Seq<char>;

/// `text` in lower case, as `str::to_lowercase` gives it.
pub uninterp spec fn lowercased(text: Seq<char>) -> Seq<char>;

/// Calls `str::trim`, which takes the white space off both ends of the
/// text, and copies what is left.
#[verifier::external_body]
pub(crate) fn trim_text(text: &str) -> (r: String)
    ensures
        r@ == trimmed(text@),
{
    text.trim().to_string()
}

/// Calls `str::to_lowercase`, which gives the text in lower case.
#[verifier::external_body]
pub(crate) fn lowercase_text(text: &str) -> (r: String)
    ensures
        r@ == lowercased(text@),
{
    text.to_lowercase()
}

/// Calls `String::push`, which puts one character at the end of the text.
#[verifier::external_body]
pub(crate) fn push_char(text: &mut String, c: char)
    ensures
        final(text)@ == old(text)@.push(c),
{
    text.push(c);
}

/// Takes the last character off the text, and leaves an empty text as it
/// is.
pub fn pop_char(text: &mut String)
    ensures
        final(text)@ == (if old(text)@.len() > 0 {
            old(text)@.drop_last()
        } else {
            old(text)@
        }),
{
    let count = text.as_str().unicode_len();
    if count > 0 {
        let kept = text.as_str().substring_char(0, count - 1).to_owned();
        assert(kept@ =~= old(text)@.drop_last());
        *text = kept;
    }
}

/// Whether the character `c` occurs in `text`.
pub fn contains_char(text: &str, c: char) -> (r: bool)
    ensures
        r == text@.contains(c),
{
    let mut found = false;
    for x in it: text.chars()
        invariant
            found == (exists|j: int| 0 <= j < it.index() && text@[j] == c),
            it.seq() == text@,
    {
        if x == c {
            found = true;
        }
    }
    found
}

} // verus!
