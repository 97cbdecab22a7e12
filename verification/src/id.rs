//! Typed record identifiers.

use std::marker::PhantomData;
use vstd::prelude::*;
use vstd::string::StrSliceExecFns;

verus! {

/// Whether `c` has the Unicode property White_Space.
pub uninterp spec fn white_space(c: char) -> bool;

/// Asks `char::is_whitespace` of std, which tells whether a character has
/// the Unicode property White_Space.
#[verifier::external_body]
fn is_whitespace(c: char) -> (b: bool)
    ensures
        b == white_space(c),
{
    c.is_whitespace()
}

/// Whether `text` is how a generated identifier looks: two to ten
/// characters, a lower-case letter first, then lower-case letters and digits.
pub open spec fn is_slug(text: Seq<char>) -> bool {
    &&& 2 <= text.len() <= 10
    &&& 'a' <= text[0] <= 'z'
    &&& forall|i: int|
        1 <= i < text.len() ==> ('a' <= #[trigger] text[i] <= 'z') || ('0' <= text[i] <= '9')
}

/// Draws a fresh identifier with `cuid2::slug`: a random lower-case letter
/// followed by up to nine characters of a hash in base 36. Which one comes
/// back depends on the time, on chance and on a counter, so that only its
/// form is promised.
#[verifier::external_body]
fn fresh_slug() -> (slug: String)
    ensures
        is_slug(slug@),
{
    cuid2::slug()
}

/// `text` without the white space at its start.
pub open spec fn trim_start(text: Seq<char>) -> Seq<char>
    decreases text.len(),
{
    if text.len() > 0 && white_space(text[0]) {
        trim_start(text.drop_first())
    } else {
        text
    }
}

/// `text` without the white space at its end.
pub open spec fn trim_end(text: Seq<char>) -> Seq<char>
    decreases text.len(),
{
    if text.len() > 0 && white_space(text.last()) {
        trim_end(text.drop_last())
    } else {
        text
    }
}

/// `text` without the white space at its start and at its end.
pub open spec fn trimmed(text: Seq<char>) -> Seq<char> {
    trim_end(trim_start(text))
}

/// What is left once the white space at the start is removed is the end of
/// the text, what was removed is white space, and what is left does not
/// start with any.
pub proof fn law_trim_start(text: Seq<char>)
    ensures
        ({
            let rest = trim_start(text);
            let cut = text.len() - rest.len();
            &&& 0 <= cut <= text.len()
            &&& rest == text.subrange(cut, text.len() as int)
            &&& forall|i: int| 0 <= i < cut ==> white_space(#[trigger] text[i])
            &&& rest.len() > 0 ==> !white_space(rest[0])
        }),
    decreases text.len(),
{
    if text.len() > 0 && white_space(text[0]) {
        let tail = text.drop_first();
        law_trim_start(tail);
        let rest = trim_start(tail);
        let cut = tail.len() - rest.len();
        assert(rest == text.subrange(cut + 1, text.len() as int));
        assert forall|i: int| 0 <= i < cut + 1 implies white_space(#[trigger] text[i]) by {
            if i > 0 {
                assert(text[i] == tail[i - 1]);
            }
        }
    } else {
        assert(text == text.subrange(0, text.len() as int));
    }
}

/// What is left once the white space at the end is removed is the start of
/// the text, what was removed is white space, and what is left does not end
/// with any.
pub proof fn law_trim_end(text: Seq<char>)
    ensures
        ({
            let rest = trim_end(text);
            &&& rest.len() <= text.len()
            &&& rest == text.subrange(0, rest.len() as int)
            &&& forall|i: int| rest.len() <= i < text.len() ==> white_space(#[trigger] text[i])
            &&& rest.len() > 0 ==> !white_space(rest.last())
        }),
    decreases text.len(),
{
    if text.len() > 0 && white_space(text.last()) {
        let front = text.drop_last();
        law_trim_end(front);
        let rest = trim_end(front);
        assert(rest == text.subrange(0, rest.len() as int));
        assert forall|i: int| rest.len() <= i < text.len() implies white_space(
            #[trigger] text[i],
        ) by {
            if i < front.len() {
                assert(text[i] == front[i]);
            }
        }
    } else {
        assert(text == text.subrange(0, text.len() as int));
    }
}

/// A trimmed text has no white space at either end, and trimming it again
/// changes nothing.
pub proof fn law_trimmed(text: Seq<char>)
    ensures
        trimmed(text).len() > 0 ==> !white_space(trimmed(text)[0]) && !white_space(
            trimmed(text).last(),
        ),
        trimmed(trimmed(text)) == trimmed(text),
{
    law_trim_start(text);
    law_trim_end(trim_start(text));
    let once = trimmed(text);
    if once.len() > 0 {
        assert(once[0] == trim_start(text)[0]);
    }
}

/// What [`Id::from`] makes of `text`: the trimmed text, and no value where
/// nothing is left of it.
pub open spec fn id_from_text(text: Seq<char>) -> Option<Seq<char>> {
    if trimmed(text).len() == 0 {
        None
    } else {
        Some(trimmed(text))
    }
}

/// Removes the white space at the start and at the end of `text`.
pub fn trim(text: &str) -> (rest: &str)
    ensures
        rest@ == trimmed(text@),
{
    let n: usize = text.unicode_len();
    let mut start: usize = 0;
    assert(text@.subrange(0, n as int) =~= text@);
    while start < n && is_whitespace(text.get_char(start))
        invariant
            start <= n == text@.len(),
            trim_start(text@) == trim_start(text@.subrange(start as int, n as int)),
        decreases n - start,
    {
        proof {
            let here = text@.subrange(start as int, n as int);
            assert(here.drop_first() =~= text@.subrange(start + 1, n as int));
        }
        start += 1;
    }
    let ghost front = text@.subrange(start as int, n as int);
    let mut end: usize = n;
    while end > start && is_whitespace(text.get_char(end - 1))
        invariant
            start <= end <= n == text@.len(),
            trim_end(front) == trim_end(text@.subrange(start as int, end as int)),
            front == text@.subrange(start as int, n as int),
        decreases end - start,
    {
        proof {
            let here = text@.subrange(start as int, end as int);
            assert(here.drop_last() =~= text@.subrange(start as int, end - 1));
        }
        end -= 1;
    }
    text.substring_char(start, end)
}

/// The primary key of a record of table type `T`.
///
/// An identifier is either unassigned (`None`, the state of a record that was
/// never stored) or holds the slug under which the record is stored.
#[derive(PartialEq, Eq, PartialOrd, Ord, Hash, Debug)]
pub struct Id<T> {
    /// The underlying value
    pub value: Option<String>,
    /// Ties the identifier to its table type; holds nothing.
    pub _phantom: PhantomData<T>,
}

impl<T> View for Id<T> {
    type V = Option<Seq<char>>;

    open spec fn view(&self) -> Option<Seq<char>> {
        match self.value {
            Some(s) => Some(s@),
            None => None,
        }
    }
}

impl<T> Clone for Id<T> {
    fn clone(&self) -> (res: Self)
        ensures
            res@ == self@,
    {
        Id { value: self.value.clone(), _phantom: PhantomData }
    }
}

impl<T> Default for Id<T> {
    fn default() -> (id: Self)
        ensures
            id@ is None,
    {
        Id { value: None, _phantom: PhantomData }
    }
}

impl<T> Id<T> {
    /// Creates an unassigned identifier.
    pub fn new() -> (id: Self)
        ensures
            id@ is None,
    {
        Self::with_value(None)
    }

    /// Creates an identifier that holds `value` as it is.
    pub fn with_value(value: Option<String>) -> (id: Self)
        ensures
            id.value == value,
    {
        Id { value, _phantom: PhantomData }
    }

    /// Generates a fresh identifier. It is assigned, and has the form of a
    /// slug.
    pub fn generate() -> (id: Self)
        ensures
            id@ matches Some(slug) && is_slug(slug),
    {
        Self::with_value(Some(fresh_slug()))
    }

    /// The identifier that holds `value` without the white space around it,
    /// or the unassigned one where nothing but white space is given.
    pub fn from(value: &str) -> (id: Self)
        ensures
            id@ == id_from_text(value@),
    {
        let value = trim(value);
        if value.unicode_len() == 0 {
            Self::new()
        } else {
            Self::with_value(Some(value.to_owned()))
        }
    }

    /// The identifier as a path segment: its value, or the empty string
    /// where it is unassigned.
    pub fn to_string(&self) -> (text: String)
        ensures
            text@ == match self@ {
                Some(value) => value,
                None => Seq::empty(),
            },
    {
        match &self.value {
            Some(value) => value.clone(),
            None => String::new(),
        }
    }

    /// Whether the identifier is assigned.
    pub fn is_some(&self) -> (b: bool)
        ensures
            b == (self@ is Some),
    {
        self.value.is_some()
    }

    /// Whether the identifier is unassigned.
    pub fn is_none(&self) -> (b: bool)
        ensures
            b == (self@ is None),
    {
        self.value.is_none()
    }
}

} // verus!
