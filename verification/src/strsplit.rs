//! Splitting a text at every occurrence of a delimiter, piece by piece.

use vstd::prelude::*;

verus! {

/// `pattern` stands in `text` at position `at`.
pub open spec fn occurs_at(text: Seq<char>, pattern: Seq<char>, at: int) -> bool {
    &&& 0 <= at
    &&& at + pattern.len() <= text.len()
    &&& text.subrange(at, at + pattern.len()) == pattern
}

/// `pattern` stands somewhere in `text`.
pub open spec fn occurs(text: Seq<char>, pattern: Seq<char>) -> bool {
    exists|at: int| occurs_at(text, pattern, at)
}

/// `pattern` stands in `text` at position `at` and nowhere before.
pub open spec fn first_at(text: Seq<char>, pattern: Seq<char>, at: int) -> bool {
    &&& occurs_at(text, pattern, at)
    &&& forall|earlier: int| 0 <= earlier < at ==> !occurs_at(text, pattern, earlier)
}

/// The position of the first occurrence of `pattern` in `text`, if there is
/// one.
pub open spec fn split_point(text: Seq<char>, pattern: Seq<char>) -> Option<int> {
    if occurs(text, pattern) {
        Some(choose|at: int| first_at(text, pattern, at))
    } else {
        None
    }
}

/// `str::split_once` with a string pattern: the parts of `text` before and
/// after the first occurrence of `delimiter`, or nothing when `delimiter` does
/// not occur in `text`.
#[verifier::external_body]
fn split_once<'a>(text: &'a str, delimiter: &str) -> (parts: Option<(&'a str, &'a str)>)
    ensures
        match parts {
            Some((before, after)) => {
                &&& first_at(text@, delimiter@, before@.len() as int)
                &&& before@ == text@.subrange(0, before@.len() as int)
                &&& after@ == text@.subrange(
                    (before@.len() + delimiter@.len()) as int,
                    text@.len() as int,
                )
            },
            None => !occurs(text@, delimiter@),
        },
{
    text.split_once(delimiter)
}

/// The pieces of a text between the occurrences of a delimiter, handed out one
/// at a time from the front.
#[derive(Debug, PartialEq)]
pub struct StrSplit<'a> {
    remainder: Option<&'a str>,
    delimiter: &'a str,
}

impl<'a> StrSplit<'a> {
    /// The part of the text that has not been handed out yet. `None` once the
    /// last piece is out.
    pub closed spec fn remainder(&self) -> Option<Seq<char>> {
        match self.remainder {
            Some(rest) => Some(rest@),
            None => None,
        }
    }

    /// The delimiter at which the text is split.
    pub closed spec fn delimiter(&self) -> Seq<char> {
        self.delimiter@
    }

    /// Starts splitting `haystack` at `delimiter`.
    pub fn new(haystack: &'a str, delimiter: &'a str) -> (split: Self)
        ensures
            split.remainder() == Some(haystack@),
            split.delimiter() == delimiter@,
    {
        Self { remainder: Some(haystack), delimiter }
    }

    /// Hands out the next piece: the text up to the next delimiter, or all
    /// that is left when no delimiter follows. After that last piece there is
    /// nothing more.
    pub fn next(&mut self) -> (piece: Option<&'a str>)
        ensures
            final(self).delimiter() == old(self).delimiter(),
            match old(self).remainder() {
                None => piece is None && final(self).remainder() is None,
                Some(rest) => match split_point(rest, old(self).delimiter()) {
                    Some(at) => {
                        &&& piece matches Some(found)
                        &&& found@ == rest.subrange(0, at)
                        &&& final(self).remainder() == Some(
                            rest.subrange(at + old(self).delimiter().len(), rest.len() as int),
                        )
                    },
                    None => {
                        &&& piece matches Some(found)
                        &&& found@ == rest
                        &&& final(self).remainder() is None
                    },
                },
            },
    {
        match self.remainder {
            Some(rest) => match split_once(rest, self.delimiter) {
                Some((before, after)) => {
                    self.remainder = Some(after);
                    Some(before)
                },
                None => {
                    self.remainder = None;
                    Some(rest)
                },
            },
            None => None,
        }
    }
}

/// The part of `s` before the first `c`, or all of `s` when `c` does not occur
/// in it.
pub fn until_char(s: &str, c: char) -> (prefix: &str)
    ensures
        prefix@.len() <= s@.len(),
        prefix@ == s@.subrange(0, prefix@.len() as int),
        !prefix@.contains(c),
        prefix@.len() < s@.len() ==> s@[prefix@.len() as int] == c,
{
    let total = s.unicode_len();
    let mut count: usize = 0;
    for letter in letters: s.chars()
        invariant
            count == letters.index(),
            letters.seq() == s@,
            total == s@.len(),
            forall|i: int| 0 <= i < count ==> s@[i] != c,
    {
        if letter == c {
            let prefix = s.substring_char(0, count);
            return prefix;
        }
        count += 1;
    }
    s
}

/// Cuts `"hello world"` at its first `'o'`; what is left is `"hell"`.
pub fn test_until_character() {
    let prefix = until_char("hello world", 'o');
    proof {
        reveal_strlit("hello world");
        reveal_strlit("hell");
        if prefix@.len() > 4 {
            assert(prefix@[4] == 'o');
        }
    }
    assert(prefix@ == "hell"@);
}

} // verus!
