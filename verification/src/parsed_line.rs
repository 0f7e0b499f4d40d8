// Copyright 2021, Collabora, Ltd.
//
// SPDX-License-Identifier: Apache-2.0 OR MIT

//! Low-level handling of a self-contained single line key: value pair.

use crate::pair::{
    KeyValuePair, MayContainKeyValuePair, MayContainKeyValuePairOrKeylessLine, PairView,
};
use crate::text::{
    delimiter, delimiter_at, find_delimiter, first_delimiter, has_delimiter, is_blank,
    is_first_delimiter, is_whitespace, lemma_first_delimiter, str_is_blank,
};
use vstd::prelude::*;
use vstd::std_specs::cmp::PartialEqSpecImpl;
use vstd::std_specs::convert::FromSpecImpl;
use vstd::string::StrSliceExecFns;

verus! {

/// The result of parsing a single line as a key: value.
///
/// Does not handle any kind of multi-line values.
/// The multi-line version of this is [`Output`](crate::Output).
#[derive(Debug)]
pub enum ParsedLine {
    /// A line that is empty or only whitespace
    EmptyLine,
    /// A line with no key: part.
    KeylessLine(String),
    /// A proper key-value pair.
    Pair(KeyValuePair),
}

impl PartialEq for ParsedLine {
    fn eq(&self, other: &Self) -> (r: bool) {
        match (self, other) {
            (ParsedLine::EmptyLine, ParsedLine::EmptyLine) => true,
            (ParsedLine::KeylessLine(a), ParsedLine::KeylessLine(b)) => *a == *b,
            (ParsedLine::Pair(a), ParsedLine::Pair(b)) => *a == *b,
            _ => false,
        }
    }
}

impl PartialEqSpecImpl for ParsedLine {
    open spec fn obeys_eq_spec() -> bool {
        true
    }

    /// Two parsed lines are equal when they are of the same kind and hold the same text.
    open spec fn eq_spec(&self, other: &Self) -> bool {
        self@ == other@
    }
}

impl Clone for ParsedLine {
    fn clone(&self) -> (r: Self)
        ensures
            r == *self,
    {
        match self {
            ParsedLine::EmptyLine => ParsedLine::EmptyLine,
            ParsedLine::KeylessLine(text) => ParsedLine::KeylessLine(text.clone()),
            ParsedLine::Pair(pair) => ParsedLine::Pair(pair.clone()),
        }
    }
}

/// What a [`ParsedLine`] stands for in contracts.
pub enum ParsedLineView {
    EmptyLine,
    KeylessLine(Seq<char>),
    Pair(PairView),
}

impl View for ParsedLine {
    type V = ParsedLineView;

    open spec fn view(&self) -> ParsedLineView {
        match self {
            ParsedLine::EmptyLine => ParsedLineView::EmptyLine,
            ParsedLine::KeylessLine(text) => ParsedLineView::KeylessLine(text@),
            ParsedLine::Pair(pair) => ParsedLineView::Pair(pair@),
        }
    }
}

/// How one line is classified.
///
/// A blank line is an empty line. Any other line is split at the first occurrence of
/// the delimiter `": "`: the key is all that stands before it, the value all that
/// stands behind it, neither of them trimmed. A line that is not blank and holds no
/// delimiter is keyless, and is kept whole.
pub open spec fn classify(line: Seq<char>) -> ParsedLineView {
    if is_blank(line) {
        ParsedLineView::EmptyLine
    } else if has_delimiter(line) {
        let at: int = first_delimiter(line);
        ParsedLineView::Pair(PairView { key: line.take(at), value: line.skip(at + 2) })
    } else {
        ParsedLineView::KeylessLine(line)
    }
}

impl<'a> From<&'a str> for ParsedLine {
    /// Classifies one line, which holds no line terminator.
    fn from(line: &'a str) -> (r: ParsedLine)
        ensures
            r@ == classify(line@),
            r is EmptyLine <==> is_blank(line@),
            r matches ParsedLine::KeylessLine(text) ==> text@ == line@,
            r matches ParsedLine::Pair(pair) ==> line@ == pair.key@ + delimiter() + pair.value@
                && is_first_delimiter(line@, pair.key@.len() as int),
    {
        if str_is_blank(line) {
            return ParsedLine::EmptyLine;
        }
        match find_delimiter(line) {
            Some(at) => {
                proof {
                    lemma_first_delimiter(line@);
                    lemma_pair_splits_at_first_delimiter(line@);
                }
                let end: usize = line.unicode_len();
                let key = line.substring_char(0, at);
                let value = line.substring_char(at + 2, end);
                ParsedLine::Pair(KeyValuePair { key: key.to_owned(), value: value.to_owned() })
            },
            None => ParsedLine::KeylessLine(line.to_owned()),
        }
    }
}

impl<'a> FromSpecImpl<&'a str> for ParsedLine {
    /// The strings in the result are new ones, known by their text alone, so no spec
    /// function names the result: `from` states what it returns over the view, in its
    /// own `ensures`.
    open spec fn obeys_from_spec() -> bool {
        false
    }

    open spec fn from_spec(line: &'a str) -> ParsedLine {
        arbitrary()
    }
}

impl MayContainKeyValuePair for ParsedLine {
    open spec fn held_pair(&self) -> Option<KeyValuePair> {
        match self {
            ParsedLine::Pair(pair) => Some(*pair),
            ParsedLine::EmptyLine => None,
            ParsedLine::KeylessLine(_) => None,
        }
    }

    fn is_pair(&self) -> (b: bool) {
        match self {
            ParsedLine::Pair(_) => true,
            ParsedLine::EmptyLine => false,
            ParsedLine::KeylessLine(_) => false,
        }
    }

    fn pair(self) -> (r: Option<KeyValuePair>) {
        match self {
            ParsedLine::Pair(pair) => Some(pair),
            ParsedLine::EmptyLine => None,
            ParsedLine::KeylessLine(_) => None,
        }
    }
}

impl MayContainKeyValuePairOrKeylessLine for ParsedLine {
    open spec fn is_keyless_line(&self) -> bool {
        self is KeylessLine
    }

    fn pair_or_err_on_keyless<E>(self, err: E) -> (r: Result<Option<KeyValuePair>, E>) {
        match self {
            ParsedLine::EmptyLine => Ok(None),
            ParsedLine::KeylessLine(_) => Err(err),
            ParsedLine::Pair(pair) => Ok(Some(pair)),
        }
    }

    fn pair_or_else_err_on_keyless<E, F: FnOnce() -> E>(self, err: F) -> (r: Result<
        Option<KeyValuePair>,
        E,
    >) {
        match self {
            ParsedLine::EmptyLine => Ok(None),
            ParsedLine::KeylessLine(_) => Err(err()),
            ParsedLine::Pair(pair) => Ok(Some(pair)),
        }
    }
}

/// A line that is classified as keyless is kept exactly as it came, untrimmed.
pub proof fn lemma_keyless_is_verbatim(line: Seq<char>)
    ensures
        classify(line) matches ParsedLineView::KeylessLine(text) ==> text == line,
        classify(line) is KeylessLine <==> !is_blank(line) && !has_delimiter(line),
{
}

/// A line is classified as empty exactly when it is blank.
pub proof fn lemma_blank_is_empty_line(line: Seq<char>)
    ensures
        classify(line) is EmptyLine <==> is_blank(line),
{
}

/// Whitespace before and behind a line, however much of it, does not change whether the
/// line is classified as empty.
pub proof fn lemma_blank_whatever_surrounds(before: Seq<char>, line: Seq<char>, after: Seq<char>)
    requires
        is_blank(before),
        is_blank(after),
    ensures
        classify(before + line + after) is EmptyLine <==> classify(line) is EmptyLine,
{
    let whole = before + line + after;
    if is_blank(line) {
        assert(is_blank(whole));
    } else {
        let i: int = choose|i: int| 0 <= i < line.len() && !is_whitespace(#[trigger] line[i]);
        assert(whole[before.len() + i] == line[i]);
    }
}

/// Where a line is classified as a pair, the line is the key, the delimiter and the
/// value in this order, and the delimiter between them is the first in the line: a
/// delimiter further right belongs to the value.
pub proof fn lemma_pair_splits_at_first_delimiter(line: Seq<char>)
    ensures
        classify(line) is Pair <==> !is_blank(line) && has_delimiter(line),
        classify(line) matches ParsedLineView::Pair(pair) ==> line == pair.key + delimiter()
            + pair.value && is_first_delimiter(line, pair.key.len() as int),
{
    if classify(line) is Pair {
        lemma_first_delimiter(line);
    }
}

/// A key that holds no delimiter is found again: the line made of such a key, the
/// delimiter and any value is classified as the pair of that key and that value,
/// whatever delimiters the value holds.
pub proof fn lemma_classify_key_then_value(key: Seq<char>, value: Seq<char>)
    requires
        !has_delimiter(key),
    ensures
        classify(key + delimiter() + value) == ParsedLineView::Pair(PairView { key, value }),
{
    let line = key + delimiter() + value;
    let at: int = key.len() as int;
    assert(delimiter_at(line, at));
    assert forall|j: int| 0 <= j < at implies !delimiter_at(line, j) by {
        if j + 1 < at {
            assert(!delimiter_at(key, j));
        }
    }
    lemma_first_delimiter(line);
    assert(line.take(at) =~= key);
    assert(line.skip(at + 2) =~= value);
}

} // verus!
