// SPDX-License-Identifier: Apache-2.0 OR MIT

//! Text as sequences of characters: whitespace, the `": "` delimiter, prefixes and
//! suffixes, and joining fragments with newlines.
//!
//! Every contract in this crate speaks of a string through its view, a `Seq<char>`.
//! The spec functions here are the vocabulary of those contracts; the executable
//! functions beside them compute the same things on `&str`.

use vstd::prelude::*;
use vstd::std_specs::iter::IteratorSpec;
use vstd::string::StrSliceExecFns;
use vstd::string::StringExecFns;

verus! {

/// Whether `c` is whitespace: one of the code points that carry Unicode's
/// `White_Space` property.
pub open spec fn is_whitespace(c: char) -> bool {
    let n: u32 = c as u32;
    ||| 0x0009 <= n <= 0x000D
    ||| n == 0x0020
    ||| n == 0x0085
    ||| n == 0x00A0
    ||| n == 0x1680
    ||| 0x2000 <= n <= 0x200A
    ||| n == 0x2028
    ||| n == 0x2029
    ||| n == 0x202F
    ||| n == 0x205F
    ||| n == 0x3000
}

/// Whether `c` is whitespace.
pub fn char_is_whitespace(c: char) -> (b: bool)
    ensures
        b == is_whitespace(c),
{
    let n: u32 = c as u32;
    if n <= 0x0020 {
        (0x0009 <= n && n <= 0x000D) || n == 0x0020
    } else if n < 0x2000 {
        n == 0x0085 || n == 0x00A0 || n == 0x1680
    } else {
        n <= 0x200A || n == 0x2028 || n == 0x2029 || n == 0x202F || n == 0x205F || n == 0x3000
    }
}

/// A text is blank when it holds nothing but whitespace; the empty text is blank.
pub open spec fn is_blank(s: Seq<char>) -> bool {
    forall|i: int| 0 <= i < s.len() ==> is_whitespace(#[trigger] s[i])
}

/// Whether `line` is empty or consists only of whitespace.
pub fn str_is_blank(line: &str) -> (b: bool)
    ensures
        b == is_blank(line@),
{
    for c in it: line.chars()
        invariant
            it.seq() == line@,
            forall|i: int| 0 <= i < it.index() ==> is_whitespace(#[trigger] line@[i]),
    {
        if !char_is_whitespace(c) {
            return false;
        }
    }
    true
}

/// The delimiter between a key and its value: a colon followed by one space.
pub open spec fn delimiter() -> Seq<char> {
    seq![':', ' ']
}

/// Whether the delimiter stands in `s` at index `i`.
pub open spec fn delimiter_at(s: Seq<char>, i: int) -> bool {
    0 <= i && i + 1 < s.len() && s[i] == ':' && s[i + 1] == ' '
}

/// Whether the delimiter occurs anywhere in `s`.
pub open spec fn has_delimiter(s: Seq<char>) -> bool {
    exists|i: int| delimiter_at(s, i)
}

/// Whether `i` is where the delimiter occurs first in `s`.
pub open spec fn is_first_delimiter(s: Seq<char>, i: int) -> bool {
    delimiter_at(s, i) && forall|j: int| 0 <= j < i ==> !delimiter_at(s, j)
}

/// The index of the first occurrence of the delimiter in `s`.
/// It means something only where `has_delimiter(s)`.
pub open spec fn first_delimiter(s: Seq<char>) -> int {
    choose|i: int| is_first_delimiter(s, i)
}

/// Among the occurrences of the delimiter at or below `i` there is a first one.
proof fn lemma_first_delimiter_below(s: Seq<char>, i: int) -> (k: int)
    requires
        delimiter_at(s, i),
    ensures
        is_first_delimiter(s, k),
        k <= i,
    decreases i,
{
    if exists|j: int| 0 <= j < i && delimiter_at(s, j) {
        let j: int = choose|j: int| 0 <= j < i && delimiter_at(s, j);
        lemma_first_delimiter_below(s, j)
    } else {
        i
    }
}

/// A text that holds the delimiter has exactly one first occurrence of it,
/// and `first_delimiter` is that one.
pub proof fn lemma_first_delimiter(s: Seq<char>)
    requires
        has_delimiter(s),
    ensures
        is_first_delimiter(s, first_delimiter(s)),
        forall|i: int| is_first_delimiter(s, i) ==> i == first_delimiter(s),
{
    let some: int = choose|i: int| delimiter_at(s, i);
    let first: int = lemma_first_delimiter_below(s, some);
}

/// Where the delimiter first occurs in `line`, counted in characters, if it occurs.
pub fn find_delimiter(line: &str) -> (r: Option<usize>)
    ensures
        match r {
            Some(i) => has_delimiter(line@) && i == first_delimiter(line@),
            None => !has_delimiter(line@),
        },
{
    // The position counts up to the length, which fits.
    let length: usize = line.unicode_len();
    let mut after_colon = false;
    let mut pos: usize = 0;
    for c in it: line.chars()
        invariant
            length == line@.len(),
            it.seq() == line@,
            pos == it.index(),
            after_colon <==> (pos > 0 && line@[pos - 1] == ':'),
            forall|j: int| 0 <= j && j + 1 < pos ==> !delimiter_at(line@, j),
    {
        if after_colon && c == ' ' {
            proof {
                assert(is_first_delimiter(line@, pos - 1));
                lemma_first_delimiter(line@);
            }
            return Some(pos - 1);
        }
        after_colon = c == ':';
        pos = pos + 1;
    }
    None
}

/// The fragments of `parts` in order, with one newline between each two neighbours.
/// No fragment gives the empty text, and a single fragment gives itself.
pub open spec fn join_lines(parts: Seq<Seq<char>>) -> Seq<char>
    decreases parts.len(),
{
    if parts.len() == 0 {
        Seq::empty()
    } else {
        let init = parts.drop_last();
        if init.len() == 0 {
            parts.last()
        } else {
            join_lines(init) + seq!['\n'] + parts.last()
        }
    }
}

/// Joins `lines` into one string with a newline between each two neighbours.
pub fn join(lines: &Vec<String>) -> (r: String)
    ensures
        r@ == join_lines(lines.deep_view()),
{
    let mut out = String::new();
    let mut i: usize = 0;
    while i < lines.len()
        invariant
            i <= lines.len(),
            out@ == join_lines(lines.deep_view().take(i as int)),
        decreases lines.len() - i,
    {
        proof {
            reveal_strlit("\n");
            let all = lines.deep_view();
            assert(all.take(i + 1).drop_last() == all.take(i as int));
        }
        if i > 0 {
            out.append("\n");
        }
        out.append(lines[i].as_str());
        i = i + 1;
    }
    assert(lines.deep_view().take(lines.len() as int) == lines.deep_view());
    out
}

/// Whether `a` and `b` hold the same text.
pub fn str_eq(a: &str, b: &str) -> (r: bool)
    ensures
        r == (a@ == b@),
{
    if a.unicode_len() != b.unicode_len() {
        return false;
    }
    let mut rest = b.chars();
    for c in it: a.chars()
        invariant
            it.seq() == a@,
            a@.len() == b@.len(),
            rest.obeys_prophetic_iter_laws(),
            rest.remaining() == b@.skip(it.index() as int),
            a@.take(it.index() as int) == b@.take(it.index() as int),
    {
        let d = rest.next();
        if d != Some(c) {
            return false;
        }
    }
    assert(a@.take(a@.len() as int) == a@);
    true
}

/// What is left of `s` behind `prefix`, if `s` begins with `prefix`.
pub fn strip_prefix<'a>(s: &'a str, prefix: &str) -> (r: Option<&'a str>)
    ensures
        match r {
            Some(rest) => prefix@.is_prefix_of(s@) && rest@ == s@.skip(prefix@.len() as int) && s@
                == prefix@ + rest@,
            None => !prefix@.is_prefix_of(s@),
        },
{
    let n: usize = s.unicode_len();
    let m: usize = prefix.unicode_len();
    if n < m {
        return None;
    }
    if str_eq(s.substring_char(0, m), prefix) {
        let rest = s.substring_char(m, n);
        Some(rest)
    } else {
        None
    }
}

/// What is left of `s` before `suffix`, if `s` ends with `suffix`.
pub fn strip_suffix<'a>(s: &'a str, suffix: &str) -> (r: Option<&'a str>)
    ensures
        match r {
            Some(rest) => suffix@.is_suffix_of(s@) && rest@ == s@.take(s@.len() - suffix@.len())
                && s@ == rest@ + suffix@,
            None => !suffix@.is_suffix_of(s@),
        },
{
    let n: usize = s.unicode_len();
    let m: usize = suffix.unicode_len();
    if n < m {
        return None;
    }
    if str_eq(s.substring_char(n - m, n), suffix) {
        let rest = s.substring_char(0, n - m);
        Some(rest)
    } else {
        None
    }
}

} // verus!
