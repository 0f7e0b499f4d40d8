// Copyright 2021, Collabora, Ltd.
//
// SPDX-License-Identifier: Apache-2.0 OR MIT

//! What parsing a line gives back: the per-line output, and the line number it came on.

use crate::pair::KeyValuePair;
use crate::parsed_line::ParsedLine;
use vstd::prelude::*;
use vstd::std_specs::cmp::{PartialEqSpec, PartialEqSpecImpl};
use vstd::std_specs::convert::FromSpecImpl;

verus! {

/// Implemented by things returned from parsing.
pub trait ParserOutput {
    type Item;

    /// The item that this output carries, if it carries one.
    spec fn item(&self) -> Option<Self::Item>;

    /// Whether this output stands for a line without a key.
    spec fn is_keyless(&self) -> bool;

    /// Turns the contained item into `Some` and everything else into `None`.
    ///
    /// Similar to `Result::ok()`
    fn ok(self) -> (r: Option<Self::Item>)
        ensures
            r == self.item(),
    ;

    /// Returns `err` as the error if the output is a keyless line, otherwise the item if
    /// present.
    ///
    /// Similar to `Option::ok_or()`
    fn ok_or_err_on_keyless<E>(self, err: E) -> (r: Result<Option<Self::Item>, E>)
        ensures
            r == if self.is_keyless() {
                Err::<Option<Self::Item>, E>(err)
            } else {
                Ok::<Option<Self::Item>, E>(self.item())
            },
    ;

    /// Calls `err` for the error if the output is a keyless line, otherwise returns the
    /// item if present. `err` is called on a keyless line and on nothing else.
    ///
    /// Similar to `Option::ok_or_else()`
    fn ok_or_else_err_on_keyless<E, F: FnOnce() -> E>(self, err: F) -> (r: Result<
        Option<Self::Item>,
        E,
    >)
        requires
            self.is_keyless() ==> err.requires(()),
        ensures
            match r {
                Ok(found) => !self.is_keyless() && found == self.item(),
                Err(e) => self.is_keyless() && err.ensures((), e),
            },
    ;
}

impl ParserOutput for ParsedLine {
    type Item = KeyValuePair;

    open spec fn item(&self) -> Option<KeyValuePair> {
        match self {
            ParsedLine::Pair(pair) => Some(*pair),
            ParsedLine::EmptyLine => None,
            ParsedLine::KeylessLine(_) => None,
        }
    }

    open spec fn is_keyless(&self) -> bool {
        self is KeylessLine
    }

    fn ok(self) -> (r: Option<KeyValuePair>) {
        match self {
            ParsedLine::Pair(pair) => Some(pair),
            ParsedLine::EmptyLine => None,
            ParsedLine::KeylessLine(_) => None,
        }
    }

    fn ok_or_err_on_keyless<E>(self, err: E) -> (r: Result<Option<KeyValuePair>, E>) {
        match self {
            ParsedLine::EmptyLine => Ok(None),
            ParsedLine::KeylessLine(_) => Err(err),
            ParsedLine::Pair(pair) => Ok(Some(pair)),
        }
    }

    fn ok_or_else_err_on_keyless<E, F: FnOnce() -> E>(self, err: F) -> (r: Result<
        Option<KeyValuePair>,
        E,
    >) {
        match self {
            ParsedLine::EmptyLine => Ok(None),
            ParsedLine::KeylessLine(_) => Err(err()),
            ParsedLine::Pair(pair) => Ok(Some(pair)),
        }
    }
}

/// The output of parsing a line of input, generally by some more sophisticated parser
/// with state.
#[derive(Debug)]
pub enum Output<T> {
    /// The provided line was empty or whitespace-only.
    EmptyLine,
    /// We are in the middle of some parse operation and are not ready to return a value yet
    Pending,
    /// The provided line had no key, but was not part of a multi-line value
    KeylessLine(String),
    /// The provided line completes a record
    Output(T),
}

/// What an [`Output`] stands for in contracts: the same four cases, over the text of a
/// keyless line and the view of the payload.
pub enum OutputView<V> {
    EmptyLine,
    Pending,
    KeylessLine(Seq<char>),
    Output(V),
}

impl<T: DeepView> DeepView for Output<T> {
    type V = OutputView<T::V>;

    open spec fn deep_view(&self) -> OutputView<T::V> {
        match self {
            Output::EmptyLine => OutputView::EmptyLine,
            Output::Pending => OutputView::Pending,
            Output::KeylessLine(text) => OutputView::KeylessLine(text@),
            Output::Output(payload) => OutputView::Output(payload.deep_view()),
        }
    }
}

impl<T> Output<T> {
    /// true if the value is [`Output::Output`]
    pub fn is_some(&self) -> (b: bool)
        ensures
            b == (self is Output),
    {
        if let Output::Output(_) = self {
            true
        } else {
            false
        }
    }

    /// true if the value is [`Output::Pending`]
    pub fn is_pending(&self) -> (b: bool)
        ensures
            b == (self is Pending),
    {
        if let Output::Pending = self {
            true
        } else {
            false
        }
    }

    /// Apply a function to the contained value in the [`Output::Output`] variant,
    /// passing all other variants through unchanged.
    pub fn map<U, F: FnOnce(T) -> U>(self, func: F) -> (r: Output<U>)
        requires
            self matches Output::Output(payload) ==> func.requires((payload,)),
        ensures
            match self {
                Output::EmptyLine => r is EmptyLine,
                Output::Pending => r is Pending,
                Output::KeylessLine(text) => r == Output::<U>::KeylessLine(text),
                Output::Output(payload) => r matches Output::Output(mapped) && func.ensures(
                    (payload,),
                    mapped,
                ),
            },
    {
        match self {
            Output::EmptyLine => Output::EmptyLine,
            Output::Pending => Output::Pending,
            Output::KeylessLine(v) => Output::KeylessLine(v),
            Output::Output(v) => Output::Output(func(v)),
        }
    }
}

impl<T: PartialEq> PartialEq for Output<T> {
    fn eq(&self, other: &Self) -> (r: bool) {
        match (self, other) {
            (Output::EmptyLine, Output::EmptyLine) => true,
            (Output::Pending, Output::Pending) => true,
            (Output::KeylessLine(a), Output::KeylessLine(b)) => *a == *b,
            (Output::Output(a), Output::Output(b)) => *a == *b,
            _ => false,
        }
    }
}

impl<T: PartialEq> PartialEqSpecImpl for Output<T> {
    open spec fn obeys_eq_spec() -> bool {
        T::obeys_eq_spec()
    }

    /// Two outputs are equal when they are of the same variant, and hold the same text or
    /// payloads that are equal.
    open spec fn eq_spec(&self, other: &Self) -> bool {
        match (self, other) {
            (Output::EmptyLine, Output::EmptyLine) => true,
            (Output::Pending, Output::Pending) => true,
            (Output::KeylessLine(a), Output::KeylessLine(b)) => a@ == b@,
            (Output::Output(a), Output::Output(b)) => a.eq_spec(b),
            _ => false,
        }
    }
}

impl<T: Clone> Clone for Output<T> {
    /// The same variant again, with the same text or with a clone of the payload.
    fn clone(&self) -> (r: Self)
        ensures
            match self {
                Output::EmptyLine => r is EmptyLine,
                Output::Pending => r is Pending,
                Output::KeylessLine(text) => r == Output::<T>::KeylessLine(*text),
                Output::Output(payload) => r matches Output::Output(copy) && cloned::<T>(
                    *payload,
                    copy,
                ),
            },
    {
        match self {
            Output::EmptyLine => Output::EmptyLine,
            Output::Pending => Output::Pending,
            Output::KeylessLine(text) => Output::KeylessLine(text.clone()),
            Output::Output(payload) => Output::Output(payload.clone()),
        }
    }
}

impl<T> Default for Output<T> {
    fn default() -> (r: Self)
        ensures
            r is EmptyLine,
    {
        Output::EmptyLine
    }
}

impl<T> ParserOutput for Output<T> {
    type Item = T;

    open spec fn item(&self) -> Option<T> {
        match self {
            Output::Output(payload) => Some(*payload),
            _ => None,
        }
    }

    open spec fn is_keyless(&self) -> bool {
        self is KeylessLine
    }

    fn ok(self) -> (r: Option<T>) {
        if let Output::Output(v) = self {
            Some(v)
        } else {
            None
        }
    }

    fn ok_or_err_on_keyless<E>(self, err: E) -> (r: Result<Option<T>, E>) {
        match self {
            Output::Output(v) => Ok(Some(v)),
            Output::KeylessLine(_) => Err(err),
            _ => Ok(None),
        }
    }

    fn ok_or_else_err_on_keyless<E, F: FnOnce() -> E>(self, err: F) -> (r: Result<Option<T>, E>) {
        match self {
            Output::Output(v) => Ok(Some(v)),
            Output::KeylessLine(_) => Err(err()),
            _ => Ok(None),
        }
    }
}

impl From<ParsedLine> for Output<KeyValuePair> {
    fn from(v: ParsedLine) -> (r: Self) {
        match v {
            ParsedLine::EmptyLine => Self::EmptyLine,
            ParsedLine::KeylessLine(v) => Self::KeylessLine(v),
            ParsedLine::Pair(v) => Self::Output(v),
        }
    }
}

impl FromSpecImpl<ParsedLine> for Output<KeyValuePair> {
    open spec fn obeys_from_spec() -> bool {
        true
    }

    /// An empty line stays one, a keyless line keeps its text, and a pair becomes the
    /// payload.
    open spec fn from_spec(v: ParsedLine) -> Self {
        match v {
            ParsedLine::EmptyLine => Output::EmptyLine,
            ParsedLine::KeylessLine(text) => Output::KeylessLine(text),
            ParsedLine::Pair(pair) => Output::Output(pair),
        }
    }
}

/// Wraps a value to add a line number field, which is typically the *last* line
/// associated with a value.
#[derive(Debug)]
pub struct LineNumber<T> {
    line_number: usize,
    value: T,
}

impl<T: PartialEq> PartialEq for LineNumber<T> {
    fn eq(&self, other: &Self) -> (r: bool) {
        self.line_number == other.line_number && self.value == other.value
    }
}

impl<T: PartialEq> PartialEqSpecImpl for LineNumber<T> {
    open spec fn obeys_eq_spec() -> bool {
        T::obeys_eq_spec()
    }

    /// Two numbered values are equal when their line numbers are the same and their
    /// values are equal.
    open spec fn eq_spec(&self, other: &Self) -> bool {
        self.line_number() == other.line_number() && self.value().eq_spec(other.value())
    }
}

impl<T: Clone> Clone for LineNumber<T> {
    /// The same line number, with a clone of the value.
    fn clone(&self) -> (r: Self)
        ensures
            r.line_number() == self.line_number(),
            cloned::<T>(*self.value(), *r.value()),
    {
        LineNumber { line_number: self.line_number, value: self.value.clone() }
    }
}

impl<T: Copy> Copy for LineNumber<T> {}

impl<T> LineNumber<T> {
    /// The line number that this value carries.
    pub closed spec fn spec_line_number(&self) -> usize {
        self.line_number
    }

    /// The value that this line number is attached to.
    pub closed spec fn spec_value(&self) -> &T {
        &self.value
    }

    /// Create from a value and a line number.
    pub fn new(line_number: usize, value: T) -> (r: Self)
        ensures
            r.line_number() == line_number,
            *r.value() == value,
    {
        Self { line_number, value }
    }

    /// Unwrap the inner value
    pub fn into_inner(self) -> (r: T)
        ensures
            r == *self.value(),
    {
        self.value
    }

    /// Get the line number
    #[verifier::when_used_as_spec(spec_line_number)]
    pub fn line_number(&self) -> (n: usize)
        ensures
            n == self.spec_line_number(),
    {
        self.line_number
    }

    /// Get the value
    #[verifier::when_used_as_spec(spec_value)]
    pub fn value(&self) -> (r: &T)
        ensures
            r == self.spec_value(),
    {
        &self.value
    }

    /// Convert into a (line number, value) tuple.
    pub fn into_tuple(self) -> (r: (usize, T))
        ensures
            r.0 == self.line_number(),
            r.1 == *self.value(),
    {
        (self.line_number, self.value)
    }

    /// Apply a function to the contained value,
    /// returning a LineNumber with the same number but the transformed value.
    pub fn map<U, F: FnOnce(T) -> U>(self, func: F) -> (r: LineNumber<U>)
        requires
            func.requires((*self.value(),)),
        ensures
            r.line_number() == self.line_number(),
            func.ensures((*self.value(),), *r.value()),
    {
        LineNumber { line_number: self.line_number, value: func(self.value) }
    }
}

impl<T: ParserOutput> ParserOutput for LineNumber<T> {
    type Item = T::Item;

    open spec fn item(&self) -> Option<Self::Item> {
        self.value().item()
    }

    open spec fn is_keyless(&self) -> bool {
        self.value().is_keyless()
    }

    fn ok(self) -> (r: Option<Self::Item>) {
        self.value.ok()
    }

    fn ok_or_err_on_keyless<E>(self, err: E) -> (r: Result<Option<Self::Item>, E>) {
        self.value.ok_or_err_on_keyless(err)
    }

    fn ok_or_else_err_on_keyless<E, F: FnOnce() -> E>(self, err: F) -> (r: Result<
        Option<Self::Item>,
        E,
    >) {
        self.value.ok_or_else_err_on_keyless(err)
    }
}

} // verus!
