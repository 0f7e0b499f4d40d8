// Copyright 2021, Collabora, Ltd.
//
// SPDX-License-Identifier: Apache-2.0 OR MIT

//! A type for key: value pairs, and traits for things that may hold them.

use vstd::prelude::*;
use vstd::std_specs::cmp::PartialEqSpecImpl;

verus! {

/// What a [`KeyValuePair`] stands for in contracts: its two texts as character sequences.
pub struct PairView {
    pub key: Seq<char>,
    pub value: Seq<char>,
}

/// A key-value pair.
///
/// The value holds line breaks where it was put together from several lines.
#[derive(Debug)]
pub struct KeyValuePair {
    pub key: String,
    pub value: String,
}

impl PartialEq for KeyValuePair {
    fn eq(&self, other: &Self) -> (r: bool) {
        self.key == other.key && self.value == other.value
    }
}

impl PartialEqSpecImpl for KeyValuePair {
    open spec fn obeys_eq_spec() -> bool {
        true
    }

    /// Two pairs are equal when their keys hold the same text and their values do.
    open spec fn eq_spec(&self, other: &Self) -> bool {
        self@ == other@
    }
}

impl Clone for KeyValuePair {
    fn clone(&self) -> (r: Self)
        ensures
            r == *self,
    {
        KeyValuePair { key: self.key.clone(), value: self.value.clone() }
    }
}

impl View for KeyValuePair {
    type V = PairView;

    open spec fn view(&self) -> PairView {
        PairView { key: self.key@, value: self.value@ }
    }
}

impl DeepView for KeyValuePair {
    type V = PairView;

    open spec fn deep_view(&self) -> PairView {
        self@
    }
}

/// Implemented by things that may hold a [`KeyValuePair`], but that also might not.
pub trait MayContainKeyValuePair {
    /// The pair that this value holds, if it holds one.
    spec fn held_pair(&self) -> Option<KeyValuePair>;

    /// true if the type contains a [`KeyValuePair`]
    fn is_pair(&self) -> (b: bool)
        ensures
            b == self.held_pair().is_some(),
    ;

    /// Turns the contained [`KeyValuePair`] into `Some(KeyValuePair)` and everything else
    /// into `None`.
    fn pair(self) -> (r: Option<KeyValuePair>)
        ensures
            r == self.held_pair(),
    ;
}

/// Implemented by things that may hold a [`KeyValuePair`], but that also might signify a
/// keyless line, or something else.
pub trait MayContainKeyValuePairOrKeylessLine: MayContainKeyValuePair {
    /// Whether this value stands for a line without a key.
    spec fn is_keyless_line(&self) -> bool;

    /// Returns `err` as the error if this is a keyless line, otherwise the pair if present.
    fn pair_or_err_on_keyless<E>(self, err: E) -> (r: Result<Option<KeyValuePair>, E>)
        ensures
            r == if self.is_keyless_line() {
                Err::<Option<KeyValuePair>, E>(err)
            } else {
                Ok::<Option<KeyValuePair>, E>(self.held_pair())
            },
    ;

    /// Calls `err` for the error if this is a keyless line, otherwise returns the pair if
    /// present. `err` is called on a keyless line and on nothing else.
    fn pair_or_else_err_on_keyless<E, F: FnOnce() -> E>(self, err: F) -> (r: Result<
        Option<KeyValuePair>,
        E,
    >)
        requires
            self.is_keyless_line() ==> err.requires(()),
        ensures
            match r {
                Ok(found) => !self.is_keyless_line() && found == self.held_pair(),
                Err(e) => self.is_keyless_line() && err.ensures((), e),
            },
    ;
}

} // verus!
