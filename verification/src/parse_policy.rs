// Copyright 2021, Collabora, Ltd.
//
// SPDX-License-Identifier: Apache-2.0 OR MIT

//! Details that only affect those implementing a policy for [`KVParser`](crate::KVParser).

use vstd::prelude::*;

verus! {

/// Enum returned by a [`ParsePolicy`] when processing a value.
pub enum ProcessedValue<'a> {
    /// Indicates that the provided value is complete and not continued on the following
    /// line.
    ///
    /// The data in this variant should have any multi-line decoration stripped.
    CompleteValue(&'a str),
    /// Indicates that the provided value is not complete, and that
    /// additional lines should be processed before terminating this key: value pair.
    /// If there is a value in this variant, it will be added as the first line in the
    /// overall pair value.
    ///
    /// The data in this variant should have any multi-line decoration stripped.
    StartOfMultiline(Option<&'a str>),
}

/// Enum returned by a [`ParsePolicy`] when processing a continuation line for a
/// multi-line value.
pub enum ProcessedContinuationValue<'a> {
    /// Indicates that the provided value is not complete, and that
    /// additional lines should be processed before terminating this key: value pair.
    /// If there is a value in this variant, it will be added as a line to the overall
    /// pair value.
    ///
    /// The data in this variant should have any multi-line decoration stripped.
    ContinueMultiline(Option<&'a str>),
    /// Indicates that the provided value terminates the multi-line value.
    /// If there is a value in this variant, it will be added as a line to the overall
    /// pair value.
    ///
    /// The data in this variant should have any multi-line decoration stripped.
    FinishMultiline(Option<&'a str>),
}

/// The text of a fragment that a policy hands back, if it hands one back.
pub open spec fn fragment_text(fragment: Option<&str>) -> Option<Seq<char>> {
    match fragment {
        Some(text) => Some(text@),
        None => None,
    }
}

/// What a [`ProcessedValue`] stands for in contracts.
pub enum ValueDecision {
    /// The value is complete, and this is its text.
    Complete(Seq<char>),
    /// The value goes on in the lines that follow; the fragment, if any, is its first line.
    StartsMultiline(Option<Seq<char>>),
}

/// What a [`ProcessedContinuationValue`] stands for in contracts.
pub enum ContinuationDecision {
    /// The value goes on; the fragment, if any, is its next line.
    Continues(Option<Seq<char>>),
    /// The value ends with this line; the fragment, if any, is its last line.
    Finishes(Option<Seq<char>>),
}

impl<'a> View for ProcessedValue<'a> {
    type V = ValueDecision;

    open spec fn view(&self) -> ValueDecision {
        match self {
            ProcessedValue::CompleteValue(text) => ValueDecision::Complete(text@),
            ProcessedValue::StartOfMultiline(fragment) => ValueDecision::StartsMultiline(
                fragment_text(*fragment),
            ),
        }
    }
}

impl<'a> View for ProcessedContinuationValue<'a> {
    type V = ContinuationDecision;

    open spec fn view(&self) -> ContinuationDecision {
        match self {
            ProcessedContinuationValue::ContinueMultiline(fragment) => {
                ContinuationDecision::Continues(fragment_text(*fragment))
            },
            ProcessedContinuationValue::FinishMultiline(fragment) => {
                ContinuationDecision::Finishes(fragment_text(*fragment))
            },
        }
    }
}

/// Implement this policy to customize how [`KVParser`](crate::KVParser) works,
/// mainly regarding multi-line values.
///
/// A policy decides by the key and the text it is shown and by nothing else: each of its
/// two operations has a spec function that says what it decides, and the parser's
/// contracts are stated over those. A verified policy defines both. Their defaults
/// say nothing of the decision, so that a policy can also be written where nothing
/// is proved.
///
/// Bundled policies are in [`crate::policies`].
pub trait ParsePolicy: core::fmt::Debug {
    /// What [`ParsePolicy::process_value`] decides for a value found beside `key`.
    open spec fn value_decision(&self, key: Seq<char>, value: Seq<char>) -> ValueDecision {
        arbitrary()
    }

    /// What [`ParsePolicy::process_continuation`] decides for a line that follows while
    /// the value of `key` is open.
    open spec fn continuation_decision(&self, key: Seq<char>, line: Seq<char>)
        -> ContinuationDecision {
        arbitrary()
    }

    /// Called when a key and value are parsed.
    ///
    /// Allows you to trim the value, as well as report
    /// that it is only the beginning of a multi-line value.
    fn process_value<'a>(&self, key: &str, value: &'a str) -> (r: ProcessedValue<'a>)
        ensures
            r@ == self.value_decision(key@, value@),
    ;

    /// Called with each new line once [`ParsePolicy::process_value`] returns
    /// [`ProcessedValue::StartOfMultiline`].
    ///
    /// Allows you to possibly trim or drop the line, and indicate
    /// when the multi-line value has finished.
    fn process_continuation<'a>(&self, key: &str, continuation_line: &'a str) -> (r:
        ProcessedContinuationValue<'a>)
        ensures
            r@ == self.continuation_decision(key@, continuation_line@),
    ;
}

} // verus!
