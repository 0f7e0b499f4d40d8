// SPDX-License-Identifier: Apache-2.0 OR MIT

//! The policies that come with the parser.

use crate::parse_policy::{
    ContinuationDecision, ParsePolicy, ProcessedContinuationValue, ProcessedValue, ValueDecision,
};
use crate::text::{strip_prefix, strip_suffix};
use vstd::prelude::*;

verus! {

/// A policy without multi-line values: every value is complete as it stands on its line.
#[derive(Debug, Clone, Copy, Default)]
pub struct TrivialParsePolicy;

impl ParsePolicy for TrivialParsePolicy {
    open spec fn value_decision(&self, key: Seq<char>, value: Seq<char>) -> ValueDecision {
        ValueDecision::Complete(value)
    }

    /// This policy opens no value, so the parser never asks it about a continuation.
    /// Asked all the same, it ends the value with the line as it is.
    open spec fn continuation_decision(&self, key: Seq<char>, line: Seq<char>)
        -> ContinuationDecision {
        ContinuationDecision::Finishes(Some(line))
    }

    fn process_value<'a>(&self, key: &str, value: &'a str) -> (r: ProcessedValue<'a>) {
        ProcessedValue::CompleteValue(value)
    }

    fn process_continuation<'a>(&self, key: &str, continuation_line: &'a str) -> (r:
        ProcessedContinuationValue<'a>) {
        ProcessedContinuationValue::FinishMultiline(Some(continuation_line))
    }
}

/// The token that opens a text block.
pub open spec fn open_text() -> Seq<char> {
    seq!['<', 't', 'e', 'x', 't', '>']
}

/// The token that closes a text block.
pub open spec fn close_text() -> Seq<char> {
    seq!['<', '/', 't', 'e', 'x', 't', '>']
}

/// What is left of `s` behind the opening token, if `s` begins with it.
pub open spec fn after_open_text(s: Seq<char>) -> Option<Seq<char>> {
    if open_text().is_prefix_of(s) {
        Some(s.skip(open_text().len() as int))
    } else {
        None
    }
}

/// What is left of `s` before the closing token, if `s` ends with it.
pub open spec fn before_close_text(s: Seq<char>) -> Option<Seq<char>> {
    if close_text().is_suffix_of(s) {
        Some(s.take(s.len() - close_text().len()))
    } else {
        None
    }
}

/// A policy for values that may be wrapped in `<text>` and `</text>`, and that span
/// several lines where the closing token is not on the line of the opening one.
///
/// A value that does not begin with `<text>` is complete as it stands. One that does
/// loses the token; if what is left ends with `</text>`, it loses that too and is
/// complete, else it is the first line of a multi-line value. Each line that follows is
/// a line of the value, whatever it holds: the one that ends with `</text>` is the last,
/// without the token.
#[derive(Debug, Clone, Copy, Default)]
pub struct SPDXParsePolicy;

impl ParsePolicy for SPDXParsePolicy {
    open spec fn value_decision(&self, key: Seq<char>, value: Seq<char>) -> ValueDecision {
        match after_open_text(value) {
            None => ValueDecision::Complete(value),
            Some(opened) => match before_close_text(opened) {
                Some(inner) => ValueDecision::Complete(inner),
                None => ValueDecision::StartsMultiline(Some(opened)),
            },
        }
    }

    open spec fn continuation_decision(&self, key: Seq<char>, line: Seq<char>)
        -> ContinuationDecision {
        match before_close_text(line) {
            Some(last) => ContinuationDecision::Finishes(Some(last)),
            None => ContinuationDecision::Continues(Some(line)),
        }
    }

    fn process_value<'a>(&self, key: &str, value: &'a str) -> (r: ProcessedValue<'a>) {
        proof {
            reveal_strlit("<text>");
            reveal_strlit("</text>");
        }
        match strip_prefix(value, "<text>") {
            None => ProcessedValue::CompleteValue(value),
            Some(opened) => match strip_suffix(opened, "</text>") {
                Some(inner) => ProcessedValue::CompleteValue(inner),
                None => ProcessedValue::StartOfMultiline(Some(opened)),
            },
        }
    }

    fn process_continuation<'a>(&self, key: &str, continuation_line: &'a str) -> (r:
        ProcessedContinuationValue<'a>) {
        proof {
            reveal_strlit("</text>");
        }
        match strip_suffix(continuation_line, "</text>") {
            Some(last) => ProcessedContinuationValue::FinishMultiline(Some(last)),
            None => ProcessedContinuationValue::ContinueMultiline(Some(continuation_line)),
        }
    }
}

} // verus!
