// Copyright 2021, Collabora, Ltd.
//
// SPDX-License-Identifier: Apache-2.0 OR MIT

//! Details that only affect those implementing a record emitter.

use crate::pair::KeyValuePair;
use crate::types::Output;
use vstd::prelude::*;

verus! {

/// Trait used to wrap a sequence of output from the [`KVParser`](crate::KVParser) into
/// groups of key-value pairs serving as fields.
///
/// Where a record ends is for each emitter to say, so the trait promises nothing of its
/// own: each emitter states what it does.
pub trait RecordEmitter {
    /// Handle this field parser output, updating internal state and/or emitting a record.
    fn accumulate_output(&mut self, maybe_field: Output<KeyValuePair>) -> Output<
        Vec<KeyValuePair>,
    >;

    /// Signal the end of input, returning the record in progress if any.
    fn end_input(&mut self) -> Output<Vec<KeyValuePair>>;
}

} // verus!
