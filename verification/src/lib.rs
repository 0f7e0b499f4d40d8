// Copyright 2021, Collabora, Ltd.
//
// SPDX-License-Identifier: Apache-2.0 OR MIT

//! Incremental parsing of line-oriented `key: value` text.
//!
//! Lines are given one at a time to a [`KVParser`], which hands back for each of them
//! an [`Output`] with the number of the line: nothing yet, a pair that is complete, or
//! a line without a key. How a value goes on over several lines is for a
//! [`ParsePolicy`](parse_policy::ParsePolicy) to say. A
//! [`RecordParser`](record::RecordParser) gathers the pairs into records that blank
//! lines separate.

pub mod emitters;
pub mod pair;
pub mod parse_policy;
pub mod parsed_line;
pub mod parser;
pub mod policies;
pub mod record;
pub mod record_emitter;
pub mod text;
pub mod types;

pub use pair::KeyValuePair;
pub use parsed_line::ParsedLine;
pub use parser::KVParser;
pub use types::{LineNumber, Output, ParserOutput};
