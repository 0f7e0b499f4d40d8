// Copyright 2021, Collabora, Ltd.
//
// SPDX-License-Identifier: Apache-2.0 OR MIT

//! Records: key-value pairs grouped between blank lines, and looking fields up in them.

use crate::emitters::{record_step, BlankLineRecordEmitter};
use crate::pair::{KeyValuePair, PairView};
use crate::parse_policy::ParsePolicy;
use crate::parsed_line::classify;
use crate::parser::{initial, line_step, parser_step, KVParser, ParserView};
use crate::record_emitter::RecordEmitter;
use crate::text::{is_blank, str_eq};
use crate::types::{LineNumber, Output, OutputView};
use vstd::prelude::*;
use vstd::std_specs::cmp::PartialEqSpecImpl;
use vstd::std_specs::convert::FromSpecImpl;

verus! {

/// An error from operations on a Record
#[derive(Debug)]
pub enum RecordError {
    /// A key that may occur once at most occurs more often: the key, and how often.
    WantedAtMostOneFoundMore(String, usize),
    /// A key that must occur exactly once occurs more often: the key, and how often.
    WantedOneFoundMore(String, usize),
    /// A key that must occur does not: the key.
    MissingField(String),
    /// The input ended before a record was complete.
    OutOfData,
    /// Any other failure, in words.
    Message(String),
}

/// What a [`RecordError`] stands for in contracts.
pub enum RecordErrorView {
    WantedAtMostOneFoundMore(Seq<char>, nat),
    WantedOneFoundMore(Seq<char>, nat),
    MissingField(Seq<char>),
    OutOfData,
    Message(Seq<char>),
}

impl View for RecordError {
    type V = RecordErrorView;

    open spec fn view(&self) -> RecordErrorView {
        match self {
            RecordError::WantedAtMostOneFoundMore(key, found) => {
                RecordErrorView::WantedAtMostOneFoundMore(key@, *found as nat)
            },
            RecordError::WantedOneFoundMore(key, found) => RecordErrorView::WantedOneFoundMore(
                key@,
                *found as nat,
            ),
            RecordError::MissingField(key) => RecordErrorView::MissingField(key@),
            RecordError::OutOfData => RecordErrorView::OutOfData,
            RecordError::Message(text) => RecordErrorView::Message(text@),
        }
    }
}

/// The values of the fields of `fields` whose key is `key`, in their order in `fields`.
pub open spec fn values_with_key(fields: Seq<PairView>, key: Seq<char>) -> Seq<Seq<char>> {
    fields.filter_map(
        |field: PairView|
            if field.key == key {
                Some(field.value)
            } else {
                None
            },
    )
}

/// How many fields of `fields` have the key `key`.
pub open spec fn count_with_key(fields: Seq<PairView>, key: Seq<char>) -> nat {
    fields.filter(|field: PairView| field.key == key).len()
}

/// Where there is no field, there is no value for any key.
pub proof fn lemma_no_field_no_value(key: Seq<char>)
    ensures
        values_with_key(Seq::empty(), key) == Seq::<Seq<char>>::empty(),
        count_with_key(Seq::empty(), key) == 0,
{
    reveal(Seq::filter);
}

/// There are as many values for a key as there are fields with that key, and no more
/// than there are fields.
pub proof fn lemma_one_value_for_each_field(fields: Seq<PairView>, key: Seq<char>)
    ensures
        values_with_key(fields, key).len() == count_with_key(fields, key),
        count_with_key(fields, key) <= fields.len(),
    decreases fields.len(),
{
    reveal(Seq::filter);
    if fields.len() > 0 {
        lemma_one_value_for_each_field(fields.drop_last(), key);
    }
}

/// What one more field adds to the values and to the count for a key.
pub proof fn lemma_values_with_one_more(fields: Seq<PairView>, field: PairView, key: Seq<char>)
    ensures
        values_with_key(fields.push(field), key) == if field.key == key {
            values_with_key(fields, key).push(field.value)
        } else {
            values_with_key(fields, key)
        },
        count_with_key(fields.push(field), key) == if field.key == key {
            count_with_key(fields, key) + 1
        } else {
            count_with_key(fields, key)
        },
{
    reveal(Seq::filter);
    assert(fields.push(field).drop_last() =~= fields);
    assert(values_with_key(fields, key) + seq![field.value] =~= values_with_key(fields, key).push(
        field.value,
    ));
}

/// An ordered collection of key-value pairs with no (unescaped) blank lines between.
///
/// A key may occur more than once; the lookups below say what they make of that.
pub struct Record(Vec<KeyValuePair>);

impl View for Record {
    type V = Seq<PairView>;

    /// The fields, in the order in which they were pushed.
    closed spec fn view(&self) -> Seq<PairView> {
        self.0.deep_view()
    }
}

impl Default for Record {
    /// A record without fields.
    fn default() -> (r: Self)
        ensures
            r@ == Seq::<PairView>::empty(),
    {
        let r = Record(Vec::new());
        r
    }
}

impl Record {
    /// Adds `pair` behind the fields that the record has.
    pub fn push_field(&mut self, pair: KeyValuePair)
        ensures
            final(self)@ == old(self)@.push(pair@),
    {
        self.0.push(pair);
    }

    /// Return the number of fields whose key matches the provided key
    pub fn count_fields_with_key(&self, key: &str) -> (n: usize)
        ensures
            n == count_with_key(self@, key@),
    {
        let mut n: usize = 0;
        let mut i: usize = 0;
        while i < self.0.len()
            invariant
                i <= self.0.len(),
                n <= i,
                n == count_with_key(self@.take(i as int), key@),
            decreases self.0.len() - i,
        {
            proof {
                assert(self@.take(i + 1) =~= self@.take(i as int).push(self@[i as int]));
                lemma_values_with_one_more(self@.take(i as int), self@[i as int], key@);
            }
            if str_eq(self.0[i].key.as_str(), key) {
                n = n + 1;
            }
            i = i + 1;
        }
        assert(self@.take(i as int) =~= self@);
        n
    }

    /// Return all field values, in the order of the record, whose key matches the provided
    /// key
    pub fn iter_values_for_key<'a>(&'a self, key: &'a str) -> (r: Vec<&'a String>)
        ensures
            r.deep_view() == values_with_key(self@, key@),
            r.len() == count_with_key(self@, key@),
    {
        let mut values: Vec<&'a String> = Vec::new();
        let mut i: usize = 0;
        while i < self.0.len()
            invariant
                i <= self.0.len(),
                values.deep_view() == values_with_key(self@.take(i as int), key@),
            decreases self.0.len() - i,
        {
            proof {
                assert(self@.take(i + 1) =~= self@.take(i as int).push(self@[i as int]));
                lemma_values_with_one_more(self@.take(i as int), self@[i as int], key@);
            }
            if str_eq(self.0[i].key.as_str(), key) {
                values.push(&self.0[i].value);
            }
            i = i + 1;
        }
        proof {
            assert(self@.take(i as int) =~= self@);
            lemma_one_value_for_each_field(self@, key@);
        }
        values
    }

    /// Return a vector of all field values, in the order of the record, whose key matches
    /// the provided key
    pub fn values_for_key<'a>(&'a self, key: &'a str) -> (r: Vec<&'a String>)
        ensures
            r.deep_view() == values_with_key(self@, key@),
            r.len() == count_with_key(self@, key@),
    {
        self.iter_values_for_key(key)
    }

    /// Returns the value of a field with the given key, if any, and returns an error if
    /// more than one such field exists.
    pub fn value_for_key<'a>(&'a self, key: &'a str) -> (r: Result<Option<&'a String>, RecordError>)
        ensures
            match r {
                Ok(None) => count_with_key(self@, key@) == 0,
                Ok(Some(value)) => count_with_key(self@, key@) == 1 && value@ == values_with_key(
                    self@,
                    key@,
                )[0],
                Err(e) => count_with_key(self@, key@) >= 2 && e@
                    == RecordErrorView::WantedAtMostOneFoundMore(key@, count_with_key(self@, key@)),
            },
    {
        let values = self.iter_values_for_key(key);
        if values.len() == 0 {
            Ok(None)
        } else if values.len() == 1 {
            Ok(Some(values[0]))
        } else {
            Err(RecordError::WantedAtMostOneFoundMore(key.to_owned(), values.len()))
        }
    }

    /// Returns the value of a field with the given key, and returns an error if more
    /// than one such field exists, or if none exist.
    pub fn value_for_required_key<'a>(&'a self, key: &'a str) -> (r: Result<
        &'a String,
        RecordError,
    >)
        ensures
            match r {
                Ok(value) => count_with_key(self@, key@) == 1 && value@ == values_with_key(
                    self@,
                    key@,
                )[0],
                Err(e) => if count_with_key(self@, key@) == 0 {
                    e@ == RecordErrorView::MissingField(key@)
                } else {
                    count_with_key(self@, key@) >= 2 && e@ == RecordErrorView::WantedOneFoundMore(
                        key@,
                        count_with_key(self@, key@),
                    )
                },
            },
    {
        let values = self.iter_values_for_key(key);
        if values.len() == 0 {
            Err(RecordError::MissingField(key.to_owned()))
        } else if values.len() == 1 {
            Ok(values[0])
        } else {
            Err(RecordError::WantedOneFoundMore(key.to_owned(), values.len()))
        }
    }
}

/// The output of processing a line of input, seen from a record that is being gathered.
#[derive(Debug)]
pub enum RecordOutput {
    /// The provided line was empty or whitespace-only.
    EmptyLine,
    /// We are in the middle of a multi-line value
    ValuePending,
    /// We are in the middle of a record, between values.
    RecordPending,
    /// The provided line had no key, but was not part of a multi-line value
    KeylessLine(String),
    /// The provided line completes a record
    Record(Vec<KeyValuePair>),
}

/// Whether `a` and `b` hold the same fields in the same order.
fn same_fields(a: &Vec<KeyValuePair>, b: &Vec<KeyValuePair>) -> (same: bool)
    ensures
        same == (a.deep_view() == b.deep_view()),
{
    let same = *a == *b;
    proof {
        if same {
            assert(a.deep_view() =~= b.deep_view());
        } else if a.len() == b.len() {
            let i: int = choose|i: int| 0 <= i < a.len() && a[i]@ != b[i]@;
            assert(a.deep_view()[i] != b.deep_view()[i]);
        } else {
            assert(a.deep_view().len() != b.deep_view().len());
        }
    }
    same
}

impl PartialEq for RecordOutput {
    fn eq(&self, other: &Self) -> (r: bool) {
        match (self, other) {
            (RecordOutput::EmptyLine, RecordOutput::EmptyLine) => true,
            (RecordOutput::ValuePending, RecordOutput::ValuePending) => true,
            (RecordOutput::RecordPending, RecordOutput::RecordPending) => true,
            (RecordOutput::KeylessLine(a), RecordOutput::KeylessLine(b)) => *a == *b,
            (RecordOutput::Record(a), RecordOutput::Record(b)) => same_fields(a, b),
            _ => false,
        }
    }
}

impl PartialEqSpecImpl for RecordOutput {
    open spec fn obeys_eq_spec() -> bool {
        true
    }

    /// Two record outputs are equal when they are of the same variant, and hold the same
    /// text or the same fields in the same order.
    open spec fn eq_spec(&self, other: &Self) -> bool {
        match (self, other) {
            (RecordOutput::EmptyLine, RecordOutput::EmptyLine) => true,
            (RecordOutput::ValuePending, RecordOutput::ValuePending) => true,
            (RecordOutput::RecordPending, RecordOutput::RecordPending) => true,
            (RecordOutput::KeylessLine(a), RecordOutput::KeylessLine(b)) => a@ == b@,
            (RecordOutput::Record(a), RecordOutput::Record(b)) => a.deep_view() == b.deep_view(),
            _ => false,
        }
    }
}

impl Clone for RecordOutput {
    /// The same variant again, with the same text or the same fields.
    fn clone(&self) -> (r: Self)
        ensures
            match self {
                RecordOutput::Record(fields) => r matches RecordOutput::Record(copy) && copy@
                    == fields@,
                _ => r == *self,
            },
    {
        match self {
            RecordOutput::EmptyLine => RecordOutput::EmptyLine,
            RecordOutput::ValuePending => RecordOutput::ValuePending,
            RecordOutput::RecordPending => RecordOutput::RecordPending,
            RecordOutput::KeylessLine(text) => RecordOutput::KeylessLine(text.clone()),
            RecordOutput::Record(fields) => RecordOutput::Record(fields.clone()),
        }
    }
}

impl From<Output<KeyValuePair>> for RecordOutput {
    fn from(v: Output<KeyValuePair>) -> (r: Self) {
        match v {
            Output::EmptyLine => Self::EmptyLine,
            Output::Pending => Self::ValuePending,
            Output::KeylessLine(v) => Self::KeylessLine(v),
            Output::Output(_) => Self::RecordPending,
        }
    }
}

impl FromSpecImpl<Output<KeyValuePair>> for RecordOutput {
    open spec fn obeys_from_spec() -> bool {
        true
    }

    /// A pending value is a value pending, and a pair that is complete leaves the record
    /// pending; an empty line and a keyless line stay what they are.
    open spec fn from_spec(v: Output<KeyValuePair>) -> Self {
        match v {
            Output::EmptyLine => RecordOutput::EmptyLine,
            Output::Pending => RecordOutput::ValuePending,
            Output::KeylessLine(text) => RecordOutput::KeylessLine(text),
            Output::Output(_) => RecordOutput::RecordPending,
        }
    }
}

/// What a [`RecordParser`] stands for in contracts.
pub struct RecordParserView {
    /// The state of the pair parser inside.
    pub parser: ParserView,
    /// The fields gathered for the record in progress.
    pub fields: Seq<PairView>,
}

/// One transition of a record parser: the line goes to the pair parser, and what that
/// puts out goes to the grouping.
pub open spec fn record_parser_step<P: ParsePolicy>(
    policy: P,
    state: RecordParserView,
    line: Seq<char>,
) -> (RecordParserView, OutputView<Seq<PairView>>) {
    let grouped = record_step(state.fields, line_step(policy, state.parser.pending, line).1);
    (
        RecordParserView { parser: parser_step(policy, state.parser, line), fields: grouped.0 },
        grouped.1,
    )
}

/// A keyless line that comes while no value is open is passed on as it is. It is
/// counted, and changes nothing else: the fields gathered so far stay, and the record
/// stays open.
pub proof fn lemma_keyless_line_keeps_record<P: ParsePolicy>(
    policy: P,
    state: RecordParserView,
    line: Seq<char>,
)
    requires
        state.parser.pending is None,
        classify(line) is KeylessLine,
    ensures
        record_parser_step(policy, state, line) == (
            RecordParserView {
                parser: ParserView {
                    lines_processed: state.parser.lines_processed + 1,
                    pending: None,
                },
                fields: state.fields,
            },
            OutputView::<Seq<PairView>>::KeylessLine(line),
        ),
{
}

/// A blank line that comes while no value is open ends the record: with fields gathered
/// it puts them out as the record and leaves none, and with no field gathered it is
/// passed on as an empty line. A record that is put out is never empty.
pub proof fn lemma_blank_line_ends_record<P: ParsePolicy>(
    policy: P,
    state: RecordParserView,
    line: Seq<char>,
)
    requires
        state.parser.pending is None,
        is_blank(line),
    ensures
        record_parser_step(policy, state, line).0.fields == Seq::<PairView>::empty(),
        record_parser_step(policy, state, line).0.parser.pending is None,
        record_parser_step(policy, state, line).1 == if state.fields.len() == 0 {
            OutputView::<Seq<PairView>>::EmptyLine
        } else {
            OutputView::Output(state.fields)
        },
{
}

/// A pair that is complete joins the fields of the record behind those gathered before,
/// and is answered with `Pending`.
pub proof fn lemma_pair_joins_record<P: ParsePolicy>(
    policy: P,
    state: RecordParserView,
    line: Seq<char>,
)
    ensures
        line_step(policy, state.parser.pending, line).1 matches OutputView::Output(pair)
            ==> record_parser_step(policy, state, line).0.fields == state.fields.push(pair)
            && record_parser_step(policy, state, line).1 is Pending,
{
}

/// Parses key-value pairs that are grouped in blank-line-separated "records"
#[derive(Debug)]
pub struct RecordParser<P: ParsePolicy> {
    inner: KVParser<P>,
    emitter: BlankLineRecordEmitter,
}

impl<P: ParsePolicy> View for RecordParser<P> {
    type V = RecordParserView;

    closed spec fn view(&self) -> RecordParserView {
        RecordParserView { parser: self.inner@, fields: self.emitter@ }
    }
}

impl<P: ParsePolicy> RecordParser<P> {
    /// The policy that the pair parser inside asks.
    pub closed spec fn policy(&self) -> P {
        self.inner.policy()
    }

    /// Create a new record parser, wrapping the provided parser.
    pub fn new(inner: KVParser<P>) -> (r: Self)
        ensures
            r.policy() == inner.policy(),
            r@ == (RecordParserView { parser: inner@, fields: Seq::empty() }),
    {
        Self { inner, emitter: BlankLineRecordEmitter::default() }
    }

    /// Pass a line to process and advance the state of the parser.
    ///
    /// If a record has finished and is now available, it will
    /// be found in the return value.
    pub fn process_line(&mut self, line: &str) -> (r: LineNumber<Output<Vec<KeyValuePair>>>)
        requires
            old(self)@.parser.lines_processed < usize::MAX,
        ensures
            final(self).policy() == old(self).policy(),
            (final(self)@, r.value().deep_view()) == record_parser_step(
                old(self).policy(),
                old(self)@,
                line@,
            ),
            r.line_number() == old(self)@.parser.lines_processed + 1,
            r.value() matches Output::Output(record) ==> record.len() > 0,
    {
        let (line_number, output) = self.inner.process_line(line).into_tuple();
        let output = self.emitter.accumulate_output(output);
        LineNumber::new(line_number, output)
    }

    /// End the input and return any record in progress.
    ///
    /// This is the same as passing one more line, an empty one: it is counted, and while
    /// a multi-line value is open it goes to the policy as a line of that value.
    pub fn end_input(&mut self) -> (r: Output<Vec<KeyValuePair>>)
        requires
            old(self)@.parser.lines_processed < usize::MAX,
        ensures
            final(self).policy() == old(self).policy(),
            (final(self)@, r.deep_view()) == record_parser_step(
                old(self).policy(),
                old(self)@,
                Seq::<char>::empty(),
            ),
            r matches Output::Output(record) ==> record.len() > 0,
    {
        proof {
            reveal_strlit("");
            assert(""@ =~= Seq::<char>::empty());
        }
        self.process_line("").into_inner()
    }
}

impl<P: ParsePolicy + Default> RecordParser<P> {
    /// A record parser that has seen no line yet, around the policy that `P::default()`
    /// gives.
    pub fn default() -> (r: Self)
        ensures
            r@ == (RecordParserView { parser: initial(), fields: Seq::empty() }),
            call_ensures(P::default, (), r.policy()),
    {
        Self::new(KVParser::new(P::default()))
    }
}

} // verus!
