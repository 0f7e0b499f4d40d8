// Copyright 2021, Collabora, Ltd.
//
// SPDX-License-Identifier: Apache-2.0 OR MIT

//! Process lines incrementally to get key: value pairs using [`KVParser`].

use crate::pair::{KeyValuePair, PairView};
use crate::parse_policy::{
    fragment_text, ContinuationDecision, ParsePolicy, ProcessedContinuationValue, ProcessedValue,
    ValueDecision,
};
use crate::parsed_line::{classify, lemma_classify_key_then_value, ParsedLine, ParsedLineView};
use crate::policies::{close_text, open_text, SPDXParsePolicy, TrivialParsePolicy};
use crate::text::{delimiter, has_delimiter, join, join_lines};
use crate::types::{LineNumber, Output, OutputView};
use vstd::prelude::*;

verus! {

/// A value that has begun and waits for its further lines.
pub struct PendingValue {
    /// The key that the value belongs to.
    pub key: Seq<char>,
    /// The lines of the value that were kept so far, in the order in which they came.
    pub lines: Seq<Seq<char>>,
}

/// What a [`KVParser`] stands for in contracts.
pub struct ParserView {
    /// How many lines the parser has been given.
    pub lines_processed: nat,
    /// The multi-line value that is open, if one is.
    pub pending: Option<PendingValue>,
}

/// The state of a parser that has seen no line yet.
pub open spec fn initial() -> ParserView {
    ParserView { lines_processed: 0, pending: None }
}

/// The lines of a value after a policy has handed back `fragment` for one more line:
/// a fragment is appended, and no fragment leaves the lines as they are.
pub open spec fn with_fragment(lines: Seq<Seq<char>>, fragment: Option<Seq<char>>) -> Seq<
    Seq<char>,
> {
    match fragment {
        Some(text) => lines.push(text),
        None => lines,
    }
}

/// An open value after a policy has handed back `fragment` for one more line.
pub open spec fn extended(open: PendingValue, fragment: Option<Seq<char>>) -> PendingValue {
    PendingValue { key: open.key, lines: with_fragment(open.lines, fragment) }
}

/// The pair that an open value gives when it ends: its key, and its lines joined with
/// newlines.
pub open spec fn finished(open: PendingValue) -> PairView {
    PairView { key: open.key, value: join_lines(open.lines) }
}

/// What follows from a policy's decision on the value found beside `key`: the open value
/// afterwards, and the output for the line.
pub open spec fn begin_value(key: Seq<char>, decision: ValueDecision) -> (
    Option<PendingValue>,
    OutputView<PairView>,
) {
    match decision {
        ValueDecision::Complete(value) => (None, OutputView::Output(PairView { key, value })),
        ValueDecision::StartsMultiline(fragment) => (
            Some(extended(PendingValue { key, lines: Seq::empty() }, fragment)),
            OutputView::Pending,
        ),
    }
}

/// What follows from a policy's decision on a line that came while `open` was open: the
/// open value afterwards, and the output for the line.
pub open spec fn continue_value(open: PendingValue, decision: ContinuationDecision) -> (
    Option<PendingValue>,
    OutputView<PairView>,
) {
    match decision {
        ContinuationDecision::Continues(fragment) => (
            Some(extended(open, fragment)),
            OutputView::Pending,
        ),
        ContinuationDecision::Finishes(fragment) => (
            None,
            OutputView::Output(finished(extended(open, fragment))),
        ),
    }
}

/// One transition of the parser: from the open value, if any, and a line to the open
/// value afterwards and the output for the line.
///
/// With no value open the line is classified. An empty line and a keyless line are put
/// out as they are; the value of a pair goes to the policy. While a value is open the
/// line goes to the policy as it is, blank or not, with or without a delimiter.
pub open spec fn line_step<P: ParsePolicy>(
    policy: P,
    pending: Option<PendingValue>,
    line: Seq<char>,
) -> (Option<PendingValue>, OutputView<PairView>) {
    match pending {
        None => match classify(line) {
            ParsedLineView::EmptyLine => (None, OutputView::EmptyLine),
            ParsedLineView::KeylessLine(text) => (None, OutputView::KeylessLine(text)),
            ParsedLineView::Pair(pair) => begin_value(
                pair.key,
                policy.value_decision(pair.key, pair.value),
            ),
        },
        Some(open) => continue_value(open, policy.continuation_decision(open.key, line)),
    }
}

/// The state of a parser after one more line.
pub open spec fn parser_step<P: ParsePolicy>(policy: P, state: ParserView, line: Seq<char>)
    -> ParserView {
    ParserView {
        lines_processed: state.lines_processed + 1,
        pending: line_step(policy, state.pending, line).0,
    }
}

/// The state of a parser after the lines of `lines`, given one after the other.
pub open spec fn parser_run<P: ParsePolicy>(policy: P, state: ParserView, lines: Seq<Seq<char>>)
    -> ParserView
    decreases lines.len(),
{
    if lines.len() == 0 {
        state
    } else {
        parser_step(policy, parser_run(policy, state, lines.drop_last()), lines.last())
    }
}

/// What a parser puts out for each of the lines of `lines`, given one after the other.
pub open spec fn parser_outputs<P: ParsePolicy>(
    policy: P,
    state: ParserView,
    lines: Seq<Seq<char>>,
) -> Seq<OutputView<PairView>>
    decreases lines.len(),
{
    if lines.len() == 0 {
        Seq::empty()
    } else {
        let before = lines.drop_last();
        parser_outputs(policy, state, before).push(
            line_step(policy, parser_run(policy, state, before).pending, lines.last()).1,
        )
    }
}

/// Every line is counted, whatever it holds and whatever comes out for it: after the
/// lines of `lines` the counter has grown by their number, and there is one output for
/// each of them. A parser that starts with no line seen has then seen as many lines as
/// it was given.
pub proof fn lemma_every_line_is_counted<P: ParsePolicy>(
    policy: P,
    state: ParserView,
    lines: Seq<Seq<char>>,
)
    ensures
        parser_run(policy, state, lines).lines_processed == state.lines_processed + lines.len(),
        parser_run(policy, initial(), lines).lines_processed == lines.len(),
        parser_outputs(policy, state, lines).len() == lines.len(),
    decreases lines.len(),
{
    if lines.len() > 0 {
        lemma_every_line_is_counted(policy, state, lines.drop_last());
        lemma_every_line_is_counted(policy, initial(), lines.drop_last());
    }
}

/// With the trivial policy and no value open, a line leaves no value open and is never
/// answered with `Pending`; a line that is a pair is answered with that pair, on the line
/// itself.
pub proof fn lemma_trivial_policy_completes_on_the_line(line: Seq<char>)
    ensures
        line_step(TrivialParsePolicy, None, line).0 is None,
        !(line_step(TrivialParsePolicy, None, line).1 is Pending),
        classify(line) matches ParsedLineView::Pair(pair) ==> line_step(
            TrivialParsePolicy,
            None,
            line,
        ).1 == OutputView::Output(pair),
{
}

/// With the trivial policy a parser that starts with no value open never has one open,
/// and never answers `Pending`, whatever lines it is given.
pub proof fn lemma_trivial_policy_never_waits(state: ParserView, lines: Seq<Seq<char>>)
    requires
        state.pending is None,
    ensures
        parser_run(TrivialParsePolicy, state, lines).pending is None,
        forall|i: int|
            0 <= i < lines.len() ==> !(#[trigger] parser_outputs(
                TrivialParsePolicy,
                state,
                lines,
            )[i] is Pending),
    decreases lines.len(),
{
    if lines.len() > 0 {
        lemma_trivial_policy_never_waits(state, lines.drop_last());
        lemma_trivial_policy_completes_on_the_line(lines.last());
        lemma_every_line_is_counted(TrivialParsePolicy, state, lines.drop_last());
    }
}

/// The lines of a text block: the key, the delimiter and the opening token with the
/// first line of the value behind it; the lines of `middle`; and the last line of the
/// value with the closing token behind it.
pub open spec fn text_block(
    key: Seq<char>,
    first: Seq<char>,
    middle: Seq<Seq<char>>,
    last: Seq<char>,
) -> Seq<Seq<char>> {
    seq![key + delimiter() + open_text() + first] + middle + seq![last + close_text()]
}

/// While a text block is open, and as long as no line ends with the closing token, the
/// lines are kept as they are and each is answered with `Pending`.
proof fn lemma_text_block_stays_open(
    state: ParserView,
    key: Seq<char>,
    first: Seq<char>,
    middle: Seq<Seq<char>>,
)
    requires
        state.pending is None,
        !has_delimiter(key),
        !close_text().is_suffix_of(first),
        forall|i: int| 0 <= i < middle.len() ==> !close_text().is_suffix_of(#[trigger] middle[i]),
    ensures
        ({
            let lines = seq![key + delimiter() + open_text() + first] + middle;
            &&& parser_run(SPDXParsePolicy, state, lines).pending == Some(
                PendingValue { key, lines: seq![first] + middle },
            )
            &&& parser_outputs(SPDXParsePolicy, state, lines) == Seq::new(
                lines.len(),
                |i: int| OutputView::<PairView>::Pending,
            )
        }),
    decreases middle.len(),
{
    let opening = key + delimiter() + open_text() + first;
    let lines = seq![opening] + middle;
    if middle.len() == 0 {
        assert(opening =~= key + delimiter() + (open_text() + first));
        lemma_classify_key_then_value(key, open_text() + first);
        assert((open_text() + first).skip(open_text().len() as int) =~= first);
        assert(parser_outputs(SPDXParsePolicy, state, lines.drop_last()).len() == 0);
    } else {
        let before = middle.drop_last();
        lemma_text_block_stays_open(state, key, first, before);
        assert(lines.drop_last() =~= seq![opening] + before);
        assert(seq![first] + middle =~= (seq![first] + before).push(middle.last()));
    }
}

/// A text block comes back as one pair. Where the key holds no delimiter and neither
/// the first line nor a line in the middle ends with the closing token, every line of
/// the block but the last is answered with `Pending`, and the last with the pair of the
/// key and the lines of the value, joined with newlines and without the two tokens.
/// No value is open afterwards.
pub proof fn lemma_text_block_round_trip(
    state: ParserView,
    key: Seq<char>,
    first: Seq<char>,
    middle: Seq<Seq<char>>,
    last: Seq<char>,
)
    requires
        state.pending is None,
        !has_delimiter(key),
        !close_text().is_suffix_of(first),
        forall|i: int| 0 <= i < middle.len() ==> !close_text().is_suffix_of(#[trigger] middle[i]),
    ensures
        ({
            let lines = text_block(key, first, middle, last);
            let outputs = parser_outputs(SPDXParsePolicy, state, lines);
            &&& parser_run(SPDXParsePolicy, state, lines).pending is None
            &&& outputs.len() == lines.len()
            &&& forall|i: int| 0 <= i < lines.len() - 1 ==> #[trigger] outputs[i] is Pending
            &&& outputs.last() == OutputView::Output(
                PairView { key, value: join_lines(seq![first] + middle + seq![last]) },
            )
        }),
{
    let lines = text_block(key, first, middle, last);
    let closing = last + close_text();
    lemma_text_block_stays_open(state, key, first, middle);
    assert(lines.drop_last() =~= seq![key + delimiter() + open_text() + first] + middle);
    assert(closing.take(closing.len() - close_text().len()) =~= last);
    assert((seq![first] + middle).push(last) =~= seq![first] + middle + seq![last]);
}


#[derive(Debug, Clone, Copy)]
enum State {
    Ready,
    AwaitingCloseText,
}

/// A parser for key-value pairs (aka tag-value files).
///
/// Parameterized on handling of values to allow different
/// policies for e.g. handling multi-line values.
#[derive(Debug)]
pub struct KVParser<P> {
    policy: P,
    state: State,
    line_num: usize,
    pending_key: String,
    value_lines: Vec<String>,
}

impl<P> View for KVParser<P> {
    type V = ParserView;

    closed spec fn view(&self) -> ParserView {
        ParserView {
            lines_processed: self.line_num as nat,
            pending: match self.state {
                State::Ready => None,
                State::AwaitingCloseText => Some(
                    PendingValue { key: self.pending_key@, lines: self.value_lines.deep_view() },
                ),
            },
        }
    }
}

impl<P> KVParser<P> {
    /// A pending key and kept lines exist only while a value is open.
    #[verifier::type_invariant]
    spec fn idle_holds_nothing(&self) -> bool {
        self.state is Ready ==> self.pending_key@.len() == 0 && self.value_lines@.len() == 0
    }

    /// The policy that this parser asks.
    pub closed spec fn policy(&self) -> P {
        self.policy
    }
}

impl<P: ParsePolicy> KVParser<P> {
    /// Create a parser state wrapping a parse policy.
    pub fn new(policy: P) -> (r: Self)
        ensures
            r@ == initial(),
            r.policy() == policy,
    {
        Self {
            state: State::Ready,
            line_num: 0,
            pending_key: String::new(),
            value_lines: Vec::new(),
            policy,
        }
    }

    fn maybe_push_value_line(&mut self, maybe_value: Option<&str>)
        requires
            old(self).state is AwaitingCloseText,
        ensures
            final(self).state is AwaitingCloseText,
            final(self).policy == old(self).policy,
            final(self).line_num == old(self).line_num,
            final(self).pending_key == old(self).pending_key,
            final(self).value_lines.deep_view() == with_fragment(
                old(self).value_lines.deep_view(),
                fragment_text(maybe_value),
            ),
    {
        if let Some(value) = maybe_value {
            let mut lines: Vec<String> = Vec::new();
            core::mem::swap(&mut self.value_lines, &mut lines);
            lines.push(value.to_owned());
            self.value_lines = lines;
        }
    }

    fn take_pending(&mut self) -> (r: KeyValuePair)
        requires
            old(self).state is AwaitingCloseText,
        ensures
            final(self).state is Ready,
            final(self).policy == old(self).policy,
            final(self).line_num == old(self).line_num,
            old(self)@.pending matches Some(open) && r@ == finished(open),
    {
        let mut lines: Vec<String> = Vec::new();
        core::mem::swap(&mut self.value_lines, &mut lines);
        let mut key = String::new();
        core::mem::swap(&mut self.pending_key, &mut key);
        self.state = State::Ready;
        KeyValuePair { key, value: join(&lines) }
    }

    /// Acts on what the policy decided for the value found beside `key`.
    fn accept_value(&mut self, key: String, decision: ProcessedValue<'_>) -> (r: Output<
        KeyValuePair,
    >)
        requires
            old(self).state is Ready,
        ensures
            final(self).policy() == old(self).policy(),
            final(self)@.lines_processed == old(self)@.lines_processed,
            (final(self)@.pending, r.deep_view()) == begin_value(key@, decision@),
    {
        match decision {
            ProcessedValue::CompleteValue(value) => Output::Output(
                KeyValuePair { key, value: value.to_owned() },
            ),
            ProcessedValue::StartOfMultiline(maybe_value) => {
                proof {
                    use_type_invariant(&*self);
                }
                self.state = State::AwaitingCloseText;
                self.pending_key = key;
                assert(self.value_lines.deep_view() =~= Seq::<Seq<char>>::empty());
                self.maybe_push_value_line(maybe_value);
                Output::Pending
            },
        }
    }

    /// Acts on what the policy decided for a line that came while a value was open.
    fn accept_continuation(&mut self, decision: ProcessedContinuationValue<'_>) -> (r: Output<
        KeyValuePair,
    >)
        requires
            old(self).state is AwaitingCloseText,
        ensures
            final(self).policy() == old(self).policy(),
            final(self)@.lines_processed == old(self)@.lines_processed,
            old(self)@.pending matches Some(open) && (final(self)@.pending, r.deep_view())
                == continue_value(open, decision@),
    {
        match decision {
            ProcessedContinuationValue::ContinueMultiline(maybe_value) => {
                self.maybe_push_value_line(maybe_value);
                Output::Pending
            },
            ProcessedContinuationValue::FinishMultiline(maybe_value) => {
                self.maybe_push_value_line(maybe_value);
                Output::Output(self.take_pending())
            },
        }
    }

    /// The number of lines that we have processed.
    pub fn lines_processed(&self) -> (n: usize)
        ensures
            n == self@.lines_processed,
    {
        self.line_num
    }

    /// Pass a line to process and advance the state of the parser.
    ///
    /// If a complete key: value pair is now available, it will
    /// be found in the return value. The line number in the return value is the number
    /// of lines that the parser has been given, this one included.
    pub fn process_line(&mut self, line: &str) -> (r: LineNumber<Output<KeyValuePair>>)
        requires
            old(self)@.lines_processed < usize::MAX,
        ensures
            final(self).policy() == old(self).policy(),
            final(self)@ == parser_step(old(self).policy(), old(self)@, line@),
            r.line_number() == old(self)@.lines_processed + 1,
            r.value().deep_view() == line_step(old(self).policy(), old(self)@.pending, line@).1,
            r.value() is Pending <==> final(self)@.pending is Some,
    {
        proof {
            use_type_invariant(&*self);
        }
        self.line_num = self.line_num + 1;
        let output = if self.is_ready() {
            match ParsedLine::from(line) {
                ParsedLine::EmptyLine => Output::EmptyLine,
                ParsedLine::KeylessLine(v) => Output::KeylessLine(v),
                ParsedLine::Pair(pair) => {
                    let decision = self.policy.process_value(
                        pair.key.as_str(),
                        pair.value.as_str(),
                    );
                    self.accept_value(pair.key, decision)
                },
            }
        } else {
            let decision = self.policy.process_continuation(self.pending_key.as_str(), line);
            self.accept_continuation(decision)
        };
        LineNumber::new(self.line_num, output)
    }

    fn is_ready(&self) -> (b: bool)
        ensures
            b == (self.state is Ready),
    {
        match self.state {
            State::Ready => true,
            State::AwaitingCloseText => false,
        }
    }

    /// Take the pending key: value pair, if any, and treat it as having completed.
    /// For example, this may be useful at the end of input.
    ///
    /// The pair is made of the lines kept so far, and the policy is not asked again.
    /// Nothing tells a value that was cut short from one that ended.
    pub fn take_pending_pair(&mut self) -> (r: Option<KeyValuePair>)
        ensures
            final(self).policy() == old(self).policy(),
            final(self)@.lines_processed == old(self)@.lines_processed,
            final(self)@.pending is None,
            match old(self)@.pending {
                Some(open) => r matches Some(pair) && pair@ == finished(open),
                None => r is None,
            },
    {
        if self.is_ready() {
            None
        } else {
            Some(self.take_pending())
        }
    }
}

impl<P: ParsePolicy + Default> Default for KVParser<P> {
    /// A parser that has seen no line yet, around the policy that `P::default()` gives.
    fn default() -> (r: Self)
        ensures
            r@ == initial(),
            call_ensures(P::default, (), r.policy()),
    {
        Self::new(P::default())
    }
}

} // verus!
