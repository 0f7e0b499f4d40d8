// Copyright 2021, Collabora, Ltd.
//
// SPDX-License-Identifier: Apache-2.0 OR MIT

//! The record emitter that comes with the parser, and the rule by which it groups.

use crate::pair::{KeyValuePair, PairView};
use crate::record_emitter::RecordEmitter;
use crate::types::{Output, OutputView};
use vstd::prelude::*;

verus! {

/// What a blank line does to the fields gathered so far: with at least one field the
/// record is put out and the fields start anew, with none the blank line is passed on.
pub open spec fn close_record(fields: Seq<PairView>) -> (
    Seq<PairView>,
    OutputView<Seq<PairView>>,
) {
    if fields.len() == 0 {
        (fields, OutputView::EmptyLine)
    } else {
        (Seq::empty(), OutputView::Output(fields))
    }
}

/// One step of grouping: from the fields gathered so far and one output of the pair
/// parser to the fields afterwards and the output of the grouping.
///
/// An empty line closes the record. A pending value and a keyless line are passed on and
/// leave the fields alone. A pair joins the fields, and the record stays pending.
pub open spec fn record_step(fields: Seq<PairView>, input: OutputView<PairView>) -> (
    Seq<PairView>,
    OutputView<Seq<PairView>>,
) {
    match input {
        OutputView::EmptyLine => close_record(fields),
        OutputView::Pending => (fields, OutputView::Pending),
        OutputView::KeylessLine(text) => (fields, OutputView::KeylessLine(text)),
        OutputView::Output(pair) => (fields.push(pair), OutputView::Pending),
    }
}

/// The fields that are gathered after the outputs of `inputs`, taken one after the other.
pub open spec fn fields_after(fields: Seq<PairView>, inputs: Seq<OutputView<PairView>>) -> Seq<
    PairView,
>
    decreases inputs.len(),
{
    if inputs.len() == 0 {
        fields
    } else {
        record_step(fields_after(fields, inputs.drop_last()), inputs.last()).0
    }
}

/// What the grouping puts out for each output of `inputs`, taken one after the other.
pub open spec fn outputs_of(fields: Seq<PairView>, inputs: Seq<OutputView<PairView>>) -> Seq<
    OutputView<Seq<PairView>>,
>
    decreases inputs.len(),
{
    if inputs.len() == 0 {
        Seq::empty()
    } else {
        let before = inputs.drop_last();
        outputs_of(fields, before).push(record_step(fields_after(fields, before), inputs.last()).1)
    }
}

/// The outputs of a pair parser that completes the pairs of `pairs`, one on each line.
pub open spec fn completed(pairs: Seq<PairView>) -> Seq<OutputView<PairView>> {
    Seq::new(pairs.len(), |i: int| OutputView::Output(pairs[i]))
}

/// Pairs that come one after the other join the fields in the order in which they
/// come, each answered with `Pending`; the empty line behind them puts out the record of
/// all the fields, and leaves none.
pub proof fn lemma_pairs_then_empty_line(fields: Seq<PairView>, pairs: Seq<PairView>)
    ensures
        fields_after(fields, completed(pairs)) == fields + pairs,
        outputs_of(fields, completed(pairs)) == Seq::new(
            pairs.len(),
            |i: int| OutputView::<Seq<PairView>>::Pending,
        ),
        fields.len() + pairs.len() > 0 ==> record_step(fields + pairs, OutputView::EmptyLine) == (
            Seq::<PairView>::empty(),
            OutputView::Output(fields + pairs),
        ),
    decreases pairs.len(),
{
    if pairs.len() > 0 {
        let before = pairs.drop_last();
        lemma_pairs_then_empty_line(fields, before);
        assert(completed(pairs).drop_last() =~= completed(before));
        assert(outputs_of(fields, completed(pairs)) =~= Seq::new(
            pairs.len(),
            |i: int| OutputView::<Seq<PairView>>::Pending,
        ));
    }
}

/// A record that is put out holds at least one field: it is all the fields gathered
/// before, and only an empty line puts it out. An empty line that finds no field
/// gathered is passed on as an empty line.
pub proof fn lemma_no_empty_record(fields: Seq<PairView>, input: OutputView<PairView>)
    ensures
        record_step(fields, input).1 matches OutputView::Output(record) ==> record.len() > 0
            && record == fields && input is EmptyLine,
        record_step(Seq::empty(), OutputView::EmptyLine) == (
            Seq::<PairView>::empty(),
            OutputView::<Seq<PairView>>::EmptyLine,
        ),
{
}

/// A keyless line is passed on as it is, and the fields gathered stay as they are.
pub proof fn lemma_keyless_leaves_fields_alone(fields: Seq<PairView>, text: Seq<char>)
    ensures
        record_step(fields, OutputView::KeylessLine(text)) == (
            fields,
            OutputView::<Seq<PairView>>::KeylessLine(text),
        ),
{
}

/// A keyless line among other outputs changes nothing but its own place: the fields
/// gathered in the end are those gathered without it, and what is put out is what is put
/// out without it, with the keyless line where it came. So a keyless line within a
/// record neither closes the record nor becomes one of its fields.
pub proof fn lemma_keyless_line_between(
    fields: Seq<PairView>,
    before: Seq<OutputView<PairView>>,
    text: Seq<char>,
    after: Seq<OutputView<PairView>>,
)
    ensures
        fields_after(fields, before + seq![OutputView::KeylessLine(text)] + after) == fields_after(
            fields,
            before + after,
        ),
        outputs_of(fields, before + seq![OutputView::KeylessLine(text)] + after) == outputs_of(
            fields,
            before + after,
        ).insert(before.len() as int, OutputView::KeylessLine(text)),
    decreases after.len(),
{
    let keyless = OutputView::<PairView>::KeylessLine(text);
    let with = before + seq![keyless] + after;
    let without = before + after;
    if after.len() == 0 {
        assert(with.drop_last() =~= before);
        assert(outputs_of(fields, with) =~= outputs_of(fields, before).insert(
            before.len() as int,
            OutputView::KeylessLine(text),
        )) by {
            lemma_one_output_for_each_input(fields, before);
        }
    } else {
        lemma_keyless_line_between(fields, before, text, after.drop_last());
        assert(with.drop_last() =~= before + seq![keyless] + after.drop_last());
        assert(without.drop_last() =~= before + after.drop_last());
        lemma_one_output_for_each_input(fields, without.drop_last());
        assert(outputs_of(fields, with) =~= outputs_of(fields, without).insert(
            before.len() as int,
            OutputView::KeylessLine(text),
        ));
    }
}

/// The grouping puts out one output for each output that it is given.
pub proof fn lemma_one_output_for_each_input(
    fields: Seq<PairView>,
    inputs: Seq<OutputView<PairView>>,
)
    ensures
        outputs_of(fields, inputs).len() == inputs.len(),
    decreases inputs.len(),
{
    if inputs.len() > 0 {
        lemma_one_output_for_each_input(fields, inputs.drop_last());
    }
}

/// A record emitter that ends/emits records on a blank line.
#[derive(Debug)]
pub struct BlankLineRecordEmitter {
    fields: Vec<KeyValuePair>,
}

impl View for BlankLineRecordEmitter {
    type V = Seq<PairView>;

    /// The fields gathered for the record in progress, in the order in which they came.
    closed spec fn view(&self) -> Seq<PairView> {
        self.fields.deep_view()
    }
}

impl Default for BlankLineRecordEmitter {
    /// An emitter with no field gathered yet.
    fn default() -> (r: Self)
        ensures
            r@ == Seq::<PairView>::empty(),
    {
        let r = BlankLineRecordEmitter { fields: Vec::new() };
        r
    }
}

impl BlankLineRecordEmitter {
    fn try_take(&mut self) -> (r: Output<Vec<KeyValuePair>>)
        ensures
            (final(self)@, r.deep_view()) == close_record(old(self)@),
    {
        if self.fields.is_empty() {
            Output::EmptyLine
        } else {
            let mut record: Vec<KeyValuePair> = Vec::new();
            core::mem::swap(&mut self.fields, &mut record);
            Output::Output(record)
        }
    }
}

impl RecordEmitter for BlankLineRecordEmitter {
    fn accumulate_output(&mut self, maybe_field: Output<KeyValuePair>) -> (r: Output<
        Vec<KeyValuePair>,
    >)
        ensures
            (final(self)@, r.deep_view()) == record_step(old(self)@, maybe_field.deep_view()),
            r matches Output::Output(record) ==> record.len() > 0,
    {
        match maybe_field {
            Output::EmptyLine => self.try_take(),
            Output::Pending => Output::Pending,
            Output::KeylessLine(v) => Output::KeylessLine(v),
            Output::Output(v) => {
                self.fields.push(v);
                Output::Pending
            },
        }
    }

    fn end_input(&mut self) -> (r: Output<Vec<KeyValuePair>>)
        ensures
            (final(self)@, r.deep_view()) == close_record(old(self)@),
            r matches Output::Output(record) ==> record.len() > 0,
    {
        self.try_take()
    }
}

} // verus!
