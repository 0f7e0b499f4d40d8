// SPDX-License-Identifier: Apache-2.0 OR MIT

use key_value_parser::emitters::BlankLineRecordEmitter;
use key_value_parser::policies::{SPDXParsePolicy, TrivialParsePolicy};
use key_value_parser::record::{Record, RecordError, RecordOutput, RecordParser};
use key_value_parser::record_emitter::RecordEmitter;
use key_value_parser::{KVParser, KeyValuePair, LineNumber, Output};

fn field(key: &str, value: &str) -> KeyValuePair {
    KeyValuePair {
        key: key.to_string(),
        value: value.to_string(),
    }
}

#[test]
fn record_ends_at_a_blank_line() {
    let mut parser = RecordParser::new(KVParser::new(TrivialParsePolicy));
    assert_eq!(
        parser.process_line("a: 1"),
        LineNumber::new(1, Output::Pending)
    );
    assert_eq!(
        parser.process_line("b: 2"),
        LineNumber::new(2, Output::Pending)
    );
    assert_eq!(
        parser.process_line(""),
        LineNumber::new(3, Output::Output(vec![field("a", "1"), field("b", "2")]))
    );
}

#[test]
fn blank_line_without_fields_is_an_empty_line() {
    let mut parser = RecordParser::new(KVParser::new(TrivialParsePolicy));
    assert_eq!(
        parser.process_line(""),
        LineNumber::new(1, Output::EmptyLine)
    );
    assert_eq!(
        parser.process_line("   "),
        LineNumber::new(2, Output::EmptyLine)
    );
    parser.process_line("a: 1");
    assert_eq!(
        parser.process_line(""),
        LineNumber::new(4, Output::Output(vec![field("a", "1")]))
    );
    // The record is out: the next blank line finds no field.
    assert_eq!(
        parser.process_line(""),
        LineNumber::new(5, Output::EmptyLine)
    );
}

#[test]
fn records_follow_each_other() {
    let mut parser: RecordParser<SPDXParsePolicy> = RecordParser::default();
    let lines = [
        ("a: 1", Output::Pending),
        ("", Output::Output(vec![field("a", "1")])),
        ("", Output::EmptyLine),
        ("b: 2", Output::Pending),
        ("c: <text>3", Output::Pending),
        ("", Output::Pending),
        ("4</text>", Output::Pending),
        ("  ", Output::Output(vec![field("b", "2"), field("c", "3\n\n4")])),
    ];
    let mut number: usize = 0;
    for (line, expected) in lines {
        number += 1;
        assert_eq!(parser.process_line(line), LineNumber::new(number, expected));
    }
}

#[test]
fn keyless_line_does_not_touch_the_record() {
    let mut parser = RecordParser::new(KVParser::new(TrivialParsePolicy));
    assert_eq!(parser.process_line("a: 1").into_inner(), Output::Pending);
    assert_eq!(
        parser.process_line("no key here").into_inner(),
        Output::KeylessLine("no key here".to_string())
    );
    assert_eq!(parser.process_line("b: 2").into_inner(), Output::Pending);
    assert_eq!(
        parser.process_line("").into_inner(),
        Output::Output(vec![field("a", "1"), field("b", "2")])
    );
}

#[test]
fn keyless_line_outside_a_record_passes_through() {
    let mut parser = RecordParser::new(KVParser::new(TrivialParsePolicy));
    assert_eq!(
        parser.process_line("first words"),
        LineNumber::new(1, Output::KeylessLine("first words".to_string()))
    );
    assert_eq!(
        parser.process_line(""),
        LineNumber::new(2, Output::EmptyLine)
    );
}

#[test]
fn duplicate_keys_stay_in_the_record() {
    let mut parser = RecordParser::new(KVParser::new(TrivialParsePolicy));
    parser.process_line("a: 1");
    parser.process_line("a: 2");
    parser.process_line("a: 1");
    assert_eq!(
        parser.process_line("").into_inner(),
        Output::Output(vec![field("a", "1"), field("a", "2"), field("a", "1")])
    );
}

#[test]
fn end_input_puts_out_the_record_in_progress() {
    let mut parser = RecordParser::new(KVParser::new(TrivialParsePolicy));
    parser.process_line("a: 1");
    parser.process_line("b: 2");
    assert_eq!(
        parser.end_input(),
        Output::Output(vec![field("a", "1"), field("b", "2")])
    );
    assert_eq!(parser.end_input(), Output::EmptyLine);
}

#[test]
fn end_input_is_one_more_empty_line() {
    let mut parser = RecordParser::new(KVParser::new(SPDXParsePolicy));
    parser.process_line("a: 1");
    assert_eq!(parser.end_input(), Output::Output(vec![field("a", "1")]));
    // Lines one and two are used up.
    assert_eq!(
        parser.process_line("b: <text>2"),
        LineNumber::new(3, Output::Pending)
    );
    // While a value is open the empty line is one of its lines.
    assert_eq!(parser.end_input(), Output::Pending);
    assert_eq!(
        parser.process_line("3</text>"),
        LineNumber::new(5, Output::Pending)
    );
    assert_eq!(
        parser.end_input(),
        Output::Output(vec![field("b", "2\n\n3")])
    );
}

#[test]
fn record_parser_wraps_a_parser_that_has_seen_lines() {
    let mut inner = KVParser::new(TrivialParsePolicy);
    inner.process_line("skipped: 1");
    inner.process_line("skipped: 2");
    let mut parser = RecordParser::new(inner);
    assert_eq!(
        parser.process_line("a: 1"),
        LineNumber::new(3, Output::Pending)
    );
    assert_eq!(
        parser.process_line(""),
        LineNumber::new(4, Output::Output(vec![field("a", "1")]))
    );
}

#[test]
fn emitter_groups_by_blank_lines() {
    let mut emitter = BlankLineRecordEmitter::default();
    assert_eq!(emitter.accumulate_output(Output::EmptyLine), Output::EmptyLine);
    assert_eq!(
        emitter.accumulate_output(Output::Output(field("a", "1"))),
        Output::Pending
    );
    assert_eq!(emitter.accumulate_output(Output::Pending), Output::Pending);
    assert_eq!(
        emitter.accumulate_output(Output::KeylessLine("words".to_string())),
        Output::KeylessLine("words".to_string())
    );
    assert_eq!(
        emitter.accumulate_output(Output::Output(field("b", "2"))),
        Output::Pending
    );
    assert_eq!(
        emitter.accumulate_output(Output::EmptyLine),
        Output::Output(vec![field("a", "1"), field("b", "2")])
    );
    assert_eq!(emitter.accumulate_output(Output::EmptyLine), Output::EmptyLine);
}

#[test]
fn emitter_end_input() {
    let mut emitter = BlankLineRecordEmitter::default();
    assert_eq!(emitter.end_input(), Output::EmptyLine);
    emitter.accumulate_output(Output::Output(field("a", "1")));
    assert_eq!(emitter.end_input(), Output::Output(vec![field("a", "1")]));
    assert_eq!(emitter.end_input(), Output::EmptyLine);
}

#[test]
fn emitter_never_puts_out_an_empty_record() {
    let mut emitter = BlankLineRecordEmitter::default();
    let inputs = [
        Output::EmptyLine,
        Output::Pending,
        Output::EmptyLine,
        Output::KeylessLine("x".to_string()),
        Output::EmptyLine,
        Output::Output(field("a", "1")),
        Output::EmptyLine,
        Output::EmptyLine,
    ];
    for input in inputs {
        if let Output::Output(record) = emitter.accumulate_output(input) {
            assert!(!record.is_empty());
        }
    }
    if let Output::Output(record) = emitter.end_input() {
        assert!(!record.is_empty());
    }
}

fn record_of(fields: &[(&str, &str)]) -> Record {
    let mut record = Record::default();
    for (key, value) in fields {
        record.push_field(field(key, value));
    }
    record
}

#[test]
fn count_fields_with_key_counts_the_pairs_with_that_key() {
    let record = record_of(&[("a", "1"), ("b", "2"), ("a", "3"), ("c", "4"), ("a", "1")]);
    assert_eq!(record.count_fields_with_key("a"), 3);
    assert_eq!(record.count_fields_with_key("b"), 1);
    assert_eq!(record.count_fields_with_key("c"), 1);
    assert_eq!(record.count_fields_with_key("d"), 0);
    assert_eq!(record.count_fields_with_key(""), 0);
    assert_eq!(record.count_fields_with_key("A"), 0);
    assert_eq!(record.count_fields_with_key("a "), 0);
    assert_eq!(Record::default().count_fields_with_key("a"), 0);
}

#[test]
fn values_for_key_keeps_the_order() {
    let record = record_of(&[("a", "1"), ("b", "2"), ("a", "3"), ("c", "4"), ("a", "1")]);
    assert_eq!(record.values_for_key("a"), vec!["1", "3", "1"]);
    assert_eq!(record.values_for_key("b"), vec!["2"]);
    assert!(record.values_for_key("d").is_empty());
    assert_eq!(record.iter_values_for_key("a"), vec!["1", "3", "1"]);
    assert_eq!(record.iter_values_for_key("c"), vec!["4"]);
    assert!(record.iter_values_for_key("").is_empty());
}

#[test]
fn value_for_key_wants_at_most_one() {
    let record = record_of(&[("a", "1"), ("b", "2"), ("a", "3"), ("a", "4")]);
    assert!(matches!(record.value_for_key("missing"), Ok(None)));
    assert!(matches!(record.value_for_key("b"), Ok(Some(value)) if value == "2"));
    assert!(matches!(
        record.value_for_key("a"),
        Err(RecordError::WantedAtMostOneFoundMore(key, 3)) if key == "a"
    ));
}

#[test]
fn value_for_key_with_two_fields() {
    let record = record_of(&[("a", "1"), ("a", "1")]);
    assert!(matches!(
        record.value_for_key("a"),
        Err(RecordError::WantedAtMostOneFoundMore(key, 2)) if key == "a"
    ));
}

#[test]
fn value_for_required_key_wants_exactly_one() {
    let record = record_of(&[("a", "1"), ("b", "2"), ("a", "3"), ("a", "4")]);
    assert!(matches!(
        record.value_for_required_key("missing"),
        Err(RecordError::MissingField(key)) if key == "missing"
    ));
    assert!(matches!(record.value_for_required_key("b"), Ok(value) if value == "2"));
    assert!(matches!(
        record.value_for_required_key("a"),
        Err(RecordError::WantedOneFoundMore(key, 3)) if key == "a"
    ));
}

#[test]
fn value_for_required_key_with_two_fields() {
    let record = record_of(&[("k", "x"), ("other", "y"), ("k", "z")]);
    assert!(matches!(
        record.value_for_required_key("k"),
        Err(RecordError::WantedOneFoundMore(key, 2)) if key == "k"
    ));
    assert!(matches!(
        record.value_for_required_key(""),
        Err(RecordError::MissingField(key)) if key.is_empty()
    ));
}

#[test]
fn lookups_agree_with_the_count() {
    let record = record_of(&[
        ("a", "1"),
        ("b", "2"),
        ("a", "3"),
        ("c", "4"),
        ("c", "5"),
        ("c", "6"),
    ]);
    for key in ["a", "b", "c", "d"] {
        let count = record.count_fields_with_key(key);
        assert_eq!(record.values_for_key(key).len(), count);
        match record.value_for_required_key(key) {
            Ok(value) => {
                assert_eq!(count, 1);
                assert_eq!(record.values_for_key(key), vec![value]);
            }
            Err(RecordError::MissingField(missing)) => {
                assert_eq!(count, 0);
                assert_eq!(missing, key);
            }
            Err(RecordError::WantedOneFoundMore(found_key, found)) => {
                assert!(count >= 2);
                assert_eq!(found, count);
                assert_eq!(found_key, key);
            }
            Err(other) => panic!("unexpected error {:?}", other),
        }
        match record.value_for_key(key) {
            Ok(None) => assert_eq!(count, 0),
            Ok(Some(value)) => {
                assert_eq!(count, 1);
                assert_eq!(record.values_for_key(key), vec![value]);
            }
            Err(RecordError::WantedAtMostOneFoundMore(found_key, found)) => {
                assert!(count >= 2);
                assert_eq!(found, count);
                assert_eq!(found_key, key);
            }
            Err(other) => panic!("unexpected error {:?}", other),
        }
    }
}

#[test]
fn record_from_a_parsed_group() {
    let mut parser = RecordParser::new(KVParser::new(SPDXParsePolicy));
    parser.process_line("Name: example");
    parser.process_line("File: a.txt");
    parser.process_line("words without a key");
    parser.process_line("File: b.txt");
    parser.process_line("Comment: <text>one");
    parser.process_line("two</text>");
    let fields = match parser.end_input() {
        Output::Output(fields) => fields,
        other => panic!("expected a record, found {:?}", other),
    };
    let mut record = Record::default();
    for pair in fields {
        record.push_field(pair);
    }
    assert!(matches!(record.value_for_required_key("Name"), Ok(value) if value == "example"));
    assert_eq!(record.values_for_key("File"), vec!["a.txt", "b.txt"]);
    assert!(matches!(record.value_for_key("Comment"), Ok(Some(value)) if value == "one\ntwo"));
    assert!(matches!(record.value_for_key("License"), Ok(None)));
    assert_eq!(record.count_fields_with_key("words without a key"), 0);
}

#[test]
fn record_output_from_pair_output() {
    assert_eq!(
        RecordOutput::from(Output::EmptyLine),
        RecordOutput::EmptyLine
    );
    assert_eq!(
        RecordOutput::from(Output::Pending),
        RecordOutput::ValuePending
    );
    assert_eq!(
        RecordOutput::from(Output::KeylessLine("words".to_string())),
        RecordOutput::KeylessLine("words".to_string())
    );
    assert_eq!(
        RecordOutput::from(Output::Output(field("a", "1"))),
        RecordOutput::RecordPending
    );
}

#[test]
fn record_output_clone_is_equal() {
    let outputs = [
        RecordOutput::EmptyLine,
        RecordOutput::ValuePending,
        RecordOutput::RecordPending,
        RecordOutput::KeylessLine("words".to_string()),
        RecordOutput::Record(vec![field("a", "1"), field("b", "2")]),
        RecordOutput::Record(vec![]),
    ];
    for output in outputs {
        assert_eq!(output.clone(), output);
    }
}

#[test]
fn record_outputs_differ_by_variant_and_content() {
    assert_eq!(RecordOutput::Record(vec![]), RecordOutput::Record(vec![]));
    assert_ne!(RecordOutput::Record(vec![]), RecordOutput::EmptyLine);
    assert_ne!(RecordOutput::ValuePending, RecordOutput::RecordPending);
    assert_ne!(
        RecordOutput::KeylessLine("a".to_string()),
        RecordOutput::KeylessLine("b".to_string())
    );
    assert_ne!(
        RecordOutput::Record(vec![field("a", "1")]),
        RecordOutput::Record(vec![field("a", "2")])
    );
    assert_ne!(
        RecordOutput::Record(vec![field("a", "1")]),
        RecordOutput::Record(vec![field("a", "1"), field("b", "2")])
    );
    assert_ne!(
        RecordOutput::Record(vec![field("a", "1"), field("b", "2")]),
        RecordOutput::Record(vec![field("b", "2"), field("a", "1")])
    );
}
