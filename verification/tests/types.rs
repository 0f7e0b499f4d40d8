// SPDX-License-Identifier: Apache-2.0 OR MIT

use key_value_parser::{KeyValuePair, LineNumber, Output, ParserOutput};

fn pair(key: &str, value: &str) -> KeyValuePair {
    KeyValuePair {
        key: key.to_string(),
        value: value.to_string(),
    }
}

fn all_outputs() -> Vec<Output<u32>> {
    vec![
        Output::EmptyLine,
        Output::Pending,
        Output::KeylessLine("words".to_string()),
        Output::Output(7),
    ]
}

#[test]
fn output_is_some_only_for_output() {
    assert!(!Output::<u32>::EmptyLine.is_some());
    assert!(!Output::<u32>::Pending.is_some());
    assert!(!Output::<u32>::KeylessLine("words".to_string()).is_some());
    assert!(Output::Output(7u32).is_some());
}

#[test]
fn output_is_pending_only_for_pending() {
    assert!(!Output::<u32>::EmptyLine.is_pending());
    assert!(Output::<u32>::Pending.is_pending());
    assert!(!Output::<u32>::KeylessLine("words".to_string()).is_pending());
    assert!(!Output::Output(7u32).is_pending());
}

#[test]
fn output_map_changes_the_payload_only() {
    assert_eq!(
        Output::<u32>::EmptyLine.map(|n| n + 1),
        Output::<u32>::EmptyLine
    );
    assert_eq!(Output::<u32>::Pending.map(|n| n + 1), Output::<u32>::Pending);
    assert_eq!(
        Output::<u32>::KeylessLine("words".to_string()).map(|n| n + 1),
        Output::<u32>::KeylessLine("words".to_string())
    );
    assert_eq!(Output::Output(7u32).map(|n| n + 1), Output::Output(8u32));
    assert_eq!(
        Output::Output(pair("k", "v")).map(|p| p.value.len()),
        Output::Output(1usize)
    );
}

#[test]
fn output_map_calls_the_function_on_a_payload_only() {
    let mut calls: usize = 0;
    for output in all_outputs() {
        let _ = output.map(|n| {
            calls += 1;
            n
        });
    }
    assert_eq!(calls, 1);
}

#[test]
fn output_default_is_an_empty_line() {
    assert_eq!(Output::<u32>::default(), Output::EmptyLine);
    assert_eq!(Output::<KeyValuePair>::default(), Output::EmptyLine);
}

#[test]
fn output_ok_gives_the_payload() {
    assert_eq!(Output::<u32>::EmptyLine.ok(), None);
    assert_eq!(Output::<u32>::Pending.ok(), None);
    assert_eq!(Output::<u32>::KeylessLine("words".to_string()).ok(), None);
    assert_eq!(Output::Output(7u32).ok(), Some(7));
}

#[test]
fn output_ok_or_err_on_keyless() {
    assert_eq!(Output::<u32>::EmptyLine.ok_or_err_on_keyless("e"), Ok(None));
    assert_eq!(Output::<u32>::Pending.ok_or_err_on_keyless("e"), Ok(None));
    assert_eq!(
        Output::<u32>::KeylessLine("words".to_string()).ok_or_err_on_keyless("e"),
        Err("e")
    );
    assert_eq!(Output::Output(7u32).ok_or_err_on_keyless("e"), Ok(Some(7)));
}

#[test]
fn output_ok_or_else_err_on_keyless() {
    assert_eq!(
        Output::<u32>::EmptyLine.ok_or_else_err_on_keyless(|| "e"),
        Ok(None)
    );
    assert_eq!(
        Output::<u32>::Pending.ok_or_else_err_on_keyless(|| "e"),
        Ok(None)
    );
    assert_eq!(
        Output::<u32>::KeylessLine("words".to_string()).ok_or_else_err_on_keyless(|| "e"),
        Err("e")
    );
    assert_eq!(
        Output::Output(7u32).ok_or_else_err_on_keyless(|| "e"),
        Ok(Some(7))
    );
}

#[test]
fn output_error_closure_runs_on_keyless_only() {
    let mut calls: usize = 0;
    for output in all_outputs() {
        let _ = output.ok_or_else_err_on_keyless(|| calls += 1);
    }
    assert_eq!(calls, 1);
}

#[test]
fn output_clone_is_equal() {
    for output in all_outputs() {
        assert_eq!(output.clone(), output);
    }
    let output = Output::Output(vec![pair("a", "1"), pair("b", "2")]);
    assert_eq!(output.clone(), output);
}

#[test]
fn outputs_differ_by_variant_and_content() {
    assert_ne!(Output::<u32>::EmptyLine, Output::Pending);
    assert_ne!(Output::Output(1u32), Output::Output(2u32));
    assert_ne!(
        Output::<u32>::KeylessLine("a".to_string()),
        Output::KeylessLine("b".to_string())
    );
}

#[test]
fn line_number_keeps_number_and_value() {
    let numbered = LineNumber::new(12, "value");
    assert_eq!(numbered.line_number(), 12);
    assert_eq!(*numbered.value(), "value");
    assert_eq!(numbered.into_tuple(), (12, "value"));
    assert_eq!(LineNumber::new(3, pair("k", "v")).into_inner(), pair("k", "v"));
    assert_eq!(LineNumber::new(0, 5u8).into_tuple(), (0, 5u8));
    assert_eq!(
        LineNumber::new(usize::MAX, 5u8).line_number(),
        usize::MAX
    );
}

#[test]
fn line_number_map_keeps_the_number() {
    let numbered = LineNumber::new(4, 10u32).map(|n| n * 2);
    assert_eq!(numbered, LineNumber::new(4, 20u32));
    let numbered = LineNumber::new(9, pair("k", "value")).map(|p| p.value);
    assert_eq!(numbered.into_tuple(), (9, "value".to_string()));
}

#[test]
fn line_number_copy_and_clone() {
    let numbered = LineNumber::new(4, 10u32);
    let copy = numbered;
    assert_eq!(copy, numbered);
    let numbered = LineNumber::new(4, "text".to_string());
    assert_eq!(numbered.clone(), numbered);
    assert_ne!(LineNumber::new(1, 0u8), LineNumber::new(2, 0u8));
    assert_ne!(LineNumber::new(1, 0u8), LineNumber::new(1, 1u8));
}

#[test]
fn line_number_passes_parser_output_on() {
    assert_eq!(LineNumber::new(1, Output::Output(7u32)).ok(), Some(7));
    assert_eq!(LineNumber::new(1, Output::<u32>::Pending).ok(), None);
    assert_eq!(
        LineNumber::new(1, Output::Output(7u32)).ok_or_err_on_keyless("e"),
        Ok(Some(7))
    );
    assert_eq!(
        LineNumber::new(1, Output::<u32>::EmptyLine).ok_or_err_on_keyless("e"),
        Ok(None)
    );
    assert_eq!(
        LineNumber::new(1, Output::<u32>::KeylessLine("words".to_string()))
            .ok_or_err_on_keyless("e"),
        Err("e")
    );
    assert_eq!(
        LineNumber::new(1, Output::<u32>::KeylessLine("words".to_string()))
            .ok_or_else_err_on_keyless(|| "e"),
        Err("e")
    );
    assert_eq!(
        LineNumber::new(1, Output::Output(7u32)).ok_or_else_err_on_keyless(|| "e"),
        Ok(Some(7))
    );
}
