use cairo_relocatable::air_public_input::{
    mem_value_text, PublicInput, PublicInputError, PublicMemoryEntry, TraceEntry,
};
use cairo_relocatable::bigint::BigInt;

fn int_value(n: i128) -> BigInt {
    BigInt::from_i128(n)
}

fn trace() -> Vec<TraceEntry> {
    vec![
        TraceEntry { pc: 1, ap: 10, fp: 10 },
        TraceEntry { pc: 5, ap: 12, fp: 10 },
        TraceEntry { pc: 9, ap: 17, fp: 10 },
    ]
}

#[test]
fn public_input_collects_memory_and_segments() {
    let memory = vec![Some(int_value(7)), None, Some(int_value(255))];
    let segments = vec![(String::from("output"), (20usize, 22usize))];
    let input = PublicInput::<()>::new(&memory, "plain", None, &[(0, 0), (1, 0), (2, 1)], segments, &trace(), (3, 9))
        .unwrap();
    assert_eq!(input.layout, "plain");
    assert_eq!(input.rc_min, 3);
    assert_eq!(input.rc_max, 9);
    assert_eq!(input.n_steps, 3);
    assert_eq!(
        input.public_memory,
        vec![
            PublicMemoryEntry { address: 0, page: 0, value: Some(int_value(7)) },
            PublicMemoryEntry { address: 1, page: 0, value: None },
            PublicMemoryEntry { address: 2, page: 1, value: Some(int_value(255)) },
        ]
    );
    let find = |name: &str| {
        input.memory_segments.iter().find(|(n, _)| n == name).map(|(_, v)| *v)
    };
    assert_eq!(find("output"), Some((20, 22)));
    assert_eq!(find("program"), Some((1, 9)));
    assert_eq!(find("execution"), Some((10, 17)));
}

#[test]
fn public_input_reports_missing_memory_first() {
    let memory = vec![Some(int_value(1))];
    let r = PublicInput::<()>::new(&memory, "plain", None, &[(0, 0), (4, 0), (6, 0)], Vec::new(), &[], (0, 0));
    assert_eq!(r.err(), Some(PublicInputError::MemoryNotFound(4)));
}

#[test]
fn public_input_needs_a_trace() {
    let memory = vec![Some(int_value(1))];
    let r = PublicInput::<()>::new(&memory, "plain", None, &[(0, 0)], Vec::new(), &[], (0, 0));
    assert_eq!(r.err(), Some(PublicInputError::EmptyTrace));
}

#[test]
fn memory_values_are_written_in_hexadecimal() {
    assert_eq!(mem_value_text(&Some(int_value(255))), Some(String::from("0xff")));
    assert_eq!(mem_value_text(&Some(int_value(0))), Some(String::from("0x0")));
    assert_eq!(mem_value_text(&None), None);
}

#[test]
fn public_input_error_messages() {
    assert_eq!(PublicInputError::EmptyTrace.to_string(), "The trace slice provided is empty");
    assert_eq!(
        PublicInputError::MemoryNotFound(12).to_string(),
        "The provided memory doesn't contain public address 12"
    );
    assert_eq!(PublicInputError::NoRangeCheckLimits.to_string(), "Range check values are missing");
}
