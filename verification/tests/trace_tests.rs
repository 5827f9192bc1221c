use prover_support::trace::{read_trace_record, ShapeError, TraceRecord};

#[test]
fn bare_record_is_parsed() {
    let bytes = br#"{"chainId":5,"blockNumber":7}"#;
    let rec = read_trace_record(bytes).unwrap();
    assert_eq!(
        rec,
        TraceRecord {
            chain_id: 5,
            block_number: 7
        }
    );
}

#[test]
fn enveloped_record_yields_the_inner_record() {
    let bytes = br#"{"result":{"chainId":5,"blockNumber":7}}"#;
    let rec = read_trace_record(bytes).unwrap();
    assert_eq!(
        rec,
        TraceRecord {
            chain_id: 5,
            block_number: 7
        }
    );
}

#[test]
fn unknown_fields_are_tolerated() {
    let bytes = br#"{"chainId":1,"blockNumber":2,"gasUsed":9}"#;
    let rec = read_trace_record(bytes).unwrap();
    assert_eq!(rec.chain_id, 1);
    assert_eq!(rec.block_number, 2);
}

#[test]
fn garbage_reports_both_failures() {
    let err = read_trace_record(b"not json at all").unwrap_err();
    match err.primary {
        ShapeError::Malformed(msg) => assert!(!msg.is_empty()),
        other => panic!("expected a parse failure on the bare shape, got {:?}", other),
    }
    match err.fallback {
        ShapeError::Malformed(msg) => assert!(!msg.is_empty()),
        other => panic!("expected a parse failure on the envelope shape, got {:?}", other),
    }
}

#[test]
fn object_missing_a_record_field_fails_both_shapes() {
    // bare attempt: parses as an object but the record fields are absent;
    // envelope attempt: the field values are not objects
    let err = read_trace_record(br#"{"chainId":5}"#).unwrap_err();
    assert!(matches!(err.primary, ShapeError::MissingField));
    assert!(matches!(err.fallback, ShapeError::Malformed(_)));
}

#[test]
fn envelope_missing_an_inner_field_fails_both_shapes() {
    // bare attempt: the value under "result" is an object, not an integer;
    // envelope attempt: parses, but the inner record is incomplete
    let err = read_trace_record(br#"{"result":{"chainId":5}}"#).unwrap_err();
    assert!(matches!(err.primary, ShapeError::Malformed(_)));
    assert!(matches!(err.fallback, ShapeError::MissingField));
}

#[test]
fn envelope_under_another_key_is_not_accepted() {
    let err = read_trace_record(br#"{"output":{"chainId":5,"blockNumber":7}}"#).unwrap_err();
    assert!(matches!(err.fallback, ShapeError::MissingField));
}

#[test]
fn duplicate_keys_keep_the_last_value() {
    let bytes = br#"{"chainId":1,"chainId":3,"blockNumber":2}"#;
    let rec = read_trace_record(bytes).unwrap();
    assert_eq!(rec.chain_id, 3);
}
