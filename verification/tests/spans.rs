use trace_debug::spans::{span_line, SpanIds};

#[test]
fn line_shows_both_identifiers_in_padded_hex() {
    let ids = SpanIds { trace_id: 0x58406520a006649127e371903a2de979, span_id: 0x00f067aa0ba902b7 };
    assert_eq!(
        span_line(ids),
        "Created span with traceid 58406520a006649127e371903a2de979 and spanid 00f067aa0ba902b7"
    );
}

#[test]
fn line_pads_small_identifiers_with_zeros() {
    let ids = SpanIds { trace_id: 1, span_id: 255 };
    assert_eq!(
        span_line(ids),
        "Created span with traceid 00000000000000000000000000000001 and spanid 00000000000000ff"
    );
}

#[test]
fn line_of_no_span_is_all_zeros() {
    let ids = SpanIds { trace_id: 0, span_id: 0 };
    assert_eq!(
        span_line(ids),
        "Created span with traceid 00000000000000000000000000000000 and spanid 0000000000000000"
    );
}

#[test]
fn line_of_the_largest_identifiers() {
    let ids = SpanIds { trace_id: u128::MAX, span_id: u64::MAX };
    assert_eq!(
        span_line(ids),
        "Created span with traceid ffffffffffffffffffffffffffffffff and spanid ffffffffffffffff"
    );
}

#[test]
fn line_uses_lower_case_digits() {
    let ids = SpanIds { trace_id: 0xABCDEF, span_id: 0xABCDEF };
    assert_eq!(
        span_line(ids),
        "Created span with traceid 00000000000000000000000000abcdef and spanid 0000000000abcdef"
    );
}
