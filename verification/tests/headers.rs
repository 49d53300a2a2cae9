use sentry_performance::context::TransactionContext;
use sentry_performance::ids::{SpanId, TraceId};
use sentry_performance::trace::{
    names_trace, parse_headers, parse_sentry_trace, SentryTrace, TraceHeadersIter,
};

const TRACE_DIGITS: &str = "09e04486820349518ac7b5d2adbf6ba5";
const SPAN_DIGITS: &str = "9cf635fa5b870b3a";

fn trace_id() -> TraceId {
    TraceId {
        bytes: [
            0x09, 0xe0, 0x44, 0x86, 0x82, 0x03, 0x49, 0x51, 0x8a, 0xc7, 0xb5, 0xd2, 0xad, 0xbf,
            0x6b, 0xa5,
        ],
    }
}

fn span_id() -> SpanId {
    SpanId {
        bytes: [0x9c, 0xf6, 0x35, 0xfa, 0x5b, 0x87, 0x0b, 0x3a],
    }
}

#[test]
fn identifiers_are_read_in_either_case() {
    assert_eq!(TraceId::from_str(TRACE_DIGITS), Some(trace_id()));
    assert_eq!(
        TraceId::from_str("09E04486820349518AC7B5D2ADBF6BA5"),
        Some(trace_id())
    );
    assert_eq!(SpanId::from_str(SPAN_DIGITS), Some(span_id()));
    assert_eq!(SpanId::from_str("9CF635fa5b870B3A"), Some(span_id()));
}

#[test]
fn identifiers_of_another_shape_are_refused() {
    assert_eq!(TraceId::from_str(""), None);
    assert_eq!(TraceId::from_str("09e04486820349518ac7b5d2adbf6ba"), None);
    assert_eq!(TraceId::from_str("09e04486820349518ac7b5d2adbf6ba55"), None);
    assert_eq!(TraceId::from_str("09e04486820349518ac7b5d2adbf6ba5ff"), None);
    assert_eq!(TraceId::from_str("09e04486820349518ac7b5d2adbf6bag"), None);
    assert_eq!(
        TraceId::from_str("09e04486-8203-4951-8ac7-b5d2adbf6ba5"),
        None
    );
    assert_eq!(SpanId::from_str(""), None);
    assert_eq!(SpanId::from_str("9cf635fa5b870b3"), None);
    assert_eq!(SpanId::from_str("9cf635fa5b870b3a00"), None);
    assert_eq!(SpanId::from_str("9cf635fa5b870b3\u{e4}"), None);
    assert_eq!(SpanId::from_str(" cf635fa5b870b3a"), None);
}

#[test]
fn identifiers_are_written_in_lower_case() {
    assert_eq!(trace_id().to_string(), TRACE_DIGITS);
    assert_eq!(span_id().to_string(), SPAN_DIGITS);
    let upper = TraceId::from_str("09E04486820349518AC7B5D2ADBF6BA5").unwrap();
    assert_eq!(upper.to_string(), TRACE_DIGITS);
    assert_eq!(
        TraceId { bytes: [0; 16] }.to_string(),
        "00000000000000000000000000000000"
    );
    assert_eq!(SpanId { bytes: [0xff; 8] }.to_string(), "ffffffffffffffff");
}

#[test]
fn random_identifiers_read_back_and_differ() {
    let first = TraceId::default();
    let second = TraceId::default();
    assert_ne!(first, second);
    assert_eq!(TraceId::from_str(&first.to_string()), Some(first));
    let first = SpanId::default();
    let second = SpanId::default();
    assert_ne!(first, second);
    assert_eq!(SpanId::from_str(&first.to_string()), Some(first));
}

#[test]
fn traces_are_written_with_their_decision() {
    let trace = SentryTrace::new(trace_id(), span_id(), Some(true));
    assert_eq!(
        trace.to_string(),
        "09e04486820349518ac7b5d2adbf6ba5-9cf635fa5b870b3a-1"
    );
    let trace = SentryTrace::new(trace_id(), span_id(), Some(false));
    assert_eq!(
        trace.to_string(),
        "09e04486820349518ac7b5d2adbf6ba5-9cf635fa5b870b3a-0"
    );
    let trace = SentryTrace::new(trace_id(), span_id(), None);
    assert_eq!(
        trace.to_string(),
        "09e04486820349518ac7b5d2adbf6ba5-9cf635fa5b870b3a"
    );
}

#[test]
fn every_header_reads_back() {
    for sampled in [None, Some(false), Some(true)] {
        let trace = SentryTrace::new(trace_id(), span_id(), sampled);
        assert_eq!(parse_sentry_trace(&trace.to_string()), Some(trace));
    }
    let trace = SentryTrace::default();
    assert_eq!(trace.sampled, None);
    assert_eq!(parse_sentry_trace(&trace.to_string()), Some(trace));
}

#[test]
fn white_space_around_a_header_is_ignored() {
    let expected = Some(SentryTrace::new(trace_id(), span_id(), Some(true)));
    assert_eq!(
        parse_sentry_trace("  09e04486820349518ac7b5d2adbf6ba5-9cf635fa5b870b3a-1\t\r\n"),
        expected
    );
    assert_eq!(
        parse_sentry_trace(
            "\u{a0}\u{2003}09e04486820349518ac7b5d2adbf6ba5-9cf635fa5b870b3a-1\u{3000}"
        ),
        expected
    );
    // A zero width space is no white space.
    assert_eq!(
        parse_sentry_trace("\u{200b}09e04486820349518ac7b5d2adbf6ba5-9cf635fa5b870b3a-1"),
        None
    );
    // Within the header, white space counts.
    assert_eq!(
        parse_sentry_trace("09e04486820349518ac7b5d2adbf6ba5 -9cf635fa5b870b3a-1"),
        None
    );
}

#[test]
fn unknown_decisions_are_no_decision() {
    let undecided = Some(SentryTrace::new(trace_id(), span_id(), None));
    for header in [
        "09e04486820349518ac7b5d2adbf6ba5-9cf635fa5b870b3a",
        "09e04486820349518ac7b5d2adbf6ba5-9cf635fa5b870b3a-",
        "09e04486820349518ac7b5d2adbf6ba5-9cf635fa5b870b3a-2",
        "09e04486820349518ac7b5d2adbf6ba5-9cf635fa5b870b3a-01",
        "09e04486820349518ac7b5d2adbf6ba5-9cf635fa5b870b3a-true",
        "09e04486820349518ac7b5d2adbf6ba5-9cf635fa5b870b3a-1-1",
        "09e04486820349518ac7b5d2adbf6ba5-9cf635fa5b870b3a- 1",
    ] {
        assert_eq!(parse_sentry_trace(header), undecided);
    }
}

#[test]
fn headers_without_identifiers_are_refused() {
    for header in [
        "",
        "-",
        "--",
        "1",
        "09e04486820349518ac7b5d2adbf6ba5",
        "09e04486820349518ac7b5d2adbf6ba5-",
        "09e04486820349518ac7b5d2adbf6ba5--1",
        "-9cf635fa5b870b3a-1",
        "9cf635fa5b870b3a-09e04486820349518ac7b5d2adbf6ba5-1",
        "-09e04486820349518ac7b5d2adbf6ba5-9cf635fa5b870b3a-1",
        "09e04486820349518ac7b5d2adbf6ba5_9cf635fa5b870b3a_1",
    ] {
        assert_eq!(parse_sentry_trace(header), None);
    }
}

#[test]
fn first_trace_header_decides() {
    let header = "09e04486820349518ac7b5d2adbf6ba5-9cf635fa5b870b3a-1";
    let other = "00000000000000000000000000000001-0000000000000001-0";
    let expected = Some(SentryTrace::new(trace_id(), span_id(), Some(true)));
    assert_eq!(parse_headers(&[("sentry-trace", header)]), expected);
    assert_eq!(
        parse_headers(&[
            ("accept", other),
            ("SENTRY-TRACE", header),
            ("sentry-trace", other),
        ]),
        expected
    );
    // A first header that cannot be read is not made up for by a second one.
    assert_eq!(
        parse_headers(&[("sentry-trace", "garbage"), ("sentry-trace", header)]),
        None
    );
}

#[test]
fn other_headers_carry_no_trace() {
    let header = "09e04486820349518ac7b5d2adbf6ba5-9cf635fa5b870b3a-1";
    assert_eq!(parse_headers(&[]), None);
    assert_eq!(
        parse_headers(&[
            ("sentry-trace2", header),
            ("sentry_trace", header),
            (" sentry-trace", header),
            ("", header),
            ("\u{17f}entry-trace", header),
        ]),
        None
    );
}

#[test]
fn header_iterator_yields_one_header() {
    let mut headers = TraceHeadersIter::new("value".to_owned());
    assert_eq!(headers.next(), Some(("sentry-trace", "value".to_owned())));
    assert_eq!(headers.next(), None);
    assert_eq!(headers.next(), None);
}

#[test]
fn contexts_go_on_from_headers() {
    let headers = [
        ("accept", "*/*"),
        (
            "Sentry-Trace",
            "09e04486820349518ac7b5d2adbf6ba5-9cf635fa5b870b3a-0",
        ),
    ];
    let ctx = TransactionContext::continue_from_headers("name", "op", &headers);
    assert_eq!(ctx.name(), "name");
    assert_eq!(ctx.operation(), "op");
    assert_eq!(ctx.trace_id(), trace_id());
    assert_ne!(ctx.span_id(), span_id());
    assert_eq!(ctx.sampled(), Some(false));
    assert!(ctx.custom().is_none());
}

#[test]
fn contexts_without_headers_start_a_trace() {
    let ctx = TransactionContext::continue_from_headers("name", "op", &[("sentry-trace", "no")]);
    assert_eq!(ctx.name(), "name");
    assert_eq!(ctx.operation(), "op");
    assert_ne!(ctx.trace_id(), trace_id());
    assert_eq!(ctx.sampled(), None);
    let other = TransactionContext::continue_from_headers("name", "op", &[]);
    assert_ne!(ctx.trace_id(), other.trace_id());
    assert_ne!(ctx.span_id(), other.span_id());
}

#[test]
fn trace_headers_are_named_in_any_case() {
    assert!(names_trace("sentry-trace"));
    assert!(names_trace("SENTRY-trace"));
    assert!(!names_trace("sentry-trac"));
    assert!(!names_trace("sentry-trace "));
    assert!(!names_trace(""));
}
