use std::collections::BTreeMap;
use std::time::{Duration, SystemTime};

use sentry_performance::context::TransactionContext;
use sentry_performance::ids::{SpanId, TraceId};
use sentry_performance::record::{Client, Request};
use sentry_performance::span::{RequestValues, Span};
use sentry_performance::trace::parse_sentry_trace;
use sentry_performance::transaction::Transaction;
use sentry_types::protocol::v7::{ClientSdkInfo, SpanStatus};
use serde_json::Value;

fn at(seconds: u64) -> SystemTime {
    SystemTime::UNIX_EPOCH + Duration::from_secs(seconds)
}

fn running() -> Transaction {
    let client = Client {
        release: None,
        environment: None,
        server_name: None,
        sdk_info: ClientSdkInfo {
            name: "sdk".to_owned(),
            version: "1.2.3".to_owned(),
            integrations: vec![],
            packages: vec![],
        },
    };
    let ctx = TransactionContext::new_with_details(
        "name",
        "op",
        TraceId { bytes: [7; 16] },
        Some(SpanId { bytes: [8; 8] }),
        None,
    );
    Transaction::new(Some(client), ctx, true)
}

fn object(entries: &[(&str, &str)]) -> Value {
    let mut object = serde_json::Map::new();
    for (key, value) in entries {
        object.insert((*key).to_owned(), Value::from(*value));
    }
    Value::Object(object)
}

fn data(span: &mut Span) -> Vec<(String, Value)> {
    span.data()
        .deref()
        .iter()
        .into_iter()
        .map(|(key, value)| (key.clone(), value.clone()))
        .collect()
}

#[test]
fn children_form_a_tree() {
    let transaction = running();
    let mut span = transaction.start_child_with_details(
        "child",
        "description",
        SpanId { bytes: [1; 8] },
        at(1),
    );
    let mut grandchild =
        span.start_child_with_details("grandchild", "", SpanId { bytes: [2; 8] }, at(2));

    let data = span.data();
    assert_eq!(data.span.trace_id, TraceId { bytes: [7; 16] });
    assert_eq!(data.span.parent_span_id, Some(SpanId { bytes: [8; 8] }));
    assert_eq!(data.span.span_id, SpanId { bytes: [1; 8] });
    assert_eq!(data.span.op, Some("child".to_owned()));
    assert_eq!(data.span.description, Some("description".to_owned()));
    assert_eq!(data.span.start_timestamp, at(1));
    assert_eq!(data.span.timestamp, None);
    assert_eq!(data.span.status, None);
    assert_eq!(data.span.same_process_as_parent, None);

    let data = grandchild.data();
    assert_eq!(data.span.trace_id, TraceId { bytes: [7; 16] });
    assert_eq!(data.span.parent_span_id, Some(SpanId { bytes: [1; 8] }));
    assert_eq!(data.span.description, None);
}

#[test]
fn children_have_identifiers_of_their_own() {
    let before = SystemTime::now();
    let transaction = running();
    let mut first = transaction.start_child("child", "");
    let second = transaction.start_child("child", "");
    let third = first.start_child("child", "");
    assert_ne!(first.get_span_id(), second.get_span_id());
    assert_ne!(first.get_span_id(), third.get_span_id());
    assert!(before <= first.data().span.start_timestamp);
    assert!(first.is_sampled() && third.is_sampled());
}

#[test]
fn spans_carry_the_trace_on() {
    let transaction = running();
    let span =
        transaction.start_child_with_details("child", "", SpanId { bytes: [1; 8] }, at(1));
    let header = span.iter_headers().next().unwrap();
    assert_eq!(
        header,
        (
            "sentry-trace",
            "07070707070707070707070707070707-0101010101010101-1".to_owned()
        )
    );
    let trace = parse_sentry_trace(&header.1).unwrap();
    assert_eq!(trace.span_id, span.get_span_id());
}

#[test]
fn spans_finish_once() {
    let mut transaction = running();
    let mut span = transaction.start_child("child", "");
    span.finish_with_timestamp(&mut transaction, at(2));
    span.finish_with_timestamp(&mut transaction, at(3));
    span.finish(&mut transaction);
    assert_eq!(span.data().span.timestamp, Some(at(2)));
    let sent = transaction.finish_with_timestamp(at(4)).unwrap().seal();
    assert_eq!(sent.spans.len(), 1);
    assert_eq!(sent.spans[0].timestamp, Some(at(2)));
}

#[test]
fn finished_spans_take_the_current_time() {
    let before = SystemTime::now();
    let mut transaction = running();
    let mut span = transaction.start_child("child", "");
    span.finish(&mut transaction);
    let end = span.data().span.timestamp.unwrap();
    assert!(before <= end && end <= SystemTime::now());
}

#[test]
fn what_is_set_after_the_end_is_not_sent() {
    let mut transaction = running();
    let mut span = transaction.start_child("child", "");
    span.set_data("early", Value::from(1));
    span.finish_with_timestamp(&mut transaction, at(2));
    span.set_data("late", Value::from(2));
    let sent = transaction.finish_with_timestamp(at(4)).unwrap().seal();
    assert!(sent.spans[0].data.contains_key("early"));
    assert!(!sent.spans[0].data.contains_key("late"));
}

#[test]
fn spans_keep_data_tags_and_status() {
    let mut transaction = running();
    let mut span = transaction.start_child("child", "");
    span.set_data("key", Value::from(1));
    span.set_data("other", Value::from(2));
    span.set_data("key", Value::from(3));
    span.set_tag("tag", "first".to_owned());
    span.set_tag("tag", "second".to_owned());
    assert_eq!(span.get_status(), None);
    span.set_status(SpanStatus::NotFound);
    assert_eq!(span.get_status(), Some(SpanStatus::NotFound));
    assert_eq!(
        data(&mut span),
        vec![
            ("key".to_owned(), Value::from(3)),
            ("other".to_owned(), Value::from(2)),
        ]
    );
    span.finish_with_timestamp(&mut transaction, at(2));
    let sent = transaction.finish_with_timestamp(at(4)).unwrap().seal();
    assert_eq!(sent.spans[0].tags.get("tag"), Some(&"second".to_owned()));
    assert_eq!(sent.spans[0].status, Some(SpanStatus::NotFound));
}

#[test]
fn span_data_accessor_reads_and_changes() {
    let mut span = running().start_child("child", "");
    let mut accessor = span.data();
    accessor.set_data("key".to_owned(), Value::from(1));
    accessor.set_tag("tag".to_owned(), "value".to_owned());
    accessor
        .deref_mut()
        .insert("other".to_owned(), Value::from(2));
    assert_eq!(accessor.deref().get("key"), Some(&Value::from(1)));
    assert_eq!(accessor.span.tags.get("tag"), Some(&"value".to_owned()));
    assert_eq!(
        data(&mut span),
        vec![
            ("key".to_owned(), Value::from(1)),
            ("other".to_owned(), Value::from(2)),
        ]
    );
}

#[test]
fn spans_tell_the_context_of_their_transaction() {
    let mut transaction = running();
    let span = transaction.start_child("child", "");
    transaction.set_status(SpanStatus::Ok);
    assert_eq!(
        span.get_trace_context(&transaction),
        transaction.get_trace_context()
    );
    assert_eq!(
        span.get_trace_context(&transaction).span_id,
        SpanId { bytes: [8; 8] }
    );
}

fn full_request() -> Request {
    let mut headers = BTreeMap::new();
    headers.insert("Accept".to_owned(), "*/*".to_owned());
    headers.insert("Host".to_owned(), "localhost".to_owned());
    let mut env = BTreeMap::new();
    env.insert("LANG".to_owned(), "C".to_owned());
    Request {
        url: Some("http://localhost/path".to_owned()),
        method: Some("GET".to_owned()),
        data: Some("{\"a\": [1, null]}".to_owned()),
        query_string: Some("q=1".to_owned()),
        cookies: Some("c=2".to_owned()),
        headers,
        env,
    }
}

#[test]
fn requests_add_their_values() {
    let mut span = running().start_child("child", "");
    span.set_data("url", Value::from("old"));
    span.set_data("other", Value::from(1));
    span.set_request(full_request());
    let mut document = serde_json::Map::new();
    document.insert(
        "a".to_owned(),
        Value::Array(vec![Value::from(1), Value::Null]),
    );
    assert_eq!(
        data(&mut span),
        vec![
            ("cookies".to_owned(), Value::from("c=2")),
            ("data".to_owned(), Value::Object(document)),
            ("env".to_owned(), object(&[("LANG", "C")])),
            (
                "headers".to_owned(),
                object(&[("Accept", "*/*"), ("Host", "localhost")])
            ),
            ("method".to_owned(), Value::from("GET")),
            ("other".to_owned(), Value::from(1)),
            ("query_string".to_owned(), Value::from("q=1")),
            ("url".to_owned(), Value::from("http://localhost/path")),
        ]
    );
}

#[test]
fn empty_requests_add_nothing() {
    let mut span = running().start_child("child", "");
    span.set_data("url", Value::from("old"));
    span.set_request(Request::default());
    assert_eq!(
        data(&mut span),
        vec![("url".to_owned(), Value::from("old"))]
    );
}

#[test]
fn request_data_that_is_no_document_is_text() {
    for (body, value) in [
        ("42", Value::from(42)),
        ("\"quoted\"", Value::from("quoted")),
        (" true ", Value::from(true)),
        ("", Value::from("")),
        ("name=value", Value::from("name=value")),
        ("{\"a\": 1", Value::from("{\"a\": 1")),
        ("1 2", Value::from("1 2")),
    ] {
        let values = RequestValues::of(Request {
            data: Some(body.to_owned()),
            ..Request::default()
        });
        assert_eq!(values.data, Some(value));
        assert_eq!(values.method, None);
        assert_eq!(values.headers, None);
    }
}

#[test]
fn request_values_read_back() {
    let mut span = running().start_child("child", "");
    span.set_request_values(RequestValues {
        method: Some(Value::from(1)),
        url: None,
        data: Some(Value::from(2)),
        query_string: None,
        cookies: Some(Value::from(3)),
        headers: None,
        env: Some(Value::from(4)),
    });
    assert_eq!(
        data(&mut span),
        vec![
            ("cookies".to_owned(), Value::from(3)),
            ("data".to_owned(), Value::from(2)),
            ("env".to_owned(), Value::from(4)),
            ("method".to_owned(), Value::from(1)),
        ]
    );
}

#[test]
fn ended_spans_are_handed_out_once() {
    let mut transaction = running();
    let mut span = transaction.start_child("child", "");
    span.set_data("key", Value::from(1));
    let ended = span.end(at(2)).unwrap();
    assert_eq!(&ended, span.as_record());
    assert_eq!(ended.timestamp, Some(at(2)));
    assert_eq!(ended.data.get("key"), Some(&Value::from(1)));
    assert_eq!(span.end(at(3)), None);
    assert_eq!(span.as_record().timestamp, Some(at(2)));
    transaction.add_span(ended);
    let sent = transaction.finish_with_timestamp(at(4)).unwrap().seal();
    assert_eq!(sent.spans.len(), 1);
}
