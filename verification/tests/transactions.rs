use std::time::{Duration, SystemTime};

use sentry_performance::context::TransactionContext;
use sentry_performance::ids::{SpanId, TraceId};
use sentry_performance::record::{Client, EventContext, Request};
use sentry_performance::span::Span;
use sentry_performance::trace::parse_sentry_trace;
use sentry_performance::transaction::{Transaction, MAX_SPANS};
use sentry_types::protocol::v7::{ClientSdkInfo, Context, OsContext, SpanStatus, User};
use serde_json::Value;

fn at(seconds: u64) -> SystemTime {
    SystemTime::UNIX_EPOCH + Duration::from_secs(seconds)
}

fn client() -> Client {
    Client {
        release: Some("release".to_owned()),
        environment: Some("environment".to_owned()),
        server_name: None,
        sdk_info: ClientSdkInfo {
            name: "sdk".to_owned(),
            version: "1.2.3".to_owned(),
            integrations: vec![],
            packages: vec![],
        },
    }
}

fn context() -> TransactionContext {
    TransactionContext::new_with_details(
        "name",
        "op",
        TraceId { bytes: [7; 16] },
        Some(SpanId { bytes: [8; 8] }),
        Some(SpanId { bytes: [9; 8] }),
    )
}

fn sampled() -> Transaction {
    Transaction::new(Some(client()), context(), true)
}

fn unsampled() -> Transaction {
    Transaction::new(Some(client()), context(), false)
}

fn without_client() -> Transaction {
    Transaction::new(None, context(), true)
}

fn child(transaction: &Transaction, id: u8) -> Span {
    transaction.start_child_with_details("child", "", SpanId { bytes: [id; 8] }, at(1))
}

fn entries(transaction: &mut Transaction) -> Vec<(String, Value)> {
    transaction
        .data()
        .iter()
        .into_iter()
        .map(|(key, value)| (key.clone(), value.clone()))
        .collect()
}

#[test]
fn started_transactions_take_over_the_context() {
    let transaction = sampled();
    let context = transaction.get_trace_context();
    assert_eq!(context.trace_id, TraceId { bytes: [7; 16] });
    assert_eq!(context.span_id, SpanId { bytes: [8; 8] });
    assert_eq!(context.parent_span_id, Some(SpanId { bytes: [9; 8] }));
    assert_eq!(context.op, Some("op".to_owned()));
    assert_eq!(context.description, None);
    assert_eq!(context.status, None);
    assert!(context.data.iter().is_empty());
    assert_eq!(transaction.get_status(), None);
}

#[test]
fn client_decides_on_sampling() {
    let mut ctx = context();
    ctx.set_sampled(true);
    assert!(!Transaction::new(Some(client()), ctx.clone(), false).is_sampled());
    assert!(Transaction::new(None, ctx.clone(), false).is_sampled());
    ctx.set_sampled(false);
    assert!(Transaction::new(Some(client()), ctx.clone(), true).is_sampled());
    assert!(!Transaction::new(None, ctx.clone(), true).is_sampled());
    ctx.set_sampled(None);
    assert!(!Transaction::new(None, ctx, true).is_sampled());
}

#[test]
fn noop_transactions_take_over_the_context() {
    let mut ctx = context();
    ctx.set_sampled(true);
    let mut transaction = Transaction::new_noop(ctx);
    let trace = transaction.get_trace_context();
    assert_eq!(trace.trace_id, TraceId { bytes: [7; 16] });
    assert_eq!(trace.parent_span_id, Some(SpanId { bytes: [9; 8] }));
    assert_eq!(trace.span_id, SpanId { bytes: [8; 8] });
    assert_eq!(trace.op, Some("op".to_owned()));
    assert!(transaction.is_sampled());
    assert_eq!(
        transaction.iter_headers().next().unwrap().1,
        "07070707070707070707070707070707-0808080808080808-1"
    );
    assert!(transaction.finish().is_none());
    assert!(!Transaction::new_noop(context()).is_sampled());
}

#[test]
fn noop_transactions_have_the_span_id_that_was_built() {
    let ctx = TransactionContext::builder("name", "op")
        .with_span_id(SpanId { bytes: [3; 8] })
        .finish();
    let trace_id = ctx.trace_id();
    let trace = Transaction::new_noop(ctx).get_trace_context();
    assert_eq!(trace.span_id, SpanId { bytes: [3; 8] });
    assert_eq!(trace.trace_id, trace_id);
    assert_eq!(trace.parent_span_id, None);
}

#[test]
fn finished_transactions_are_handed_out_whole() {
    let mut transaction = sampled();
    transaction.set_data("data", Value::from(1));
    transaction.set_extra("extra", Value::from(2));
    transaction.set_tag("tag", "value".to_owned());
    transaction.set_status(SpanStatus::Aborted);
    let request = Request {
        url: Some("http://localhost/".to_owned()),
        ..Request::default()
    };
    transaction.set_request(request);
    let mut span = child(&transaction, 1);
    span.finish_with_timestamp(&mut transaction, at(2));
    let context = transaction.get_trace_context();
    assert_eq!(context.data.get("data"), Some(&Value::from(1)));

    let finished = transaction.finish_with_timestamp(at(3)).unwrap();
    assert_eq!(finished.client, client());
    let sent = finished.seal();
    assert_eq!(sent.name, Some("name".to_owned()));
    assert_eq!(sent.timestamp, Some(at(3)));
    assert_eq!(sent.extra.get("extra"), Some(&Value::from(2)));
    assert_eq!(sent.tags.get("tag"), Some(&"value".to_owned()));
    assert_eq!(
        sent.request.unwrap().url,
        Some("http://localhost/".to_owned())
    );
    assert_eq!(sent.spans.len(), 1);
    assert_eq!(sent.spans[0].timestamp, Some(at(2)));
    assert_eq!(
        sent.contexts.get("trace"),
        Some(&EventContext::Trace(context))
    );
    assert_eq!(sent.user, None);
    assert_eq!(sent.release, Some("release".to_owned()));
    assert_eq!(sent.environment, Some("environment".to_owned()));
    assert_eq!(sent.server_name, None);
    assert_eq!(sent.sdk, Some(client().sdk_info));
}

#[test]
fn sealing_overrides_what_the_scope_set() {
    let mut transaction = sampled();
    let mut finished = transaction.finish_with_timestamp(at(3)).unwrap();
    let os = Context::from(OsContext::default());
    finished.transaction.release = Some("other".to_owned());
    finished.transaction.server_name = Some("server".to_owned());
    finished.transaction.user = Some(User::default());
    finished
        .transaction
        .contexts
        .insert("os".to_owned(), EventContext::Other(os.clone()));
    let sent = finished.seal();
    assert_eq!(sent.release, Some("release".to_owned()));
    assert_eq!(sent.server_name, None);
    assert_eq!(sent.user, Some(User::default()));
    assert_eq!(sent.contexts.get("os"), Some(&EventContext::Other(os)));
    assert!(sent.contexts.contains_key("trace"));
}

#[test]
fn transactions_are_sent_once() {
    let mut transaction = sampled();
    assert!(transaction.finish_with_timestamp(at(3)).is_some());
    assert!(transaction.finish_with_timestamp(at(4)).is_none());
    assert!(transaction.finish().is_none());
    assert!(transaction.is_sampled());
}

#[test]
fn finish_takes_the_current_time() {
    let before = SystemTime::now();
    let mut transaction = sampled();
    let finished = transaction.finish().unwrap();
    let start = finished.transaction.start_timestamp;
    let end = finished.transaction.timestamp.unwrap();
    let after = SystemTime::now();
    assert!(before <= start && start <= end && end <= after);
}

#[test]
fn unsampled_transactions_are_not_sent() {
    let mut transaction = unsampled();
    transaction.set_tag("tag", "value".to_owned());
    assert!(transaction.finish_with_timestamp(at(3)).is_none());
    let mut transaction = without_client();
    assert!(transaction.finish_with_timestamp(at(3)).is_none());
}

#[test]
fn last_data_wins() {
    let mut transaction = sampled();
    transaction.set_data("key", Value::from(1));
    transaction.set_data("other", Value::from(2));
    transaction.set_data("key", Value::from(3));
    assert_eq!(
        entries(&mut transaction),
        vec![
            ("key".to_owned(), Value::from(3)),
            ("other".to_owned(), Value::from(2)),
        ]
    );
}

#[test]
fn data_accessor_sets_data_and_tags() {
    let mut transaction = sampled();
    let mut data = transaction.data();
    data.set_data("b".to_owned(), Value::from(1));
    data.set_data("a".to_owned(), Value::from(2));
    data.set_tag("tag".to_owned(), "value".to_owned());
    let keys: Vec<&String> = data.iter().into_iter().map(|(key, _)| key).collect();
    assert_eq!(keys, ["a", "b"]);
    let sent = transaction.finish_with_timestamp(at(3)).unwrap().seal();
    assert_eq!(sent.tags.get("tag"), Some(&"value".to_owned()));
}

#[test]
fn nothing_is_recorded_in_vain() {
    let mut transaction = without_client();
    transaction.set_data("key", Value::from(1));
    transaction.set_extra("key", Value::from(1));
    transaction.set_tag("key", "value".to_owned());
    transaction.set_request(Request::default());
    transaction.data().set_data("key".to_owned(), Value::from(1));
    transaction.data().set_tag("key".to_owned(), "value".to_owned());
    assert!(transaction.get_trace_context().data.iter().is_empty());
    assert!(entries(&mut transaction).is_empty());
    transaction.set_status(SpanStatus::Ok);
    assert_eq!(transaction.get_status(), Some(SpanStatus::Ok));
}

#[test]
fn unsampled_transactions_show_no_data() {
    let mut transaction = unsampled();
    transaction.set_data("key", Value::from(1));
    assert!(entries(&mut transaction).is_empty());
    let mut transaction = sampled();
    transaction.set_data("key", Value::from(1));
    assert!(transaction.finish().is_some());
    assert!(entries(&mut transaction).is_empty());
}

#[test]
fn headers_carry_the_trace_on() {
    let transaction = sampled();
    let mut headers = transaction.iter_headers();
    assert_eq!(
        headers.next(),
        Some((
            "sentry-trace",
            "07070707070707070707070707070707-0808080808080808-1".to_owned()
        ))
    );
    assert_eq!(headers.next(), None);
    let value = unsampled().iter_headers().next().unwrap().1;
    let trace = parse_sentry_trace(&value).unwrap();
    assert_eq!(trace.trace_id, TraceId { bytes: [7; 16] });
    assert_eq!(trace.span_id, SpanId { bytes: [8; 8] });
    assert_eq!(trace.sampled, Some(false));
}

#[test]
fn spans_are_sent_in_the_order_in_which_they_finish() {
    let mut transaction = sampled();
    let mut first = child(&transaction, 1);
    let mut second = child(&transaction, 2);
    second.finish_with_timestamp(&mut transaction, at(2));
    first.finish_with_timestamp(&mut transaction, at(3));
    let sent = transaction.finish_with_timestamp(at(4)).unwrap().seal();
    assert_eq!(sent.spans[0].span_id, SpanId { bytes: [2; 8] });
    assert_eq!(sent.spans[1].span_id, SpanId { bytes: [1; 8] });
    assert_eq!(sent.spans.len(), 2);
}

#[test]
fn unfinished_spans_are_not_sent() {
    let mut transaction = sampled();
    let _span = child(&transaction, 1);
    let sent = transaction.finish_with_timestamp(at(4)).unwrap().seal();
    assert!(sent.spans.is_empty());
}

#[test]
fn late_spans_are_not_sent() {
    let mut transaction = sampled();
    let mut span = child(&transaction, 1);
    assert!(transaction.finish_with_timestamp(at(4)).is_some());
    span.finish_with_timestamp(&mut transaction, at(5));
    assert_eq!(span.data().span.timestamp, Some(at(5)));
    assert!(transaction.finish_with_timestamp(at(6)).is_none());
}

#[test]
fn number_of_spans_is_limited() {
    let mut transaction = sampled();
    for _ in 0..MAX_SPANS + 10 {
        let mut span = transaction.start_child("child", "");
        span.finish_with_timestamp(&mut transaction, at(2));
    }
    let sent = transaction.finish_with_timestamp(at(4)).unwrap().seal();
    assert_eq!(sent.spans.len(), 1_001);
}

#[test]
fn first_spans_are_kept() {
    let mut transaction = sampled();
    for i in 0..1_005u64 {
        let mut span = child(&transaction, 1);
        span.finish_with_timestamp(&mut transaction, at(i));
        transaction.set_status(SpanStatus::Ok);
        transaction.set_tag("last", i.to_string());
    }
    let sent = transaction.finish_with_timestamp(at(2_000)).unwrap().seal();
    let ends: Vec<Option<SystemTime>> = sent.spans.iter().map(|span| span.timestamp).collect();
    let expected: Vec<Option<SystemTime>> = (0..1_001).map(|i| Some(at(i))).collect();
    assert_eq!(ends, expected);
    assert_eq!(sent.tags.get("last"), Some(&"1004".to_owned()));
}

#[test]
fn any_steps_send_once() {
    for (mut transaction, expected) in [(sampled(), 1), (unsampled(), 0), (without_client(), 0)] {
        let mut sent = 0;
        for i in 0..5 {
            transaction.set_data("key", Value::from(i));
            let mut span = child(&transaction, 1);
            span.finish_with_timestamp(&mut transaction, at(i));
            transaction.set_status(SpanStatus::Ok);
            if i % 2 == 1 && transaction.finish_with_timestamp(at(i)).is_some() {
                sent += 1;
            }
        }
        assert_eq!(sent, expected);
    }
}
