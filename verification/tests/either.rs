use std::time::{Duration, SystemTime};

use sentry_performance::context::TransactionContext;
use sentry_performance::hub::{
    start_transaction, start_transaction_with_timestamp, Hub,
};
use sentry_performance::ids::{SpanId, TraceId};
use sentry_performance::record::{Client, EventContext, Request, TraceContext};
use sentry_performance::string_map::StringMap;
use sentry_performance::transaction::Transaction;
use sentry_performance::transaction_or_span::TransactionOrSpan;
use sentry_types::protocol::v7::{ClientSdkInfo, Context, OsContext, SpanStatus};
use serde_json::Value;

fn at(seconds: u64) -> SystemTime {
    SystemTime::UNIX_EPOCH + Duration::from_secs(seconds)
}

fn hub(release: &str) -> Hub {
    Hub {
        client: Some(Client {
            release: Some(release.to_owned()),
            environment: None,
            server_name: Some("server".to_owned()),
            sdk_info: ClientSdkInfo {
                name: "sdk".to_owned(),
                version: "1.2.3".to_owned(),
                integrations: vec![],
                packages: vec![],
            },
        }),
    }
}

fn context() -> TransactionContext {
    TransactionContext::new_with_details(
        "name",
        "op",
        TraceId { bytes: [7; 16] },
        Some(SpanId { bytes: [8; 8] }),
        None,
    )
}

fn always(_: &TransactionContext) -> bool {
    true
}

fn running() -> Transaction {
    start_transaction(&hub("release"), context(), &always)
}

#[test]
fn either_passes_on_to_the_transaction() {
    let mut transaction = running();
    let mut either = TransactionOrSpan::from(&mut transaction);
    assert!(either.is_sampled());
    either.set_data("key", Value::from(1));
    either.set_tag("tag", "value".to_owned());
    either.set_status(SpanStatus::Ok);
    either.set_request(Request::default());
    assert_eq!(either.get_status(), Some(SpanStatus::Ok));
    assert_eq!(
        either.get_trace_context().data.get("key"),
        Some(&Value::from(1))
    );
    assert_eq!(
        either.iter_headers().next().unwrap().1,
        "07070707070707070707070707070707-0808080808080808-1"
    );
    let sent = either.finish_with_timestamp(at(3)).unwrap().seal();
    assert_eq!(sent.timestamp, Some(at(3)));
    assert_eq!(sent.tags.get("tag"), Some(&"value".to_owned()));
    assert_eq!(sent.request, Some(Request::default()));
    assert!(transaction.finish().is_none());
}

#[test]
fn either_passes_on_to_the_span() {
    let mut transaction = running();
    let mut span =
        transaction.start_child_with_details("child", "", SpanId { bytes: [1; 8] }, at(1));
    let mut either = TransactionOrSpan::from((&mut span, &mut transaction));
    assert!(either.is_sampled());
    either.set_data("key", Value::from(1));
    either.set_tag("tag", "value".to_owned());
    either.set_status(SpanStatus::Ok);
    either.set_request(Request {
        method: Some("PUT".to_owned()),
        ..Request::default()
    });
    assert_eq!(either.get_status(), Some(SpanStatus::Ok));
    // The context is the transaction's.
    assert_eq!(either.get_trace_context().status, None);
    assert_eq!(
        either.get_trace_context().span_id,
        SpanId { bytes: [8; 8] }
    );
    assert_eq!(
        either.iter_headers().next().unwrap().1,
        "07070707070707070707070707070707-0101010101010101-1"
    );
    assert!(either.finish_with_timestamp(at(3)).is_none());
    let sent = transaction.finish_with_timestamp(at(4)).unwrap().seal();
    assert_eq!(sent.spans.len(), 1);
    assert_eq!(sent.spans[0].timestamp, Some(at(3)));
    assert_eq!(sent.spans[0].tags.get("tag"), Some(&"value".to_owned()));
    assert_eq!(sent.spans[0].data.get("method"), Some(&Value::from("PUT")));
    assert!(sent.tags.get("tag").is_none());
}

#[test]
fn either_starts_children() {
    let mut transaction = running();
    let id = SpanId { bytes: [2; 8] };
    let mut span =
        transaction.start_child_with_details("child", "", SpanId { bytes: [1; 8] }, at(1));

    let either = TransactionOrSpan::from(&mut transaction);
    let mut child = either.start_child_with_details("op", "text", id, at(2));
    assert_eq!(child.get_span_id(), id);
    assert_eq!(
        child.data().span.parent_span_id,
        Some(SpanId { bytes: [8; 8] })
    );
    let mut child = either.start_child("op", "");
    assert_eq!(
        child.data().span.parent_span_id,
        Some(SpanId { bytes: [8; 8] })
    );

    let either = TransactionOrSpan::from((&mut span, &mut transaction));
    let mut child = either.start_child_with_details("op", "text", id, at(2));
    assert_eq!(child.data().span.start_timestamp, at(2));
    assert_eq!(
        child.data().span.parent_span_id,
        Some(SpanId { bytes: [1; 8] })
    );
    let mut child = either.start_child("op", "");
    assert_eq!(
        child.data().span.parent_span_id,
        Some(SpanId { bytes: [1; 8] })
    );
}

#[test]
fn either_finishes_now() {
    let before = SystemTime::now();
    let mut transaction = running();
    let mut span = transaction.start_child("child", "");
    assert!(TransactionOrSpan::from((&mut span, &mut transaction))
        .finish()
        .is_none());
    let finished = TransactionOrSpan::from(&mut transaction).finish().unwrap();
    assert_eq!(finished.transaction.spans.len(), 1);
    assert!(before <= finished.transaction.timestamp.unwrap());
}

#[test]
fn events_get_the_trace_context() {
    let mut transaction = running();
    transaction.set_status(SpanStatus::Ok);
    let mut span =
        transaction.start_child_with_details("child", "", SpanId { bytes: [1; 8] }, at(1));
    span.set_status(SpanStatus::Aborted);

    let os = Context::from(OsContext::default());
    let mut contexts = StringMap::new();
    contexts.insert("os".to_owned(), EventContext::Other(os.clone()));
    let expected = EventContext::Trace(transaction.get_trace_context());
    TransactionOrSpan::from(&mut transaction).apply_to_event(&mut contexts);
    assert_eq!(contexts.get("trace"), Some(&expected));
    assert_eq!(contexts.get("os"), Some(&EventContext::Other(os)));

    // The first one is kept.
    TransactionOrSpan::from((&mut span, &mut transaction)).apply_to_event(&mut contexts);
    assert_eq!(contexts.get("trace"), Some(&expected));

    // Of a span it is the identifiers alone.
    let mut contexts = StringMap::new();
    TransactionOrSpan::from((&mut span, &mut transaction)).apply_to_event(&mut contexts);
    let bare = TraceContext::new(TraceId { bytes: [7; 16] }, SpanId { bytes: [1; 8] });
    assert_eq!(contexts.get("trace"), Some(&EventContext::Trace(bare)));
}

#[test]
fn hubs_ask_the_client() {
    let by_name = |ctx: &TransactionContext| ctx.name() == "name";
    assert!(hub("release")
        .start_transaction(context(), &by_name)
        .is_sampled());
    let other = TransactionContext::new("other", "op");
    assert!(!hub("release")
        .start_transaction(other.clone(), &by_name)
        .is_sampled());
    let mut other = other;
    other.set_sampled(true);
    assert!(!start_transaction(&hub("release"), other.clone(), &by_name).is_sampled());
    assert!(start_transaction(&Hub { client: None }, other, &by_name).is_sampled());
    assert_eq!(hub("release").client(), hub("release").client);
    assert_eq!(Hub { client: None }.client(), None);
}

#[test]
fn transactions_start_at_the_given_time() {
    let mut transaction =
        start_transaction_with_timestamp(&hub("release"), context(), at(1), &always);
    let sent = transaction.finish_with_timestamp(at(2)).unwrap().seal();
    assert_eq!(sent.start_timestamp, at(1));
    assert_eq!(sent.release, Some("release".to_owned()));
    assert_eq!(sent.server_name, Some("server".to_owned()));
    assert_eq!(sent.name, Some("name".to_owned()));

    // Whatever hub it is asked of, the client is that of the active one.
    let mut transaction = hub("bound").start_transaction_with_timestamp(
        &hub("active"),
        context(),
        at(1),
        &always,
    );
    let sent = transaction.finish_with_timestamp(at(2)).unwrap().seal();
    assert_eq!(sent.start_timestamp, at(1));
    assert_eq!(sent.release, Some("active".to_owned()));

    let mut transaction = hub("bound").start_transaction_with_timestamp(
        &Hub { client: None },
        context(),
        at(1),
        &always,
    );
    assert!(transaction.finish_with_timestamp(at(2)).is_none());
}
