use sentry_performance::context::TransactionContext;
use sentry_performance::hub::{start_transaction, Hub};
use sentry_performance::ids::{SpanId, TraceId};
use sentry_performance::sampling::is_transaction_sampled;
use sentry_performance::trace::SentryTrace;
use sentry_performance::transaction_or_span::TransactionOrSpan;
use serde_json::Value;

fn trace_id() -> TraceId {
    TraceId { bytes: [7; 16] }
}

fn span_id() -> SpanId {
    SpanId { bytes: [8; 8] }
}

fn parent_span_id() -> SpanId {
    SpanId { bytes: [9; 8] }
}

/// The parent of the transaction that is started from `ctx`.
fn parent_of(ctx: TransactionContext) -> Option<SpanId> {
    let hub = Hub { client: None };
    start_transaction(&hub, ctx, &|_: &TransactionContext| false)
        .get_trace_context()
        .parent_span_id
}

#[test]
fn new_contexts_start_a_trace() {
    let first = TransactionContext::new("name", "op");
    let second = TransactionContext::new("name", "op");
    assert_ne!(first.trace_id(), second.trace_id());
    assert_ne!(first.span_id(), second.span_id());
    assert_eq!(first.sampled(), None);
    assert!(first.custom().is_none());
    assert_eq!(parent_of(first), None);
}

#[test]
fn contexts_take_a_trace_id() {
    let ctx = TransactionContext::new_with_trace_id("name", "op", trace_id());
    assert_eq!(ctx.name(), "name");
    assert_eq!(ctx.operation(), "op");
    assert_eq!(ctx.trace_id(), trace_id());
    assert_eq!(parent_of(ctx), None);
}

#[test]
fn contexts_take_details() {
    let ctx = TransactionContext::new_with_details(
        "name",
        "op",
        trace_id(),
        Some(span_id()),
        Some(parent_span_id()),
    );
    assert_eq!(ctx.trace_id(), trace_id());
    assert_eq!(ctx.span_id(), span_id());
    assert_eq!(parent_of(ctx), Some(parent_span_id()));

    let ctx = TransactionContext::new_with_details("name", "op", trace_id(), None, None);
    assert_ne!(ctx.span_id(), span_id());
    assert_eq!(parent_of(ctx), None);
}

#[test]
fn contexts_go_on_from_a_trace() {
    let trace = SentryTrace::new(trace_id(), parent_span_id(), Some(true));
    let ctx =
        TransactionContext::continue_from_sentry_trace("name", "op", &trace, Some(span_id()));
    assert_eq!(ctx.name(), "name");
    assert_eq!(ctx.operation(), "op");
    assert_eq!(ctx.trace_id(), trace_id());
    assert_eq!(ctx.span_id(), span_id());
    assert_eq!(ctx.sampled(), Some(true));
    assert_eq!(parent_of(ctx), Some(parent_span_id()));

    let trace = SentryTrace::new(trace_id(), parent_span_id(), None);
    let ctx = TransactionContext::continue_from_sentry_trace("name", "op", &trace, None);
    assert_ne!(ctx.span_id(), parent_span_id());
    assert_eq!(ctx.sampled(), None);
}

#[test]
fn contexts_go_on_from_a_transaction_and_a_span() {
    let trace = SentryTrace::new(trace_id(), parent_span_id(), Some(true));
    let ctx =
        TransactionContext::continue_from_sentry_trace("name", "op", &trace, Some(span_id()));
    let hub = Hub { client: None };
    let mut transaction = start_transaction(&hub, ctx, &|_: &TransactionContext| false);
    let mut span = transaction.start_child("child", "");
    let child_id = span.get_span_id();

    let sender = TransactionOrSpan::from(&mut transaction);
    let ctx = TransactionContext::continue_from_span("next", "step", Some(&sender));
    assert_eq!(ctx.name(), "next");
    assert_eq!(ctx.operation(), "step");
    assert_eq!(ctx.trace_id(), trace_id());
    assert_eq!(ctx.sampled(), Some(true));
    assert_eq!(parent_of(ctx), Some(span_id()));

    let sender = TransactionOrSpan::from((&mut span, &mut transaction));
    let ctx = TransactionContext::continue_from_span("next", "step", Some(&sender));
    assert_eq!(ctx.trace_id(), trace_id());
    assert_eq!(ctx.sampled(), Some(true));
    assert_eq!(parent_of(ctx), Some(child_id));

    let ctx = TransactionContext::continue_from_span("next", "step", None);
    assert_ne!(ctx.trace_id(), trace_id());
    assert_eq!(ctx.sampled(), None);
    assert_eq!(parent_of(ctx), None);
}

#[test]
fn sampling_decisions_are_set() {
    let mut ctx = TransactionContext::new("name", "op");
    ctx.set_sampled(false);
    assert_eq!(ctx.sampled(), Some(false));
    ctx.set_sampled(Some(true));
    assert_eq!(ctx.sampled(), Some(true));
    ctx.set_sampled(None);
    assert_eq!(ctx.sampled(), None);
}

#[test]
fn custom_values_read_back() {
    let mut ctx = TransactionContext::new("name", "op");
    assert_eq!(ctx.custom_insert("key".to_owned(), Value::from(1)), None);
    assert_eq!(ctx.custom_insert("other".to_owned(), Value::from("x")), None);
    assert_eq!(
        ctx.custom_insert("key".to_owned(), Value::from(2)),
        Some(Value::from(1))
    );
    let custom = ctx.custom().unwrap();
    assert_eq!(custom.len(), 2);
    assert_eq!(custom.get("key"), Some(&Value::from(2)));
    assert_eq!(custom.get("other"), Some(&Value::from("x")));

    *ctx.custom_mut() = None;
    assert!(ctx.custom().is_none());
    assert_eq!(ctx.custom_insert("key".to_owned(), Value::Null), None);
    assert_eq!(ctx.custom().unwrap().len(), 1);
}

#[test]
fn copies_of_a_context_are_equal() {
    let mut ctx = TransactionContext::new("name", "op");
    ctx.set_sampled(true);
    ctx.custom_insert("key".to_owned(), Value::from(1));
    let mut copy = ctx.clone();
    assert_eq!(copy.name(), "name");
    assert_eq!(copy.operation(), "op");
    assert_eq!(copy.trace_id(), ctx.trace_id());
    assert_eq!(copy.span_id(), ctx.span_id());
    assert_eq!(copy.sampled(), Some(true));
    assert_eq!(copy.custom(), ctx.custom());

    copy.custom_insert("key".to_owned(), Value::from(2));
    assert_eq!(ctx.custom().unwrap().get("key"), Some(&Value::from(1)));
}

#[test]
fn builder_matches_details() {
    let ctx = TransactionContext::builder("first", "step")
        .with_name("name".to_owned())
        .with_op("op".to_owned())
        .with_trace_id(trace_id())
        .with_span_id(span_id())
        .with_parent_span_id(Some(parent_span_id()))
        .with_sampled(Some(false))
        .with_custom("key".to_owned(), Value::from(true))
        .finish();
    assert_eq!(ctx.name(), "name");
    assert_eq!(ctx.operation(), "op");
    assert_eq!(ctx.trace_id(), trace_id());
    assert_eq!(ctx.span_id(), span_id());
    assert_eq!(ctx.sampled(), Some(false));
    assert_eq!(ctx.custom().unwrap().get("key"), Some(&Value::from(true)));
    assert_eq!(parent_of(ctx), Some(parent_span_id()));

    let ctx = TransactionContext::builder("name", "op").finish();
    assert_eq!(ctx.name(), "name");
    assert_eq!(ctx.operation(), "op");
    assert_eq!(ctx.sampled(), None);
    assert!(ctx.custom().is_none());
}

type Sampler = fn(&TransactionContext) -> f32;

#[test]
fn sampling_decides_on_the_chosen_rate() {
    let above_half = |rate: f32| rate > 0.5;
    let mut ctx = TransactionContext::new("name", "op");
    let decide = |ctx: &TransactionContext, rate: f32| {
        is_transaction_sampled(None::<&Sampler>, ctx, rate, 1.0, 0.0, &above_half)
    };
    assert!(decide(&ctx, 0.7));
    assert!(!decide(&ctx, 0.3));
    ctx.set_sampled(true);
    assert!(decide(&ctx, 0.3));
    ctx.set_sampled(false);
    assert!(!decide(&ctx, 0.7));

    let sampler: Sampler = |ctx| if ctx.name() == "name" { 0.9 } else { 0.1 };
    assert!(is_transaction_sampled(Some(&sampler), &ctx, 0.0, 1.0, 0.0, &above_half));
    let other = TransactionContext::new("other", "op");
    assert!(!is_transaction_sampled(Some(&sampler), &other, 1.0, 1.0, 0.0, &above_half));
}
