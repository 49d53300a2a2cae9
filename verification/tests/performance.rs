use sentry_performance::context::TransactionContext;
use sentry_performance::hub::{start_transaction, Hub};
use sentry_performance::ids::{SpanId, TraceId};
use sentry_performance::sampling::transaction_sample_rate;
use sentry_performance::trace::{parse_sentry_trace, SentryTrace};

#[test]
fn parses_sentry_trace() {
    let trace_id = TraceId::from_str("09e04486820349518ac7b5d2adbf6ba5").unwrap();
    let parent_trace_id = SpanId::from_str("9cf635fa5b870b3a").unwrap();

    let trace = parse_sentry_trace("09e04486820349518ac7b5d2adbf6ba5-9cf635fa5b870b3a-0");
    assert_eq!(
        trace,
        Some(SentryTrace::new(trace_id, parent_trace_id, Some(false)))
    );

    let trace = SentryTrace::new(Default::default(), Default::default(), None);
    let parsed = parse_sentry_trace(&trace.to_string());
    assert_eq!(parsed, Some(trace));
}

#[test]
fn disabled_forwards_trace_id() {
    let headers = [(
        "SenTrY-TRAce",
        "09e04486820349518ac7b5d2adbf6ba5-9cf635fa5b870b3a-1",
    )];
    let ctx = TransactionContext::continue_from_headers("noop", "noop", &headers);
    let trx = start_transaction(&Hub { client: None }, ctx, &|_: &TransactionContext| false);

    let span = trx.start_child("noop", "noop");

    let header = span.iter_headers().next().unwrap().1;
    let parsed = parse_sentry_trace(&header).unwrap();

    assert_eq!(
        &parsed.trace_id.to_string(),
        "09e04486820349518ac7b5d2adbf6ba5"
    );
    assert_eq!(parsed.sampled, Some(true));
}

#[test]
fn transaction_context_public_getters() {
    let mut ctx = TransactionContext::new("test-name", "test-operation");
    assert_eq!(ctx.name(), "test-name");
    assert_eq!(ctx.operation(), "test-operation");
    assert_eq!(ctx.sampled(), None);

    ctx.set_sampled(true);
    assert_eq!(ctx.sampled(), Some(true));
}

type Sampler = fn(&TransactionContext) -> f32;

fn rate_without_sampler(ctx: &TransactionContext, traces_sample_rate: f32) -> f32 {
    transaction_sample_rate(None::<&Sampler>, ctx, traces_sample_rate, 1.0, 0.0)
}

fn rate_with_sampler<S: Fn(&TransactionContext) -> f32>(
    sampler: &S,
    ctx: &TransactionContext,
    traces_sample_rate: f32,
) -> f32 {
    transaction_sample_rate(Some(sampler), ctx, traces_sample_rate, 1.0, 0.0)
}

#[test]
fn compute_transaction_sample_rate() {
    // Global rate used as fallback.
    let ctx = TransactionContext::new("noop", "noop");
    assert_eq!(rate_without_sampler(&ctx, 0.3), 0.3);
    assert_eq!(rate_without_sampler(&ctx, 0.7), 0.7);

    // If only global rate, setting sampled overrides it
    let mut ctx = TransactionContext::new("noop", "noop");
    ctx.set_sampled(true);
    assert_eq!(rate_without_sampler(&ctx, 0.3), 1.0);
    ctx.set_sampled(false);
    assert_eq!(rate_without_sampler(&ctx, 0.3), 0.0);

    // If given, sampler function overrides everything else.
    let mut ctx = TransactionContext::new("noop", "noop");
    assert_eq!(rate_with_sampler(&|_| { 0.7 }, &ctx, 0.3), 0.7);
    ctx.set_sampled(false);
    assert_eq!(rate_with_sampler(&|_| { 0.7 }, &ctx, 0.3), 0.7);
    // But the sampler may choose to inspect parent sampling
    let sampler = |ctx: &TransactionContext| match ctx.sampled() {
        Some(true) => 0.8,
        Some(false) => 0.4,
        None => 0.6,
    };
    ctx.set_sampled(true);
    assert_eq!(rate_with_sampler(&sampler, &ctx, 0.3), 0.8);
    ctx.set_sampled(None);
    assert_eq!(rate_with_sampler(&sampler, &ctx, 0.3), 0.6);

    // Can use first-class and custom attributes of the context.
    let sampler = |ctx: &TransactionContext| {
        if ctx.name() == "must-name" || ctx.operation() == "must-operation" {
            return 1.0;
        }

        if let Some(custom) = ctx.custom() {
            if let Some(rate) = custom.get("rate") {
                if let Some(rate) = rate.as_f64() {
                    return rate as f32;
                }
            }
        }

        0.1
    };
    // First class attributes
    let ctx = TransactionContext::new("noop", "must-operation");
    assert_eq!(rate_with_sampler(&sampler, &ctx, 0.3), 1.0);
    let ctx = TransactionContext::new("must-name", "noop");
    assert_eq!(rate_with_sampler(&sampler, &ctx, 0.3), 1.0);
    // Custom data payload
    let mut ctx = TransactionContext::new("noop", "noop");
    ctx.custom_insert("rate".to_owned(), serde_json::Value::from(0.7));
    assert_eq!(rate_with_sampler(&sampler, &ctx, 0.3), 0.7);
}
