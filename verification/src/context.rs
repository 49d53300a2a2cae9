//! The context that a transaction is started from.
use vstd::prelude::*;

use serde_json::Value;

use crate::ids::{SpanId, TraceId};
use crate::json::{self, insert_custom, new_custom, CustomTransactionContext};
use crate::record;
use crate::trace::{self, parse_headers, SentryTrace};
use crate::transaction_or_span::TransactionOrSpan;

verus! {

/// A sampling decision, as callers write it: either a flag, or an optional one.
pub trait SamplingDecision: Sized {
    /// The decision, or `None` where there is none.
    spec fn decision(self) -> Option<bool>;

    /// Returns the decision, or `None` where there is none.
    fn into_decision(self) -> (decision: Option<bool>)
        ensures
            decision == self.decision(),
    ;
}

impl SamplingDecision for bool {
    open spec fn decision(self) -> Option<bool> {
        Some(self)
    }

    fn into_decision(self) -> (decision: Option<bool>) {
        Some(self)
    }
}

impl SamplingDecision for Option<bool> {
    open spec fn decision(self) -> Option<bool> {
        self
    }

    fn into_decision(self) -> (decision: Option<bool>) {
        self
    }
}

/// The Transaction Context used to start a new Performance Monitoring Transaction.
///
/// The Transaction Context defines the metadata for a Performance Monitoring
/// Transaction, and also the connection point for distributed tracing.
#[derive(Debug)]
pub struct TransactionContext {
    pub(crate) name: String,
    pub(crate) op: String,
    pub(crate) trace_id: TraceId,
    pub(crate) parent_span_id: Option<SpanId>,
    pub(crate) span_id: SpanId,
    pub(crate) sampled: Option<bool>,
    pub(crate) custom: Option<CustomTransactionContext>,
}

/// What a [`TransactionContext`] holds.
#[verifier::ext_equal]
pub struct TransactionContextView {
    pub name: Seq<char>,
    pub op: Seq<char>,
    pub trace_id: Seq<u8>,
    pub parent_span_id: Option<Seq<u8>>,
    pub span_id: Seq<u8>,
    pub sampled: Option<bool>,
    pub custom: Option<Map<Seq<char>, Value>>,
}

/// The entries of an optional custom context.
pub open spec fn custom_of(custom: Option<CustomTransactionContext>) -> Option<
    Map<Seq<char>, Value>,
> {
    match custom {
        Some(custom) => Some(json::custom_entries(custom)),
        None => None,
    }
}

/// The entries of an optional custom context, none where there is no context.
pub open spec fn custom_or_empty(custom: Option<Map<Seq<char>, Value>>) -> Map<Seq<char>, Value> {
    match custom {
        Some(entries) => entries,
        None => Map::empty(),
    }
}

impl View for TransactionContext {
    type V = TransactionContextView;

    open(crate) spec fn view(&self) -> TransactionContextView {
        TransactionContextView {
            name: self.name@,
            op: self.op@,
            trace_id: self.trace_id@,
            parent_span_id: record::id_of(self.parent_span_id),
            span_id: self.span_id@,
            sampled: self.sampled,
            custom: custom_of(self.custom),
        }
    }
}

impl Clone for TransactionContext {
    fn clone(&self) -> (copy: Self)
        ensures
            copy@ == self@,
    {
        let custom = match &self.custom {
            Some(custom) => Some(custom.clone()),
            None => None,
        };
        TransactionContext {
            name: self.name.clone(),
            op: self.op.clone(),
            trace_id: self.trace_id,
            parent_span_id: self.parent_span_id,
            span_id: self.span_id,
            sampled: self.sampled,
            custom,
        }
    }
}

impl TransactionContextView {
    /// A context that starts a trace of its own.
    pub open spec fn root(
        name: Seq<char>,
        op: Seq<char>,
        trace_id: Seq<u8>,
        span_id: Seq<u8>,
    ) -> TransactionContextView {
        TransactionContextView {
            name,
            op,
            trace_id,
            parent_span_id: None,
            span_id,
            sampled: None,
            custom: None,
        }
    }

    /// A context that goes on with a trace: it stands below the trace's span, and takes over the
    /// sampling decision.
    pub open spec fn continued(
        name: Seq<char>,
        op: Seq<char>,
        parent: trace::SentryTraceView,
        span_id: Seq<u8>,
    ) -> TransactionContextView {
        TransactionContextView {
            name,
            op,
            trace_id: parent.trace_id,
            parent_span_id: Some(parent.span_id),
            span_id,
            sampled: parent.sampled,
            custom: None,
        }
    }

    /// The context with the custom value `key` set to `value`.
    pub open spec fn with_custom(self, key: Seq<char>, value: Value) -> TransactionContextView {
        TransactionContextView {
            custom: Some(custom_or_empty(self.custom).insert(key, value)),
            ..self
        }
    }
}

impl TransactionContext {
    /// Creates a new Transaction Context with the given `name` and `op`. A random
    /// `trace_id` is assigned. Use [`TransactionContext::new_with_trace_id`] to
    /// specify a custom trace ID.
    ///
    /// See <https://docs.sentry.io/platforms/native/enriching-events/transaction-name/>
    /// for an explanation of a Transaction's `name`, and
    /// <https://develop.sentry.dev/sdk/performance/span-operations/> for conventions
    /// around an `operation`'s value.
    ///
    /// See also the [`TransactionContext::continue_from_headers`] function that
    /// can be used for distributed tracing.
    #[must_use]
    pub fn new(name: &str, op: &str) -> (context: Self)
        ensures
            context@ == TransactionContextView::root(
                name@,
                op@,
                context@.trace_id,
                context@.span_id,
            ),
    {
        Self::new_with_trace_id(name, op, TraceId::default())
    }

    /// Creates a new Transaction Context with the given `name`, `op`, and `trace_id`.
    ///
    /// See <https://docs.sentry.io/platforms/native/enriching-events/transaction-name/>
    /// for an explanation of a Transaction's `name`, and
    /// <https://develop.sentry.dev/sdk/performance/span-operations/> for conventions
    /// around an `operation`'s value.
    #[must_use]
    pub fn new_with_trace_id(name: &str, op: &str, trace_id: TraceId) -> (context: Self)
        ensures
            context@ == TransactionContextView::root(name@, op@, trace_id@, context@.span_id),
    {
        TransactionContext {
            name: name.to_owned(),
            op: op.to_owned(),
            trace_id,
            parent_span_id: None,
            span_id: SpanId::default(),
            sampled: None,
            custom: None,
        }
    }

    /// Creates a new Transaction Context with the given `name`, `op`, `trace_id`, and
    /// possibly the given `span_id` and `parent_span_id`.
    ///
    /// See <https://docs.sentry.io/platforms/native/enriching-events/transaction-name/>
    /// for an explanation of a Transaction's `name`, and
    /// <https://develop.sentry.dev/sdk/performance/span-operations/> for conventions
    /// around an `operation`'s value.
    #[must_use]
    pub fn new_with_details(
        name: &str,
        op: &str,
        trace_id: TraceId,
        span_id: Option<SpanId>,
        parent_span_id: Option<SpanId>,
    ) -> (context: Self)
        ensures
            context@ == (TransactionContextView {
                parent_span_id: record::id_of(parent_span_id),
                ..TransactionContextView::root(name@, op@, trace_id@, context@.span_id)
            }),
            span_id matches Some(id) ==> context@.span_id == id@,
    {
        let mut context = Self::new_with_trace_id(name, op, trace_id);
        if let Some(span_id) = span_id {
            context.span_id = span_id;
        }
        context.parent_span_id = parent_span_id;
        context
    }

    /// Creates a new Transaction Context based on the distributed tracing `headers`.
    ///
    /// The `headers` in particular need to include the `sentry-trace` header,
    /// which is used to associate the transaction with a distributed trace.
    #[must_use]
    pub fn continue_from_headers(name: &str, op: &str, headers: &[(&str, &str)]) -> (context: Self)
        ensures
            context@ == (match trace::traced_by(headers@) {
                Some(parent) => TransactionContextView::continued(
                    name@,
                    op@,
                    parent,
                    context@.span_id,
                ),
                None => TransactionContextView::root(
                    name@,
                    op@,
                    context@.trace_id,
                    context@.span_id,
                ),
            }),
    {
        match parse_headers(headers) {
            Some(sentry_trace) => Self::continue_from_sentry_trace(name, op, &sentry_trace, None),
            None => TransactionContext {
                name: name.to_owned(),
                op: op.to_owned(),
                trace_id: TraceId::default(),
                parent_span_id: None,
                span_id: SpanId::default(),
                sampled: None,
                custom: None,
            },
        }
    }

    /// Creates a new Transaction Context based on the provided distributed tracing data,
    /// optionally creating the `TransactionContext` with the provided `span_id`.
    pub fn continue_from_sentry_trace(
        name: &str,
        op: &str,
        sentry_trace: &SentryTrace,
        span_id: Option<SpanId>,
    ) -> (context: Self)
        ensures
            context@ == TransactionContextView::continued(
                name@,
                op@,
                sentry_trace@,
                context@.span_id,
            ),
            span_id matches Some(id) ==> context@.span_id == id@,
    {
        let span_id = match span_id {
            Some(span_id) => span_id,
            None => SpanId::default(),
        };
        TransactionContext {
            name: name.to_owned(),
            op: op.to_owned(),
            trace_id: sentry_trace.trace_id,
            parent_span_id: Some(sentry_trace.span_id),
            sampled: sentry_trace.sampled,
            span_id,
            custom: None,
        }
    }

    /// Creates a new Transaction Context based on an existing Span.
    ///
    /// This should be used when an independent computation is spawned on another
    /// thread and should be connected to the calling thread via a distributed
    /// tracing transaction.
    pub fn continue_from_span(
        name: &str,
        op: &str,
        span: Option<&TransactionOrSpan<'_>>,
    ) -> (context: Self)
        ensures
            context@ == (match span {
                Some(span) => TransactionContextView::continued(
                    name@,
                    op@,
                    span.current().trace(),
                    context@.span_id,
                ),
                None => TransactionContextView::root(
                    name@,
                    op@,
                    context@.trace_id,
                    context@.span_id,
                ),
            }),
    {
        let span = match span {
            Some(span) => span,
            None => {
                return Self::new(name, op);
            },
        };
        let (trace_id, parent_span_id, sampled) = match span {
            TransactionOrSpan::Transaction(transaction) => (
                transaction.context.trace_id,
                transaction.context.span_id,
                Some(transaction.sampled),
            ),
            TransactionOrSpan::Span(span, _) => (
                span.span.trace_id,
                span.span.span_id,
                Some(span.sampled),
            ),
        };
        TransactionContext {
            name: name.to_owned(),
            op: op.to_owned(),
            trace_id,
            parent_span_id: Some(parent_span_id),
            span_id: SpanId::default(),
            sampled,
            custom: None,
        }
    }

    /// Set the sampling decision for this Transaction.
    ///
    /// This can be either an explicit boolean flag, or [`None`], which will fall
    /// back to use the configured `traces_sample_rate` option.
    pub fn set_sampled<D: SamplingDecision>(&mut self, sampled: D)
        ensures
            final(self)@ == (TransactionContextView { sampled: sampled.decision(), ..old(self)@ }),
    {
        self.sampled = sampled.into_decision();
    }

    /// Get the sampling decision for this Transaction.
    pub fn sampled(&self) -> (sampled: Option<bool>)
        ensures
            sampled == self@.sampled,
    {
        self.sampled
    }

    /// Get the name of this Transaction.
    pub fn name(&self) -> (name: &str)
        ensures
            name@ == self@.name,
    {
        self.name.as_str()
    }

    /// Get the operation of this Transaction.
    pub fn operation(&self) -> (op: &str)
        ensures
            op@ == self@.op,
    {
        self.op.as_str()
    }

    /// Get the Trace ID of this Transaction.
    pub fn trace_id(&self) -> (id: TraceId)
        ensures
            id@ == self@.trace_id,
    {
        self.trace_id
    }

    /// Get the Span ID of this Transaction.
    pub fn span_id(&self) -> (id: SpanId)
        ensures
            id@ == self@.span_id,
    {
        self.span_id
    }

    /// Get the custom context of this Transaction.
    pub fn custom(&self) -> (custom: Option<&CustomTransactionContext>)
        ensures
            match custom {
                Some(custom) => self@.custom == Some(json::custom_entries(*custom)),
                None => self@.custom is None,
            },
    {
        self.custom.as_ref()
    }

    /// Update the custom context of this Transaction.
    ///
    /// For simply adding a key, use the `custom_insert` method.
    pub fn custom_mut(&mut self) -> (custom: &mut Option<CustomTransactionContext>)
        ensures
            custom_of(*custom) == old(self)@.custom,
            final(self)@ == (TransactionContextView {
                custom: custom_of(*final(custom)),
                ..old(self)@
            }),
    {
        &mut self.custom
    }

    /// Inserts a key-value pair into the custom context.
    ///
    /// If the context did not have this key present, None is returned.
    ///
    /// If the context did have this key present, the value is updated, and the old value is
    /// returned.
    pub fn custom_insert(&mut self, key: String, value: Value) -> (previous: Option<Value>)
        ensures
            final(self)@ == old(self)@.with_custom(key@, value),
            previous == custom_or_empty(old(self)@.custom).get(key@),
    {
        // Initialise the context, if not used yet
        let mut custom = match self.custom.take() {
            Some(custom) => custom,
            None => {
                let custom = new_custom();
                assert(json::custom_entries(custom) =~= Map::<Seq<char>, Value>::empty());
                custom
            },
        };
        // And set our key
        let previous = insert_custom(&mut custom, key, value);
        self.custom = Some(custom);
        previous
    }

    /// Creates a transaction context builder initialized with the given `name` and `op`.
    ///
    /// See <https://docs.sentry.io/platforms/native/enriching-events/transaction-name/>
    /// for an explanation of a Transaction's `name`, and
    /// <https://develop.sentry.dev/sdk/performance/span-operations/> for conventions
    /// around an `operation`'s value.
    #[must_use]
    pub fn builder(name: &str, op: &str) -> (builder: TransactionContextBuilder)
        ensures
            builder@ == TransactionContextView::root(
                name@,
                op@,
                builder@.trace_id,
                builder@.span_id,
            ),
    {
        TransactionContextBuilder { ctx: TransactionContext::new(name, op) }
    }
}

/// A transaction context builder created by [`TransactionContext::builder`].
pub struct TransactionContextBuilder {
    pub(crate) ctx: TransactionContext,
}

impl View for TransactionContextBuilder {
    type V = TransactionContextView;

    /// The context that has been built so far.
    open(crate) spec fn view(&self) -> TransactionContextView {
        self.ctx@
    }
}

impl TransactionContextBuilder {
    /// Defines the name of the transaction.
    #[must_use]
    pub fn with_name(self, name: String) -> (builder: Self)
        ensures
            builder@ == (TransactionContextView { name: name@, ..self@ }),
    {
        let mut builder = self;
        builder.ctx.name = name;
        builder
    }

    /// Defines the operation of the transaction.
    #[must_use]
    pub fn with_op(self, op: String) -> (builder: Self)
        ensures
            builder@ == (TransactionContextView { op: op@, ..self@ }),
    {
        let mut builder = self;
        builder.ctx.op = op;
        builder
    }

    /// Defines the trace ID.
    #[must_use]
    pub fn with_trace_id(self, trace_id: TraceId) -> (builder: Self)
        ensures
            builder@ == (TransactionContextView { trace_id: trace_id@, ..self@ }),
    {
        let mut builder = self;
        builder.ctx.trace_id = trace_id;
        builder
    }

    /// Defines a parent span ID for the created transaction.
    #[must_use]
    pub fn with_parent_span_id(self, parent_span_id: Option<SpanId>) -> (builder: Self)
        ensures
            builder@ == (TransactionContextView {
                parent_span_id: record::id_of(parent_span_id),
                ..self@
            }),
    {
        let mut builder = self;
        builder.ctx.parent_span_id = parent_span_id;
        builder
    }

    /// Defines the span ID to be used when creating the transaction.
    #[must_use]
    pub fn with_span_id(self, span_id: SpanId) -> (builder: Self)
        ensures
            builder@ == (TransactionContextView { span_id: span_id@, ..self@ }),
    {
        let mut builder = self;
        builder.ctx.span_id = span_id;
        builder
    }

    /// Defines whether the transaction will be sampled.
    #[must_use]
    pub fn with_sampled(self, sampled: Option<bool>) -> (builder: Self)
        ensures
            builder@ == (TransactionContextView { sampled, ..self@ }),
    {
        let mut builder = self;
        builder.ctx.sampled = sampled;
        builder
    }

    /// Adds a custom key and value to the transaction context.
    #[must_use]
    pub fn with_custom(self, key: String, value: Value) -> (builder: Self)
        ensures
            builder@ == self@.with_custom(key@, value),
    {
        let mut builder = self;
        let _ = builder.ctx.custom_insert(key, value);
        builder
    }

    /// Finishes building a transaction.
    pub fn finish(self) -> (context: TransactionContext)
        ensures
            context@ == self@,
    {
        self.ctx
    }
}

} // verus!
