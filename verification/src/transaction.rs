//! Running transactions.
use vstd::prelude::*;

use sentry_types::protocol::v7::SpanStatus;
use serde_json::Value;
use std::time::SystemTime;

use crate::context::{self, TransactionContext};
use crate::ids::SpanId;
use crate::record::{self, now, Client, EventContext, Request, TraceContext};
use crate::span::{self, Span};
use crate::string_map;
use crate::trace::{self, SentryTrace, TraceHeadersIter};

verus! {

/// A transaction takes no further span once it holds more than this many.
pub const MAX_SPANS: usize = 1_000;

/// A running Performance Monitoring Transaction.
///
/// The transaction needs to be explicitly finished via [`Transaction::finish`],
/// otherwise neither the transaction nor any of its child spans will be sent
/// to Sentry.
#[derive(Debug)]
pub struct Transaction {
    pub(crate) client: Option<Client>,
    pub(crate) sampled: bool,
    pub(crate) context: TraceContext,
    pub(crate) transaction: Option<record::Transaction>,
}

/// What a [`Transaction`] holds.
#[verifier::ext_equal]
pub struct TransactionState {
    /// The client that the transaction will be sent through.
    pub client: Option<record::ClientView>,
    /// The sampling decision.
    pub sampled: bool,
    /// The trace context; its span is the root span of the transaction.
    pub context: record::TraceContextView,
    /// What will be sent; nothing without a client, and nothing once it has been sent.
    pub transaction: Option<record::TransactionView>,
}

/// What an optional transaction record holds.
pub open spec fn record_of(transaction: Option<record::Transaction>) -> Option<
    record::TransactionView,
> {
    match transaction {
        Some(transaction) => Some(transaction@),
        None => None,
    }
}

impl View for Transaction {
    type V = TransactionState;

    open(crate) spec fn view(&self) -> TransactionState {
        TransactionState {
            client: record::client_of(self.client),
            sampled: self.sampled,
            context: self.context@,
            transaction: record_of(self.transaction),
        }
    }
}

impl TransactionState {
    /// A transaction is there to be sent exactly as long as there is a client to send it through.
    pub open spec fn well_formed(self) -> bool {
        self.client is Some <==> self.transaction is Some
    }

    /// When the transaction started, where there is something to send.
    pub open spec fn start(self) -> SystemTime {
        self.transaction->0.start_timestamp
    }

    /// A transaction that was just started from `context`. Where there is a client, it is the
    /// client that decides whether the transaction is sampled; else the context does.
    pub open spec fn started(
        client: Option<record::ClientView>,
        context: context::TransactionContextView,
        client_sampled: bool,
        start_timestamp: SystemTime,
    ) -> TransactionState {
        TransactionState {
            client,
            sampled: match client {
                Some(_) => client_sampled,
                None => context.sampled == Some(true),
            },
            context: record::TraceContextView {
                parent_span_id: context.parent_span_id,
                op: Some(context.op),
                ..record::TraceContextView::bare(context.trace_id, context.span_id)
            },
            transaction: match client {
                Some(_) => Some(record::TransactionView::started(context.name, start_timestamp)),
                None => None,
            },
        }
    }

    /// The trace as it goes on from the transaction's root span.
    pub open spec fn trace(self) -> trace::SentryTraceView {
        trace::SentryTraceView {
            trace_id: self.context.trace_id,
            span_id: self.context.span_id,
            sampled: Some(self.sampled),
        }
    }

    /// A child span that was just started.
    pub open spec fn child(
        self,
        op: Seq<char>,
        description: Seq<char>,
        span_id: Seq<u8>,
        start_timestamp: SystemTime,
    ) -> span::SpanState {
        span::SpanState {
            sampled: self.sampled,
            span: record::SpanView::started(
                self.context.trace_id,
                self.context.span_id,
                op,
                description,
                span_id,
                start_timestamp,
            ),
        }
    }

    /// The data attributes that will be sent: none unless the transaction is sampled and has
    /// something to send.
    pub open spec fn sent_data(self) -> Map<Seq<char>, Value> {
        if self.sampled && self.transaction is Some {
            self.context.data
        } else {
            Map::empty()
        }
    }

    /// The transaction with the data attribute `key` set to `value`, if there is something to
    /// send.
    pub open spec fn with_data(self, key: Seq<char>, value: Value) -> TransactionState {
        if self.transaction is Some {
            TransactionState {
                context: record::TraceContextView {
                    data: self.context.data.insert(key, value),
                    ..self.context
                },
                ..self
            }
        } else {
            self
        }
    }

    /// The transaction with the tag `key` set to `value`, if there is something to send.
    pub open spec fn with_tag(self, key: Seq<char>, value: Seq<char>) -> TransactionState {
        match self.transaction {
            Some(transaction) => TransactionState {
                transaction: Some(
                    record::TransactionView {
                        tags: transaction.tags.insert(key, value),
                        ..transaction
                    },
                ),
                ..self
            },
            None => self,
        }
    }

    /// The transaction with the extra value `key` set to `value`, if there is something to send.
    pub open spec fn with_extra(self, key: Seq<char>, value: Value) -> TransactionState {
        match self.transaction {
            Some(transaction) => TransactionState {
                transaction: Some(
                    record::TransactionView {
                        extra: transaction.extra.insert(key, value),
                        ..transaction
                    },
                ),
                ..self
            },
            None => self,
        }
    }

    /// The transaction with its request set, if there is something to send.
    pub open spec fn with_request(self, request: Request) -> TransactionState {
        match self.transaction {
            Some(transaction) => TransactionState {
                transaction: Some(
                    record::TransactionView { request: Some(request), ..transaction },
                ),
                ..self
            },
            None => self,
        }
    }

    /// The transaction with its start set, if there is something to send.
    pub open spec fn with_start(self, timestamp: SystemTime) -> TransactionState {
        match self.transaction {
            Some(transaction) => TransactionState {
                transaction: Some(
                    record::TransactionView { start_timestamp: timestamp, ..transaction },
                ),
                ..self
            },
            None => self,
        }
    }

    /// The transaction with its status set.
    pub open spec fn with_status(self, status: SpanStatus) -> TransactionState {
        TransactionState {
            context: record::TraceContextView { status: Some(status), ..self.context },
            ..self
        }
    }

    /// The transaction with a finished span added, if there is something to send and the
    /// transaction does not yet hold more than [`MAX_SPANS`] spans.
    pub open spec fn with_span(self, span: record::SpanView) -> TransactionState {
        match self.transaction {
            Some(transaction) => if transaction.spans.len() <= MAX_SPANS {
                TransactionState {
                    transaction: Some(
                        record::TransactionView {
                            spans: transaction.spans.push(span),
                            ..transaction
                        },
                    ),
                    ..self
                }
            } else {
                self
            },
            None => self,
        }
    }

    /// The transaction after it finished at `timestamp`, and what is to be sent then: nothing
    /// unless it is sampled and has not been sent before.
    pub open spec fn finished(self, timestamp: SystemTime) -> (
        TransactionState,
        Option<FinishedTransactionView>,
    ) {
        match self.transaction {
            Some(transaction) => if self.sampled {
                (
                    TransactionState { client: None, transaction: None, ..self },
                    match self.client {
                        Some(client) => Some(
                            FinishedTransactionView {
                                transaction: record::TransactionView {
                                    timestamp: Some(timestamp),
                                    contexts: transaction.contexts.insert(
                                        "trace"@,
                                        record::EventContextView::Trace(self.context),
                                    ),
                                    ..transaction
                                },
                                client,
                            },
                        ),
                        None => None,
                    },
                )
            } else {
                (self, None)
            },
            None => (self, None),
        }
    }
}

/// A transaction that has finished, with the client that it is to be sent through.
#[derive(Debug)]
pub struct FinishedTransaction {
    /// What is to be sent.
    pub transaction: record::Transaction,
    /// The client to send it through.
    pub client: Client,
}

/// What a [`FinishedTransaction`] holds.
#[verifier::ext_equal]
pub struct FinishedTransactionView {
    pub transaction: record::TransactionView,
    pub client: record::ClientView,
}

impl View for FinishedTransaction {
    type V = FinishedTransactionView;

    open spec fn view(&self) -> FinishedTransactionView {
        FinishedTransactionView { transaction: self.transaction@, client: self.client@ }
    }
}

/// What an optional finished transaction holds.
pub open spec fn finished_of(finished: Option<FinishedTransaction>) -> Option<
    FinishedTransactionView,
> {
    match finished {
        Some(finished) => Some(finished@),
        None => None,
    }
}

impl FinishedTransactionView {
    /// The transaction with what it takes over from its client.
    pub open spec fn sealed(self) -> record::TransactionView {
        record::TransactionView {
            release: self.client.release,
            environment: self.client.environment,
            sdk: Some(self.client.sdk_info),
            server_name: self.client.server_name,
            ..self.transaction
        }
    }
}

impl FinishedTransaction {
    /// Takes over the release, the environment, the SDK and the server name from the client.
    ///
    /// This is the last step before sending; what the current scope adds is added before it.
    pub fn seal(self) -> (transaction: record::Transaction)
        ensures
            transaction@ == self@.sealed(),
    {
        let mut transaction = self.transaction;
        transaction.release = self.client.release;
        transaction.environment = self.client.environment;
        transaction.sdk = Some(self.client.sdk_info);
        transaction.server_name = self.client.server_name;
        transaction
    }
}

impl Transaction {
    /// Starts a transaction from `ctx`.
    ///
    /// `client_sampled` is the client's decision on `ctx`; without a client it is not looked at.
    pub fn new(
        client: Option<Client>,
        ctx: TransactionContext,
        client_sampled: bool,
    ) -> (transaction: Self)
        ensures
            transaction@ == TransactionState::started(
                record::client_of(client),
                ctx@,
                client_sampled,
                transaction@.start(),
            ),
            transaction@.well_formed(),
    {
        let (sampled, transaction) = if client.is_some() {
            (client_sampled, Some(record::Transaction::new(ctx.name)))
        } else {
            let sampled = match ctx.sampled {
                Some(sampled) => sampled,
                None => false,
            };
            (sampled, None)
        };
        let mut context = TraceContext::new(ctx.trace_id, ctx.span_id);
        context.parent_span_id = ctx.parent_span_id;
        context.op = Some(ctx.op);
        Transaction { client, sampled, context, transaction }
    }

    /// Starts a transaction from `ctx` that will not be sent.
    pub fn new_noop(ctx: TransactionContext) -> (transaction: Self)
        ensures
            transaction@ == TransactionState::started(None, ctx@, false, transaction@.start()),
            transaction@.well_formed(),
    {
        let mut context = TraceContext::new(ctx.trace_id, ctx.span_id);
        context.parent_span_id = ctx.parent_span_id;
        context.op = Some(ctx.op);
        let sampled = match ctx.sampled {
            Some(sampled) => sampled,
            None => false,
        };
        Transaction { client: None, sampled, context, transaction: None }
    }

    /// Sets the start of the transaction.
    pub(crate) fn set_start_timestamp(&mut self, timestamp: SystemTime)
        ensures
            final(self)@ == old(self)@.with_start(timestamp),
    {
        if let Some(transaction) = self.transaction.as_mut() {
            transaction.start_timestamp = timestamp;
        }
    }

    /// Set a data attribute to be sent with this Transaction.
    pub fn set_data(&mut self, key: &str, value: Value)
        ensures
            final(self)@ == old(self)@.with_data(key@, value),
    {
        if self.transaction.is_some() {
            let _ = self.context.data.insert(key.to_owned(), value);
        }
    }

    /// Set some extra information to be sent with this Transaction.
    pub fn set_extra(&mut self, key: &str, value: Value)
        ensures
            final(self)@ == old(self)@.with_extra(key@, value),
    {
        if let Some(transaction) = self.transaction.as_mut() {
            let _ = transaction.extra.insert(key.to_owned(), value);
        }
    }

    /// Sets a tag to a specific value.
    pub fn set_tag(&mut self, key: &str, value: String)
        ensures
            final(self)@ == old(self)@.with_tag(key@, value@),
    {
        if let Some(transaction) = self.transaction.as_mut() {
            proof {
                record::lemma_texts_insert(transaction.tags@, key@, value);
            }
            let _ = transaction.tags.insert(key.to_owned(), value);
        }
    }

    /// Returns an iterating accessor to the transaction's
    /// [data attributes](record::TraceContext::data).
    pub fn data(&mut self) -> (data: TransactionData<'_>)
        ensures
            *data.transaction == *old(self),
            *final(self) == *final(data.transaction),
    {
        TransactionData { transaction: self }
    }

    /// Get the TransactionContext of the Transaction.
    ///
    /// Note that this clones the underlying value.
    pub fn get_trace_context(&self) -> (context: TraceContext)
        ensures
            context@ == self@.context,
    {
        self.context.clone()
    }

    /// Get the status of the Transaction.
    pub fn get_status(&self) -> (status: Option<SpanStatus>)
        ensures
            status == self@.context.status,
    {
        self.context.status
    }

    /// Set the status of the Transaction.
    pub fn set_status(&mut self, status: SpanStatus)
        ensures
            final(self)@ == old(self)@.with_status(status),
    {
        self.context.status = Some(status);
    }

    /// Set the HTTP request information for this Transaction.
    pub fn set_request(&mut self, request: Request)
        ensures
            final(self)@ == old(self)@.with_request(request),
    {
        if let Some(transaction) = self.transaction.as_mut() {
            transaction.request = Some(request);
        }
    }

    /// Returns the headers needed for distributed tracing.
    pub fn iter_headers(&self) -> (headers: TraceHeadersIter)
        ensures
            headers@ == Some(self@.trace().header()),
    {
        let trace = SentryTrace::new(
            self.context.trace_id,
            self.context.span_id,
            Some(self.sampled),
        );
        TraceHeadersIter::new(trace.to_string())
    }

    /// Get the sampling decision for this Transaction.
    pub fn is_sampled(&self) -> (sampled: bool)
        ensures
            sampled == self@.sampled,
    {
        self.sampled
    }

    /// Finishes the Transaction with the provided end timestamp.
    ///
    /// This records the end timestamp and hands out the transaction together with
    /// all finished child spans, to be sent to Sentry.
    pub fn finish_with_timestamp(&mut self, timestamp: SystemTime) -> (finished: Option<
        FinishedTransaction,
    >)
        ensures
            (final(self)@, finished_of(finished)) == old(self)@.finished(timestamp),
            old(self)@.well_formed() ==> final(self)@.well_formed(),
    {
        // Discard `Transaction` unless sampled.
        if !self.sampled {
            return None;
        }
        let mut transaction = match self.transaction.take() {
            Some(transaction) => transaction,
            None => {
                return None;
            },
        };
        match self.client.take() {
            Some(client) => {
                transaction.timestamp = Some(timestamp);
                let context = EventContext::Trace(self.context.clone());
                proof {
                    record::lemma_contexts_insert(transaction.contexts@, "trace"@, context);
                }
                let _ = transaction.contexts.insert("trace".to_owned(), context);
                Some(FinishedTransaction { transaction, client })
            },
            None => None,
        }
    }

    /// Finishes the Transaction.
    ///
    /// This records the current timestamp as the end timestamp and hands out the transaction
    /// together with all finished child spans, to be sent to Sentry.
    pub fn finish(&mut self) -> (finished: Option<FinishedTransaction>)
        ensures
            exists|timestamp: SystemTime| #[trigger]
                old(self)@.finished(timestamp) == (final(self)@, finished_of(finished)),
            old(self)@.well_formed() ==> final(self)@.well_formed(),
    {
        self.finish_with_timestamp(now())
    }

    /// Starts a new child Span with the given `op` and `description`.
    ///
    /// The span must be explicitly finished via [`Span::finish`].
    #[must_use]
    pub fn start_child(&self, op: &str, description: &str) -> (child: Span)
        ensures
            child@ == self@.child(
                op@,
                description@,
                child@.span.span_id,
                child@.span.start_timestamp,
            ),
    {
        self.start_child_with_details(op, description, SpanId::default(), now())
    }

    /// Starts a new child Span with the given `op` and `description`.
    ///
    /// The span must be explicitly finished via [`Span::finish`].
    #[must_use]
    pub fn start_child_with_details(
        &self,
        op: &str,
        description: &str,
        id: SpanId,
        timestamp: SystemTime,
    ) -> (child: Span)
        ensures
            child@ == self@.child(op@, description@, id@, timestamp),
    {
        let span = record::Span::start(
            self.context.trace_id,
            self.context.span_id,
            op,
            description,
            id,
            timestamp,
        );
        Span { sampled: self.sampled, span }
    }

    /// Adds a finished span.
    pub fn add_span(&mut self, span: record::Span)
        ensures
            final(self)@ == old(self)@.with_span(span@),
    {
        if let Some(transaction) = self.transaction.as_mut() {
            if transaction.spans.len() <= MAX_SPANS {
                proof {
                    assert(transaction.spans@.push(span).map_values(|s: record::Span| s@)
                        =~= transaction.spans@.map_values(|s: record::Span| s@).push(span@));
                }
                transaction.spans.push(span);
            }
        }
    }
}

/// Iterable for a transaction's [data attributes](record::TraceContext::data).
pub struct TransactionData<'a> {
    /// The transaction whose data attributes these are.
    pub transaction: &'a mut Transaction,
}

impl<'a> TransactionData<'a> {
    /// What the transaction holds now.
    pub open spec fn current(&self) -> TransactionState {
        (*self.transaction)@
    }

    /// Iterate over the [data attributes](record::TraceContext::data)
    /// associated with this [transaction][record::Transaction].
    ///
    /// If the transaction is not sampled for sending,
    /// the metadata will not be populated at all,
    /// so nothing is produced.
    pub fn iter(&self) -> (entries: Vec<(&String, &Value)>)
        ensures
            forall|i: int, j: int|
                0 <= i < j < entries@.len() ==> #[trigger] string_map::text_before(
                    entries@[i].0@,
                    entries@[j].0@,
                ),
            forall|i: int|
                0 <= i < entries@.len() ==> self.current().sent_data().contains_pair(
                    #[trigger] entries@[i].0@,
                    *entries@[i].1,
                ),
            forall|key: Seq<char>| #[trigger]
                self.current().sent_data().contains_key(key) ==> exists|i: int|
                    0 <= i < entries@.len() && #[trigger] entries@[i].0@ == key,
    {
        if self.transaction.sampled && self.transaction.transaction.is_some() {
            self.transaction.context.data.iter()
        } else {
            Vec::new()
        }
    }

    /// Set a data attribute to be sent with this Transaction.
    pub fn set_data(&mut self, key: String, value: Value)
        ensures
            final(self).current() == old(self).current().with_data(key@, value),
            *final(final(self).transaction) == *final(old(self).transaction),
    {
        self.transaction.set_data(key.as_str(), value);
    }

    /// Set a tag to be sent with this Transaction.
    pub fn set_tag(&mut self, key: String, value: String)
        ensures
            final(self).current() == old(self).current().with_tag(key@, value@),
            *final(final(self).transaction) == *final(old(self).transaction),
    {
        self.transaction.set_tag(key.as_str(), value);
    }
}

} // verus!
