//! Transactions and spans, where either will do.
use vstd::prelude::*;

use sentry_types::protocol::v7::SpanStatus;
use serde_json::Value;
use std::time::SystemTime;

use crate::ids::SpanId;
use crate::record::{self, EventContext, Request, TraceContext};
use crate::span::{self, Span};
use crate::string_map::StringMap;
use crate::trace::{self, TraceHeadersIter};
use crate::transaction::{self, FinishedTransaction, Transaction};

verus! {

/// A wrapper that groups a [`Transaction`] and a [`Span`] together.
#[derive(Debug)]
pub enum TransactionOrSpan<'a> {
    /// A [`Transaction`].
    Transaction(&'a mut Transaction),
    /// A [`Span`], and the [`Transaction`] in which it was started.
    Span(&'a mut Span, &'a mut Transaction),
}

/// What a [`TransactionOrSpan`] holds.
#[verifier::ext_equal]
pub enum TransactionOrSpanState {
    Transaction(transaction::TransactionState),
    Span(span::SpanState, transaction::TransactionState),
}

impl TransactionOrSpanState {
    /// The trace as it goes on from here.
    pub open spec fn trace(self) -> trace::SentryTraceView {
        match self {
            TransactionOrSpanState::Transaction(transaction) => transaction.trace(),
            TransactionOrSpanState::Span(span, _) => span.trace(),
        }
    }

    /// The sampling decision.
    pub open spec fn sampled(self) -> bool {
        match self {
            TransactionOrSpanState::Transaction(transaction) => transaction.sampled,
            TransactionOrSpanState::Span(span, _) => span.sampled,
        }
    }

    /// The status.
    pub open spec fn status(self) -> Option<SpanStatus> {
        match self {
            TransactionOrSpanState::Transaction(transaction) => transaction.context.status,
            TransactionOrSpanState::Span(span, _) => span.span.status,
        }
    }

    /// With the data attribute `key` set to `value`.
    pub open spec fn with_data(self, key: Seq<char>, value: Value) -> TransactionOrSpanState {
        match self {
            TransactionOrSpanState::Transaction(transaction) => TransactionOrSpanState::Transaction(
                transaction.with_data(key, value),
            ),
            TransactionOrSpanState::Span(span, started_in) => TransactionOrSpanState::Span(
                span.with_data(key, value),
                started_in,
            ),
        }
    }

    /// With the tag `key` set to `value`.
    pub open spec fn with_tag(self, key: Seq<char>, value: Seq<char>) -> TransactionOrSpanState {
        match self {
            TransactionOrSpanState::Transaction(transaction) => TransactionOrSpanState::Transaction(
                transaction.with_tag(key, value),
            ),
            TransactionOrSpanState::Span(span, started_in) => TransactionOrSpanState::Span(
                span.with_tag(key, value),
                started_in,
            ),
        }
    }

    /// With the status set.
    pub open spec fn with_status(self, status: SpanStatus) -> TransactionOrSpanState {
        match self {
            TransactionOrSpanState::Transaction(transaction) => TransactionOrSpanState::Transaction(
                transaction.with_status(status),
            ),
            TransactionOrSpanState::Span(span, started_in) => TransactionOrSpanState::Span(
                span.with_status(status),
                started_in,
            ),
        }
    }

    /// With the request set.
    pub open spec fn with_request(self, request: Request) -> TransactionOrSpanState {
        match self {
            TransactionOrSpanState::Transaction(transaction) => TransactionOrSpanState::Transaction(
                transaction.with_request(request),
            ),
            TransactionOrSpanState::Span(span, started_in) => TransactionOrSpanState::Span(
                span.with_request_values(span::request_values(request)),
                started_in,
            ),
        }
    }

    /// A child span that was just started.
    pub open spec fn child(
        self,
        op: Seq<char>,
        description: Seq<char>,
        span_id: Seq<u8>,
        start_timestamp: SystemTime,
    ) -> span::SpanState {
        match self {
            TransactionOrSpanState::Transaction(transaction) => transaction.child(
                op,
                description,
                span_id,
                start_timestamp,
            ),
            TransactionOrSpanState::Span(span, _) => span.child(
                op,
                description,
                span_id,
                start_timestamp,
            ),
        }
    }

    /// The trace context that an event gets: all of a transaction's, or the identifiers of a span.
    pub open spec fn event_context(self) -> record::TraceContextView {
        match self {
            TransactionOrSpanState::Transaction(transaction) => transaction.context,
            TransactionOrSpanState::Span(span, _) => record::TraceContextView::bare(
                span.span.trace_id,
                span.span.span_id,
            ),
        }
    }

    /// The contexts of an event with the trace context added, unless there is one already.
    pub open spec fn applied_to(self, contexts: Map<Seq<char>, record::EventContextView>) -> Map<
        Seq<char>,
        record::EventContextView,
    > {
        if contexts.contains_key("trace"@) {
            contexts
        } else {
            contexts.insert("trace"@, record::EventContextView::Trace(self.event_context()))
        }
    }

    /// The trace context of the transaction, or of the transaction in which the span was started.
    pub open spec fn trace_context(self) -> record::TraceContextView {
        match self {
            TransactionOrSpanState::Transaction(transaction) => transaction.context,
            TransactionOrSpanState::Span(_, started_in) => started_in.context,
        }
    }

    /// What is left after it finished at `timestamp`, and what is to be sent.
    pub open spec fn finished(self, timestamp: SystemTime) -> (
        TransactionOrSpanState,
        Option<transaction::FinishedTransactionView>,
    ) {
        match self {
            TransactionOrSpanState::Transaction(transaction) => {
                let (transaction, finished) = transaction.finished(timestamp);
                (TransactionOrSpanState::Transaction(transaction), finished)
            },
            TransactionOrSpanState::Span(span, started_in) => {
                let (span, started_in) = span.finished(started_in, timestamp);
                (TransactionOrSpanState::Span(span, started_in), None)
            },
        }
    }
}

impl<'a> From<&'a mut Transaction> for TransactionOrSpan<'a> {
    fn from(transaction: &'a mut Transaction) -> (either: Self)
        ensures
            match either {
                TransactionOrSpan::Transaction(borrowed) => {
                    &&& *borrowed == *old(transaction)
                    &&& *final(transaction) == *final(borrowed)
                },
                TransactionOrSpan::Span(_, _) => false,
            },
    {
        TransactionOrSpan::Transaction(transaction)
    }
}

impl<'a> vstd::std_specs::convert::FromSpecImpl<&'a mut Transaction> for TransactionOrSpan<'a> {
    open spec fn obeys_from_spec() -> bool {
        false
    }

    open spec fn from_spec(transaction: &'a mut Transaction) -> TransactionOrSpan<'a> {
        TransactionOrSpan::Transaction(transaction)
    }
}

impl<'a> From<(&'a mut Span, &'a mut Transaction)> for TransactionOrSpan<'a> {
    fn from(span: (&'a mut Span, &'a mut Transaction)) -> (either: Self)
        ensures
            match either {
                TransactionOrSpan::Span(borrowed, borrowed_in) => {
                    &&& *borrowed == *old(span.0)
                    &&& *borrowed_in == *old(span.1)
                    &&& *final(span.0) == *final(borrowed)
                    &&& *final(span.1) == *final(borrowed_in)
                },
                TransactionOrSpan::Transaction(_) => false,
            },
    {
        TransactionOrSpan::Span(span.0, span.1)
    }
}

impl<'a> vstd::std_specs::convert::FromSpecImpl<(&'a mut Span, &'a mut Transaction)>
    for TransactionOrSpan<'a> {
    open spec fn obeys_from_spec() -> bool {
        false
    }

    open spec fn from_spec(span: (&'a mut Span, &'a mut Transaction)) -> TransactionOrSpan<'a> {
        TransactionOrSpan::Span(span.0, span.1)
    }
}

/// Whether the borrows of two values end alike, as `span_end` and `transaction_end` tell: both
/// borrow the same transaction, or the same span and transaction.
pub open spec fn same_borrows(
    before: TransactionOrSpan<'_>,
    after: TransactionOrSpan<'_>,
    span_end: spec_fn(&mut Span) -> Span,
    transaction_end: spec_fn(&mut Transaction) -> Transaction,
) -> bool {
    match (before, after) {
        (TransactionOrSpan::Transaction(before), TransactionOrSpan::Transaction(after)) => {
            transaction_end(after) == transaction_end(before)
        },
        (
            TransactionOrSpan::Span(before, before_in),
            TransactionOrSpan::Span(after, after_in),
        ) => span_end(after) == span_end(before) && transaction_end(after_in) == transaction_end(
            before_in,
        ),
        _ => false,
    }
}

impl<'a> TransactionOrSpan<'a> {
    /// What the transaction, or the span and its transaction, hold now.
    pub open spec fn current(&self) -> TransactionOrSpanState {
        match *self {
            TransactionOrSpan::Transaction(transaction) => TransactionOrSpanState::Transaction(
                (*transaction)@,
            ),
            TransactionOrSpan::Span(span, started_in) => TransactionOrSpanState::Span(
                (*span)@,
                (*started_in)@,
            ),
        }
    }

    /// What the transaction, or the span and its transaction, hold at the end of their borrows,
    /// which `span_end` and `transaction_end` tell.
    pub open spec fn ended(
        &self,
        span_end: spec_fn(&mut Span) -> Span,
        transaction_end: spec_fn(&mut Transaction) -> Transaction,
    ) -> TransactionOrSpanState {
        match *self {
            TransactionOrSpan::Transaction(transaction) => TransactionOrSpanState::Transaction(
                transaction_end(transaction)@,
            ),
            TransactionOrSpan::Span(span, started_in) => TransactionOrSpanState::Span(
                span_end(span)@,
                transaction_end(started_in)@,
            ),
        }
    }

    /// Set some extra information to be sent with this Transaction/Span.
    pub fn set_data(&mut self, key: &str, value: Value)
        ensures
            final(self).current() == old(self).current().with_data(key@, value),
            same_borrows(
                *old(self),
                *final(self),
                |span: &mut Span| *final(span),
                |transaction: &mut Transaction| *final(transaction),
            ),
    {
        match self {
            TransactionOrSpan::Transaction(transaction) => transaction.set_data(key, value),
            TransactionOrSpan::Span(span, _) => span.set_data(key, value),
        }
    }

    /// Sets a tag to a specific value.
    pub fn set_tag(&mut self, key: &str, value: String)
        ensures
            final(self).current() == old(self).current().with_tag(key@, value@),
            same_borrows(
                *old(self),
                *final(self),
                |span: &mut Span| *final(span),
                |transaction: &mut Transaction| *final(transaction),
            ),
    {
        match self {
            TransactionOrSpan::Transaction(transaction) => transaction.set_tag(key, value),
            TransactionOrSpan::Span(span, _) => span.set_tag(key, value),
        }
    }

    /// Get the TransactionContext of the Transaction/Span.
    ///
    /// Note that this clones the underlying value.
    pub fn get_trace_context(&self) -> (context: TraceContext)
        ensures
            context@ == self.current().trace_context(),
    {
        match self {
            TransactionOrSpan::Transaction(transaction) => transaction.get_trace_context(),
            TransactionOrSpan::Span(span, started_in) => span.get_trace_context(started_in),
        }
    }

    /// Get the status of the Transaction/Span.
    pub fn get_status(&self) -> (status: Option<SpanStatus>)
        ensures
            status == self.current().status(),
    {
        match self {
            TransactionOrSpan::Transaction(transaction) => transaction.get_status(),
            TransactionOrSpan::Span(span, _) => span.get_status(),
        }
    }

    /// Set the status of the Transaction/Span.
    pub fn set_status(&mut self, status: SpanStatus)
        ensures
            final(self).current() == old(self).current().with_status(status),
            same_borrows(
                *old(self),
                *final(self),
                |span: &mut Span| *final(span),
                |transaction: &mut Transaction| *final(transaction),
            ),
    {
        match self {
            TransactionOrSpan::Transaction(transaction) => transaction.set_status(status),
            TransactionOrSpan::Span(span, _) => span.set_status(status),
        }
    }

    /// Set the HTTP request information for this Transaction/Span.
    pub fn set_request(&mut self, request: Request)
        ensures
            final(self).current() == old(self).current().with_request(request),
            same_borrows(
                *old(self),
                *final(self),
                |span: &mut Span| *final(span),
                |transaction: &mut Transaction| *final(transaction),
            ),
    {
        match self {
            TransactionOrSpan::Transaction(transaction) => transaction.set_request(request),
            TransactionOrSpan::Span(span, _) => span.set_request(request),
        }
    }

    /// Returns the headers needed for distributed tracing.
    pub fn iter_headers(&self) -> (headers: TraceHeadersIter)
        ensures
            headers@ == Some(self.current().trace().header()),
    {
        match self {
            TransactionOrSpan::Transaction(transaction) => transaction.iter_headers(),
            TransactionOrSpan::Span(span, _) => span.iter_headers(),
        }
    }

    /// Get the sampling decision for this Transaction/Span.
    pub fn is_sampled(&self) -> (sampled: bool)
        ensures
            sampled == self.current().sampled(),
    {
        match self {
            TransactionOrSpan::Transaction(transaction) => transaction.is_sampled(),
            TransactionOrSpan::Span(span, _) => span.is_sampled(),
        }
    }

    /// Starts a new child Span with the given `op` and `description`.
    ///
    /// The span must be explicitly finished via [`Span::finish`], as it will
    /// otherwise not be sent to Sentry.
    #[must_use]
    pub fn start_child(&self, op: &str, description: &str) -> (child: Span)
        ensures
            child@ == self.current().child(
                op@,
                description@,
                child@.span.span_id,
                child@.span.start_timestamp,
            ),
    {
        match self {
            TransactionOrSpan::Transaction(transaction) => transaction.start_child(op, description),
            TransactionOrSpan::Span(span, _) => span.start_child(op, description),
        }
    }

    /// Starts a new child Span with the given `op`, `description` and `id`.
    ///
    /// The span must be explicitly finished via [`Span::finish`], as it will
    /// otherwise not be sent to Sentry.
    #[must_use]
    pub fn start_child_with_details(
        &self,
        op: &str,
        description: &str,
        id: SpanId,
        timestamp: SystemTime,
    ) -> (child: Span)
        ensures
            child@ == self.current().child(op@, description@, id@, timestamp),
    {
        match self {
            TransactionOrSpan::Transaction(transaction) => {
                transaction.start_child_with_details(op, description, id, timestamp)
            },
            TransactionOrSpan::Span(span, _) => {
                span.start_child_with_details(op, description, id, timestamp)
            },
        }
    }

    /// Adds the trace context to the contexts of an event, unless they have one already.
    pub fn apply_to_event(&self, contexts: &mut StringMap<EventContext>)
        ensures
            record::contexts_of(final(contexts)@) == self.current().applied_to(
                record::contexts_of(old(contexts)@),
            ),
    {
        if contexts.contains_key("trace") {
            return;
        }
        let context = match self {
            TransactionOrSpan::Transaction(transaction) => transaction.context.clone(),
            TransactionOrSpan::Span(span, _) => {
                TraceContext::new(span.span.trace_id, span.span.span_id)
            },
        };
        let context = EventContext::Trace(context);
        proof {
            record::lemma_contexts_insert(contexts@, "trace"@, context);
        }
        let _ = contexts.insert("trace".to_owned(), context);
    }

    /// Finishes the Transaction/Span with the provided end timestamp.
    ///
    /// This records the end timestamp and either hands out the inner [`Transaction`]
    /// to be sent to Sentry, or adds the [`Span`] to its transaction.
    pub fn finish_with_timestamp(self, timestamp: SystemTime) -> (finished: Option<
        FinishedTransaction,
    >)
        ensures
            self.current().finished(timestamp) == (
                    self.ended(
                        |span: &mut Span| *final(span),
                        |transaction: &mut Transaction| *final(transaction),
                    ),
                    transaction::finished_of(finished),
                ),
    {
        match self {
            TransactionOrSpan::Transaction(transaction) => {
                transaction.finish_with_timestamp(timestamp)
            },
            TransactionOrSpan::Span(span, started_in) => {
                span.finish_with_timestamp(started_in, timestamp);
                None
            },
        }
    }

    /// Finishes the Transaction/Span.
    ///
    /// This records the current timestamp as the end timestamp and either hands out the inner
    /// [`Transaction`] to be sent to Sentry, or adds the [`Span`] to its transaction.
    pub fn finish(self) -> (finished: Option<FinishedTransaction>)
        ensures
            exists|timestamp: SystemTime| #[trigger]
                self.current().finished(timestamp) == (
                    self.ended(
                        |span: &mut Span| *final(span),
                        |transaction: &mut Transaction| *final(transaction),
                    ),
                    transaction::finished_of(finished),
                ),
    {
        self.finish_with_timestamp(record::now())
    }
}

} // verus!
