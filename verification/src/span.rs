//! Running spans.
use vstd::prelude::*;

use sentry_types::protocol::v7::SpanStatus;
use serde_json::Value;
use std::time::SystemTime;

use crate::ids::SpanId;
use crate::json::{self, value_of_document, value_of_entries, value_of_string};
use crate::record::{self, now, Request, TraceContext};
use crate::string_map::StringMap;
use crate::trace::{self, SentryTrace, TraceHeadersIter};
use crate::transaction::{self, Transaction};

verus! {

/// A running Performance Monitoring Span.
///
/// The span needs to be explicitly finished via [`Span::finish`], otherwise it
/// will not be sent to Sentry.
#[derive(Debug)]
pub struct Span {
    pub(crate) sampled: bool,
    pub(crate) span: record::Span,
}

/// What a [`Span`] holds.
#[verifier::ext_equal]
pub struct SpanState {
    /// The sampling decision of the transaction in which the span was started.
    pub sampled: bool,
    /// What will be sent.
    pub span: record::SpanView,
}

impl View for Span {
    type V = SpanState;

    open(crate) spec fn view(&self) -> SpanState {
        SpanState { sampled: self.sampled, span: self.span@ }
    }
}

/// The values that a request adds to a span, each under its own key.
#[derive(Debug)]
pub struct RequestValues {
    pub method: Option<Value>,
    pub url: Option<Value>,
    pub data: Option<Value>,
    pub query_string: Option<Value>,
    pub cookies: Option<Value>,
    pub headers: Option<Value>,
    pub env: Option<Value>,
}

/// The string value of an optional text.
pub open spec fn optional_string_value(content: Option<String>) -> Option<Value> {
    match content {
        Some(content) => Some(json::string_value(content@)),
        None => None,
    }
}

/// The object value of a map of texts, unless the map is empty.
pub open spec fn optional_object_value(entries: Map<String, String>) -> Option<Value> {
    if entries.is_empty() {
        None
    } else {
        Some(json::object_value(entries))
    }
}

/// The value of request data: the JSON document that it is, or else the text itself.
pub open spec fn body_value(body: Seq<char>) -> Value {
    match json::parsed_value(body) {
        Some(value) => value,
        None => json::string_value(body),
    }
}

/// The values that `request` adds to a span.
pub open spec fn request_values(request: Request) -> RequestValues {
    RequestValues {
        method: optional_string_value(request.method),
        url: optional_string_value(request.url),
        data: match request.data {
            Some(body) => Some(body_value(body@)),
            None => None,
        },
        query_string: optional_string_value(request.query_string),
        cookies: optional_string_value(request.cookies),
        headers: optional_object_value(request.headers@),
        env: optional_object_value(request.env@),
    }
}

/// `data` with `key` set to `value`, if there is a value.
pub open spec fn with_optional(
    data: Map<Seq<char>, Value>,
    key: Seq<char>,
    value: Option<Value>,
) -> Map<Seq<char>, Value> {
    match value {
        Some(value) => data.insert(key, value),
        None => data,
    }
}

impl RequestValues {
    /// `data` with each of the values set under its key.
    pub open spec fn added_to(self, data: Map<Seq<char>, Value>) -> Map<Seq<char>, Value> {
        let data = with_optional(data, "method"@, self.method);
        let data = with_optional(data, "url"@, self.url);
        let data = with_optional(data, "data"@, self.data);
        let data = with_optional(data, "query_string"@, self.query_string);
        let data = with_optional(data, "cookies"@, self.cookies);
        let data = with_optional(data, "headers"@, self.headers);
        with_optional(data, "env"@, self.env)
    }
}

impl SpanState {
    /// The trace as it goes on from the span.
    pub open spec fn trace(self) -> trace::SentryTraceView {
        trace::SentryTraceView {
            trace_id: self.span.trace_id,
            span_id: self.span.span_id,
            sampled: Some(self.sampled),
        }
    }

    /// A child span that was just started.
    pub open spec fn child(
        self,
        op: Seq<char>,
        description: Seq<char>,
        span_id: Seq<u8>,
        start_timestamp: SystemTime,
    ) -> SpanState {
        SpanState {
            sampled: self.sampled,
            span: record::SpanView::started(
                self.span.trace_id,
                self.span.span_id,
                op,
                description,
                span_id,
                start_timestamp,
            ),
        }
    }

    /// The span with the data attribute `key` set to `value`.
    pub open spec fn with_data(self, key: Seq<char>, value: Value) -> SpanState {
        SpanState { span: self.span.with_data(key, value), ..self }
    }

    /// The span with the tag `key` set to `value`.
    pub open spec fn with_tag(self, key: Seq<char>, value: Seq<char>) -> SpanState {
        SpanState { span: self.span.with_tag(key, value), ..self }
    }

    /// The span with its status set.
    pub open spec fn with_status(self, status: SpanStatus) -> SpanState {
        SpanState { span: record::SpanView { status: Some(status), ..self.span }, ..self }
    }

    /// The span with the values of a request added to its data attributes.
    pub open spec fn with_request_values(self, values: RequestValues) -> SpanState {
        SpanState {
            span: record::SpanView { data: values.added_to(self.span.data), ..self.span },
            ..self
        }
    }

    /// The span after it finished at `timestamp`, and the transaction that it was started in: a
    /// span that has an end already stays as it is; another gets its end and joins the
    /// transaction.
    pub open spec fn finished(
        self,
        transaction: transaction::TransactionState,
        timestamp: SystemTime,
    ) -> (SpanState, transaction::TransactionState) {
        if self.span.timestamp is Some {
            (self, transaction)
        } else {
            let span = self.span.ended(timestamp);
            (SpanState { span, ..self }, transaction.with_span(span))
        }
    }
}

/// The string value of an optional text.
fn string_values(content: Option<String>) -> (value: Option<Value>)
    ensures
        value == optional_string_value(content),
{
    match content {
        Some(content) => Some(value_of_string(content)),
        None => None,
    }
}

impl RequestValues {
    /// The values that `request` adds to a span.
    pub fn of(request: Request) -> (values: Self)
        ensures
            values == request_values(request),
    {
        let data = match request.data {
            Some(body) => match value_of_document(body.as_str()) {
                Some(value) => Some(value),
                None => Some(value_of_string(body)),
            },
            None => None,
        };
        let headers = if request.headers.is_empty() {
            None
        } else {
            value_of_entries(request.headers)
        };
        let env = if request.env.is_empty() {
            None
        } else {
            value_of_entries(request.env)
        };
        RequestValues {
            method: string_values(request.method),
            url: string_values(request.url),
            data,
            query_string: string_values(request.query_string),
            cookies: string_values(request.cookies),
            headers,
            env,
        }
    }
}

/// Sets `key` to `value`, if there is a value.
fn insert_optional(data: &mut StringMap<Value>, key: &str, value: Option<Value>)
    ensures
        final(data)@ == with_optional(old(data)@, key@, value),
{
    if let Some(value) = value {
        let _ = data.insert(key.to_owned(), value);
    }
}

impl Span {
    /// Set some extra information to be sent with this Transaction.
    pub fn set_data(&mut self, key: &str, value: Value)
        ensures
            final(self)@ == old(self)@.with_data(key@, value),
    {
        let _ = self.span.data.insert(key.to_owned(), value);
    }

    /// Sets a tag to a specific value.
    pub fn set_tag(&mut self, key: &str, value: String)
        ensures
            final(self)@ == old(self)@.with_tag(key@, value@),
    {
        proof {
            record::lemma_texts_insert(self.span.tags@, key@, value);
        }
        let _ = self.span.tags.insert(key.to_owned(), value);
    }

    /// Returns an accessor to the span's [`data` field](record::Span::data).
    pub fn data(&mut self) -> (data: Data<'_>)
        ensures
            data.span@ == old(self)@.span,
            final(self)@ == (SpanState { span: final(data.span)@, ..old(self)@ }),
    {
        Data { span: &mut self.span }
    }

    /// What will be sent of the span.
    pub fn as_record(&self) -> (span: &record::Span)
        ensures
            span@ == self@.span,
    {
        &self.span
    }

    /// Get the TransactionContext of the Span: the trace context of the transaction in which it
    /// was started.
    ///
    /// Note that this clones the underlying value.
    pub fn get_trace_context(&self, transaction: &Transaction) -> (context: TraceContext)
        ensures
            context@ == transaction@.context,
    {
        transaction.get_trace_context()
    }

    /// Get the current span ID.
    pub fn get_span_id(&self) -> (id: SpanId)
        ensures
            id@ == self@.span.span_id,
    {
        self.span.span_id
    }

    /// Get the status of the Span.
    pub fn get_status(&self) -> (status: Option<SpanStatus>)
        ensures
            status == self@.span.status,
    {
        self.span.status
    }

    /// Set the status of the Span.
    pub fn set_status(&mut self, status: SpanStatus)
        ensures
            final(self)@ == old(self)@.with_status(status),
    {
        self.span.status = Some(status);
    }

    /// Set the HTTP request information for this Span.
    pub fn set_request(&mut self, request: Request)
        ensures
            final(self)@ == old(self)@.with_request_values(request_values(request)),
    {
        // Extract values from the request to be used as data in the span.
        let values = RequestValues::of(request);
        self.set_request_values(values);
    }

    /// Adds the values of a request to the data attributes of this Span.
    pub fn set_request_values(&mut self, values: RequestValues)
        ensures
            final(self)@ == old(self)@.with_request_values(values),
    {
        insert_optional(&mut self.span.data, "method", values.method);
        insert_optional(&mut self.span.data, "url", values.url);
        insert_optional(&mut self.span.data, "data", values.data);
        insert_optional(&mut self.span.data, "query_string", values.query_string);
        insert_optional(&mut self.span.data, "cookies", values.cookies);
        insert_optional(&mut self.span.data, "headers", values.headers);
        insert_optional(&mut self.span.data, "env", values.env);
    }

    /// Returns the headers needed for distributed tracing.
    pub fn iter_headers(&self) -> (headers: TraceHeadersIter)
        ensures
            headers@ == Some(self@.trace().header()),
    {
        let trace = SentryTrace::new(self.span.trace_id, self.span.span_id, Some(self.sampled));
        TraceHeadersIter::new(trace.to_string())
    }

    /// Get the sampling decision for this Span.
    pub fn is_sampled(&self) -> (sampled: bool)
        ensures
            sampled == self@.sampled,
    {
        self.sampled
    }

    /// Finishes the Span with the provided end timestamp.
    ///
    /// This will record the end timestamp and add the span to the transaction
    /// in which it was started.
    pub fn finish_with_timestamp(&mut self, transaction: &mut Transaction, timestamp: SystemTime)
        ensures
            (final(self)@, final(transaction)@) == old(self)@.finished(
                old(transaction)@,
                timestamp,
            ),
    {
        if let Some(span) = self.end(timestamp) {
            transaction.add_span(span);
        }
    }

    /// Records the end timestamp, and returns the span as it is to be added to the transaction in
    /// which it was started; `None` where the span was already finished.
    pub fn end(&mut self, timestamp: SystemTime) -> (ended: Option<record::Span>)
        ensures
            match ended {
                Some(span) => {
                    &&& old(self)@.span.timestamp is None
                    &&& span@ == old(self)@.span.ended(timestamp)
                    &&& final(self)@ == (SpanState { span: span@, ..old(self)@ })
                },
                None => old(self)@.span.timestamp is Some && final(self)@ == old(self)@,
            },
    {
        if self.span.timestamp.is_some() {
            // the span was already finished
            return None;
        }
        self.span.finish_with_timestamp(timestamp);
        Some(self.span.clone())
    }

    /// Finishes the Span.
    ///
    /// This will record the current timestamp as the end timestamp and add the span to the
    /// transaction in which it was started.
    pub fn finish(&mut self, transaction: &mut Transaction)
        ensures
            exists|timestamp: SystemTime| #[trigger]
                old(self)@.finished(old(transaction)@, timestamp) == (
                    final(self)@,
                    final(transaction)@,
                ),
    {
        self.finish_with_timestamp(transaction, now());
    }

    /// Starts a new child Span with the given `op` and `description`.
    ///
    /// The span must be explicitly finished via [`Span::finish`].
    #[must_use]
    pub fn start_child(&self, op: &str, description: &str) -> (child: Span)
        ensures
            child@ == self@.child(
                op@,
                description@,
                child@.span.span_id,
                child@.span.start_timestamp,
            ),
    {
        self.start_child_with_details(op, description, SpanId::default(), now())
    }

    /// Starts a new child Span with the given `op` and `description`.
    ///
    /// The span must be explicitly finished via [`Span::finish`].
    #[must_use]
    pub fn start_child_with_details(
        &self,
        op: &str,
        description: &str,
        id: SpanId,
        timestamp: SystemTime,
    ) -> (child: Span)
        ensures
            child@ == self@.child(op@, description@, id@, timestamp),
    {
        let span = record::Span::start(
            self.span.trace_id,
            self.span.span_id,
            op,
            description,
            id,
            timestamp,
        );
        Span { sampled: self.sampled, span }
    }
}

/// An accessor to a span's [`data` field](record::Span::data).
pub struct Data<'a> {
    /// The span whose data these are.
    pub span: &'a mut record::Span,
}

impl<'a> Data<'a> {
    /// What the span holds now.
    pub open spec fn current(&self) -> record::SpanView {
        (*self.span)@
    }

    /// Set some extra information to be sent with this Span.
    pub fn set_data(&mut self, key: String, value: Value)
        ensures
            final(self).current() == old(self).current().with_data(key@, value),
            *final(final(self).span) == *final(old(self).span),
    {
        let _ = self.span.data.insert(key, value);
    }

    /// Set some tag to be sent with this Span.
    pub fn set_tag(&mut self, key: String, value: String)
        ensures
            final(self).current() == old(self).current().with_tag(key@, value@),
            *final(final(self).span) == *final(old(self).span),
    {
        proof {
            record::lemma_texts_insert(self.span.tags@, key@, value);
        }
        let _ = self.span.tags.insert(key, value);
    }

    /// The span data.
    pub fn deref(&self) -> (data: &StringMap<Value>)
        ensures
            data@ == self.current().data,
    {
        &self.span.data
    }

    /// The span data, to be changed.
    pub fn deref_mut(&mut self) -> (data: &mut StringMap<Value>)
        ensures
            data@ == old(self).current().data,
            final(self).current() == (record::SpanView {
                data: final(data)@,
                ..old(self).current()
            }),
            *final(final(self).span) == *final(old(self).span),
    {
        &mut self.span.data
    }
}

} // verus!
