//! The records that are sent: trace contexts, spans, transactions, and what belongs to them.
use vstd::prelude::*;

use sentry_types::protocol::v7::{ClientSdkInfo, SpanStatus, User};
use serde_json::Value;
use std::collections::BTreeMap;
use std::time::SystemTime;

use crate::ids::{SpanId, TraceId};
use crate::string_map::StringMap;

verus! {

/// The status of a span, one of a fixed list of words.
#[verifier::external_type_specification]
#[verifier::external_body]
pub struct ExSpanStatus(sentry_types::protocol::v7::SpanStatus);

/// A point in time.
#[verifier::external_type_specification]
#[verifier::external_body]
pub struct ExSystemTime(std::time::SystemTime);

/// What is known of the user.
#[verifier::external_type_specification]
#[verifier::external_body]
pub struct ExUser(sentry_types::protocol::v7::User);

/// What is known of the client SDK.
#[verifier::external_type_specification]
#[verifier::external_body]
pub struct ExClientSdkInfo(sentry_types::protocol::v7::ClientSdkInfo);

/// Contextual data of any kind.
#[verifier::external_type_specification]
#[verifier::external_body]
pub struct ExContext(sentry_types::protocol::v7::Context);

/// `clone` of `sentry_types`' `ClientSdkInfo` returns an equal value.
pub assume_specification[ <sentry_types::protocol::v7::ClientSdkInfo as Clone>::clone ](
    info: &sentry_types::protocol::v7::ClientSdkInfo,
) -> (copy: sentry_types::protocol::v7::ClientSdkInfo)
    ensures
        copy == *info,
;

/// Calls `SystemTime::now`, which reads the clock. Which time comes is left unsaid.
#[verifier::external_body]
pub(crate) fn now() -> SystemTime {
    SystemTime::now()
}

/// The text of an optional string.
pub open spec fn text_of(text: Option<String>) -> Option<Seq<char>> {
    match text {
        Some(text) => Some(text@),
        None => None,
    }
}

/// The bytes of an optional span identifier.
pub open spec fn id_of(id: Option<SpanId>) -> Option<Seq<u8>> {
    match id {
        Some(id) => Some(id@),
        None => None,
    }
}

/// The texts of a map's strings.
pub open spec fn texts(strings: Map<Seq<char>, String>) -> Map<Seq<char>, Seq<char>> {
    strings.map_values(|string: String| string@)
}

/// Holds information about a tracing event.
#[derive(Debug, PartialEq)]
pub struct TraceContext {
    /// The ID of the trace event
    pub span_id: SpanId,
    /// Determines which trace the transaction belongs to.
    pub trace_id: TraceId,
    /// Determines the parent of this transaction if any.
    pub parent_span_id: Option<SpanId>,
    /// Short code identifying the type of operation the transaction is measuring.
    pub op: Option<String>,
    /// Human readable detail description.
    pub description: Option<String>,
    /// Describes the status of the span (e.g. `ok`, `cancelled`, etc.)
    pub status: Option<SpanStatus>,
    /// Optional data attributes to be associated with the transaction.
    pub data: StringMap<Value>,
}

/// What a [`TraceContext`] holds.
#[verifier::ext_equal]
pub struct TraceContextView {
    pub span_id: Seq<u8>,
    pub trace_id: Seq<u8>,
    pub parent_span_id: Option<Seq<u8>>,
    pub op: Option<Seq<char>>,
    pub description: Option<Seq<char>>,
    pub status: Option<SpanStatus>,
    pub data: Map<Seq<char>, Value>,
}

impl View for TraceContext {
    type V = TraceContextView;

    open spec fn view(&self) -> TraceContextView {
        TraceContextView {
            span_id: self.span_id@,
            trace_id: self.trace_id@,
            parent_span_id: id_of(self.parent_span_id),
            op: text_of(self.op),
            description: text_of(self.description),
            status: self.status,
            data: self.data@,
        }
    }
}

impl TraceContextView {
    /// A context that holds the two identifiers and nothing else.
    pub open spec fn bare(trace_id: Seq<u8>, span_id: Seq<u8>) -> TraceContextView {
        TraceContextView {
            span_id,
            trace_id,
            parent_span_id: None,
            op: None,
            description: None,
            status: None,
            data: Map::empty(),
        }
    }
}

impl TraceContext {
    /// Creates a context that holds the two identifiers and nothing else.
    pub fn new(trace_id: TraceId, span_id: SpanId) -> (context: Self)
        ensures
            context@ == TraceContextView::bare(trace_id@, span_id@),
    {
        TraceContext {
            span_id,
            trace_id,
            parent_span_id: None,
            op: None,
            description: None,
            status: None,
            data: StringMap::new(),
        }
    }
}

/// A copy of a map of values holds the same values.
proof fn lemma_values_copied(values: Map<Seq<char>, Value>, copy: Map<Seq<char>, Value>)
    requires
        copy.dom() == values.dom(),
        forall|key: Seq<char>| #[trigger]
            values.contains_key(key) ==> cloned::<Value>(values[key], copy[key]),
    ensures
        copy == values,
{
    assert forall|key: Seq<char>| values.contains_key(key) implies copy[key] == values[key] by {
        assert(cloned::<Value>(values[key], copy[key]));
    }
    assert(copy =~= values);
}

/// A copy of a map of strings holds the same texts.
proof fn lemma_texts_copied(strings: Map<Seq<char>, String>, copy: Map<Seq<char>, String>)
    requires
        copy.dom() == strings.dom(),
        forall|key: Seq<char>| #[trigger]
            strings.contains_key(key) ==> cloned::<String>(strings[key], copy[key]),
    ensures
        texts(copy) == texts(strings),
{
    assert forall|key: Seq<char>| strings.contains_key(key) implies copy[key]@ == strings[key]@ by {
        assert(cloned::<String>(strings[key], copy[key]));
    }
    assert(texts(copy) =~= texts(strings));
}

/// Copies an optional string.
pub(crate) fn copy_text(text: &Option<String>) -> (copy: Option<String>)
    ensures
        text_of(copy) == text_of(*text),
{
    match text {
        Some(text) => Some(text.clone()),
        None => None,
    }
}

impl Clone for TraceContext {
    fn clone(&self) -> (copy: Self)
        ensures
            copy@ == self@,
    {
        let data = self.data.clone();
        proof {
            lemma_values_copied(self.data@, data@);
        }
        TraceContext {
            span_id: self.span_id,
            trace_id: self.trace_id,
            parent_span_id: self.parent_span_id,
            op: copy_text(&self.op),
            description: copy_text(&self.description),
            status: self.status,
            data,
        }
    }
}

/// Contextual data that is sent with an event.
#[derive(Debug, PartialEq)]
pub enum EventContext {
    /// Tracing data.
    Trace(TraceContext),
    /// Data of any other kind.
    Other(sentry_types::protocol::v7::Context),
}

/// What an [`EventContext`] holds.
#[verifier::ext_equal]
pub enum EventContextView {
    Trace(TraceContextView),
    Other(sentry_types::protocol::v7::Context),
}

impl View for EventContext {
    type V = EventContextView;

    open spec fn view(&self) -> EventContextView {
        match *self {
            EventContext::Trace(context) => EventContextView::Trace(context@),
            EventContext::Other(context) => EventContextView::Other(context),
        }
    }
}

/// What the contexts of an event hold.
pub open spec fn contexts_of(contexts: Map<Seq<char>, EventContext>) -> Map<
    Seq<char>,
    EventContextView,
> {
    contexts.map_values(|context: EventContext| context@)
}

/// Setting a context sets what it holds.
pub(crate) proof fn lemma_contexts_insert(
    contexts: Map<Seq<char>, EventContext>,
    key: Seq<char>,
    value: EventContext,
)
    ensures
        contexts_of(contexts.insert(key, value)) == contexts_of(contexts).insert(key, value@),
{
    assert(contexts_of(contexts.insert(key, value)) =~= contexts_of(contexts).insert(key, value@));
}

/// Represents http request data.
#[derive(Debug, PartialEq)]
pub struct Request {
    /// The current URL of the request.
    pub url: Option<String>,
    /// The HTTP request method.
    pub method: Option<String>,
    /// Optionally some associated request data (human readable)
    pub data: Option<String>,
    /// Optionally the encoded query string.
    pub query_string: Option<String>,
    /// An encoded cookie string if available.
    pub cookies: Option<String>,
    /// HTTP request headers.
    pub headers: BTreeMap<String, String>,
    /// Optionally a CGI/WSGI etc. environment dictionary.
    pub env: BTreeMap<String, String>,
}

impl Default for Request {
    /// A request of which nothing is known.
    fn default() -> (request: Self)
        ensures
            request.url is None,
            request.method is None,
            request.data is None,
            request.query_string is None,
            request.cookies is None,
            request.headers@ == Map::<String, String>::empty(),
            request.env@ == Map::<String, String>::empty(),
    {
        Request {
            url: None,
            method: None,
            data: None,
            query_string: None,
            cookies: None,
            headers: BTreeMap::new(),
            env: BTreeMap::new(),
        }
    }
}

/// Represents a tracing span.
#[derive(Debug, PartialEq)]
pub struct Span {
    /// The ID of the span
    pub span_id: SpanId,
    /// Determines which trace the span belongs to.
    pub trace_id: TraceId,
    /// Determines the parent of this span, if any.
    pub parent_span_id: Option<SpanId>,
    /// Determines whether this span is generated in the same process as its parent, if any.
    pub same_process_as_parent: Option<bool>,
    /// Short code identifying the type of operation the span is measuring.
    pub op: Option<String>,
    /// Longer description of the span's operation, which uniquely identifies the span
    /// but is consistent across instances of the span.
    pub description: Option<String>,
    /// The timestamp at the measuring of the span finished.
    pub timestamp: Option<SystemTime>,
    /// The timestamp at the measuring of the span started.
    pub start_timestamp: SystemTime,
    /// Describes the status of the span (e.g. `ok`, `cancelled`, etc.)
    pub status: Option<SpanStatus>,
    /// Optional tags to be attached to the span.
    pub tags: StringMap<String>,
    /// Optional extra information to be sent with the span.
    pub data: StringMap<Value>,
}

/// What a [`Span`] holds.
#[verifier::ext_equal]
pub struct SpanView {
    pub span_id: Seq<u8>,
    pub trace_id: Seq<u8>,
    pub parent_span_id: Option<Seq<u8>>,
    pub same_process_as_parent: Option<bool>,
    pub op: Option<Seq<char>>,
    pub description: Option<Seq<char>>,
    pub timestamp: Option<SystemTime>,
    pub start_timestamp: SystemTime,
    pub status: Option<SpanStatus>,
    pub tags: Map<Seq<char>, Seq<char>>,
    pub data: Map<Seq<char>, Value>,
}

impl View for Span {
    type V = SpanView;

    open spec fn view(&self) -> SpanView {
        SpanView {
            span_id: self.span_id@,
            trace_id: self.trace_id@,
            parent_span_id: id_of(self.parent_span_id),
            same_process_as_parent: self.same_process_as_parent,
            op: text_of(self.op),
            description: text_of(self.description),
            timestamp: self.timestamp,
            start_timestamp: self.start_timestamp,
            status: self.status,
            tags: texts(self.tags@),
            data: self.data@,
        }
    }
}

impl SpanView {
    /// A span that was just started below `parent_span_id`: an empty description is none.
    pub open spec fn started(
        trace_id: Seq<u8>,
        parent_span_id: Seq<u8>,
        op: Seq<char>,
        description: Seq<char>,
        span_id: Seq<u8>,
        start_timestamp: SystemTime,
    ) -> SpanView {
        SpanView {
            span_id,
            trace_id,
            parent_span_id: Some(parent_span_id),
            same_process_as_parent: None,
            op: Some(op),
            description: if description.len() == 0 {
                None
            } else {
                Some(description)
            },
            timestamp: None,
            start_timestamp,
            status: None,
            tags: Map::empty(),
            data: Map::empty(),
        }
    }

    /// The span with the data attribute `key` set to `value`.
    pub open spec fn with_data(self, key: Seq<char>, value: Value) -> SpanView {
        SpanView { data: self.data.insert(key, value), ..self }
    }

    /// The span with the tag `key` set to `value`.
    pub open spec fn with_tag(self, key: Seq<char>, value: Seq<char>) -> SpanView {
        SpanView { tags: self.tags.insert(key, value), ..self }
    }

    /// The span with its end set to `timestamp`.
    pub open spec fn ended(self, timestamp: SystemTime) -> SpanView {
        SpanView { timestamp: Some(timestamp), ..self }
    }
}

/// Setting a string sets its text.
pub(crate) proof fn lemma_texts_insert(
    strings: Map<Seq<char>, String>,
    key: Seq<char>,
    value: String,
)
    ensures
        texts(strings.insert(key, value)) == texts(strings).insert(key, value@),
{
    assert(texts(strings.insert(key, value)) =~= texts(strings).insert(key, value@));
}

impl Span {
    /// Starts a span below `parent_span_id`.
    pub fn start(
        trace_id: TraceId,
        parent_span_id: SpanId,
        op: &str,
        description: &str,
        span_id: SpanId,
        start_timestamp: SystemTime,
    ) -> (span: Self)
        ensures
            span@ == SpanView::started(
                trace_id@,
                parent_span_id@,
                op@,
                description@,
                span_id@,
                start_timestamp,
            ),
    {
        let description = if description.is_empty() {
            None
        } else {
            Some(description.to_owned())
        };
        let span = Span {
            span_id,
            trace_id,
            parent_span_id: Some(parent_span_id),
            same_process_as_parent: None,
            op: Some(op.to_owned()),
            description,
            timestamp: None,
            start_timestamp,
            status: None,
            tags: StringMap::new(),
            data: StringMap::new(),
        };
        assert(span@.tags =~= Map::<Seq<char>, Seq<char>>::empty());
        span
    }

    /// Finalizes the span with the provided timestamp.
    pub fn finish_with_timestamp(&mut self, timestamp: SystemTime)
        ensures
            final(self)@ == old(self)@.ended(timestamp),
    {
        self.timestamp = Some(timestamp);
    }
}

impl Clone for Span {
    fn clone(&self) -> (copy: Self)
        ensures
            copy@ == self@,
    {
        let data = self.data.clone();
        let tags = self.tags.clone();
        proof {
            lemma_values_copied(self.data@, data@);
            lemma_texts_copied(self.tags@, tags@);
        }
        Span {
            span_id: self.span_id,
            trace_id: self.trace_id,
            parent_span_id: self.parent_span_id,
            same_process_as_parent: self.same_process_as_parent,
            op: copy_text(&self.op),
            description: copy_text(&self.description),
            timestamp: self.timestamp,
            start_timestamp: self.start_timestamp,
            status: self.status,
            tags,
            data,
        }
    }
}

/// Represents a tracing transaction.
#[derive(Debug, PartialEq)]
pub struct Transaction {
    /// The transaction name.
    pub name: Option<String>,
    /// A release identifier.
    pub release: Option<String>,
    /// An optional environment identifier.
    pub environment: Option<String>,
    /// Optionally user data to be sent along.
    pub user: Option<User>,
    /// Optional tags to be attached to the event.
    pub tags: StringMap<String>,
    /// Optional extra information to be sent with the event.
    pub extra: StringMap<Value>,
    /// SDK metadata
    pub sdk: Option<ClientSdkInfo>,
    /// The end time of the transaction.
    pub timestamp: Option<SystemTime>,
    /// The start time of the transaction.
    pub start_timestamp: SystemTime,
    /// The collection of finished spans part of this transaction.
    pub spans: Vec<Span>,
    /// Optional contexts.
    pub contexts: StringMap<EventContext>,
    /// Optionally HTTP request data to be sent along.
    pub request: Option<Request>,
    /// Optionally the server (or device) name of this event.
    pub server_name: Option<String>,
}

/// What a [`Transaction`] holds.
#[verifier::ext_equal]
pub struct TransactionView {
    pub name: Option<Seq<char>>,
    pub release: Option<Seq<char>>,
    pub environment: Option<Seq<char>>,
    pub user: Option<User>,
    pub tags: Map<Seq<char>, Seq<char>>,
    pub extra: Map<Seq<char>, Value>,
    pub sdk: Option<ClientSdkInfo>,
    pub timestamp: Option<SystemTime>,
    pub start_timestamp: SystemTime,
    pub spans: Seq<SpanView>,
    pub contexts: Map<Seq<char>, EventContextView>,
    pub request: Option<Request>,
    pub server_name: Option<Seq<char>>,
}

impl View for Transaction {
    type V = TransactionView;

    open spec fn view(&self) -> TransactionView {
        TransactionView {
            name: text_of(self.name),
            release: text_of(self.release),
            environment: text_of(self.environment),
            user: self.user,
            tags: texts(self.tags@),
            extra: self.extra@,
            sdk: self.sdk,
            timestamp: self.timestamp,
            start_timestamp: self.start_timestamp,
            spans: self.spans@.map_values(|span: Span| span@),
            contexts: contexts_of(self.contexts@),
            request: self.request,
            server_name: text_of(self.server_name),
        }
    }
}

impl TransactionView {
    /// A transaction that was just started.
    pub open spec fn started(name: Seq<char>, start_timestamp: SystemTime) -> TransactionView {
        TransactionView {
            name: Some(name),
            release: None,
            environment: None,
            user: None,
            tags: Map::empty(),
            extra: Map::empty(),
            sdk: None,
            timestamp: None,
            start_timestamp,
            spans: Seq::empty(),
            contexts: Map::empty(),
            request: None,
            server_name: None,
        }
    }
}

impl Transaction {
    /// Starts a transaction now.
    pub fn new(name: String) -> (transaction: Self)
        ensures
            transaction@ == TransactionView::started(name@, transaction.start_timestamp),
    {
        let transaction = Transaction {
            name: Some(name),
            release: None,
            environment: None,
            user: None,
            tags: StringMap::new(),
            extra: StringMap::new(),
            sdk: None,
            timestamp: None,
            start_timestamp: now(),
            spans: Vec::new(),
            contexts: StringMap::new(),
            request: None,
            server_name: None,
        };
        assert(transaction@ =~= TransactionView::started(name@, transaction.start_timestamp));
        transaction
    }
}

/// The client that a transaction is sent through: what the transaction takes over from it.
#[derive(Debug, PartialEq)]
pub struct Client {
    /// The release to be sent with events.
    pub release: Option<String>,
    /// The environment to be sent with events.
    pub environment: Option<String>,
    /// The server name to be reported.
    pub server_name: Option<String>,
    /// What is known of the SDK.
    pub sdk_info: ClientSdkInfo,
}

/// What a [`Client`] holds.
#[verifier::ext_equal]
pub struct ClientView {
    pub release: Option<Seq<char>>,
    pub environment: Option<Seq<char>>,
    pub server_name: Option<Seq<char>>,
    pub sdk_info: ClientSdkInfo,
}

impl View for Client {
    type V = ClientView;

    open spec fn view(&self) -> ClientView {
        ClientView {
            release: text_of(self.release),
            environment: text_of(self.environment),
            server_name: text_of(self.server_name),
            sdk_info: self.sdk_info,
        }
    }
}

impl Clone for Client {
    fn clone(&self) -> (copy: Self)
        ensures
            copy@ == self@,
    {
        Client {
            release: copy_text(&self.release),
            environment: copy_text(&self.environment),
            server_name: copy_text(&self.server_name),
            sdk_info: self.sdk_info.clone(),
        }
    }
}

/// What an optional client holds.
pub open spec fn client_of(client: Option<Client>) -> Option<ClientView> {
    match client {
        Some(client) => Some(client@),
        None => None,
    }
}

} // verus!
