//! What holds of traces, transactions and spans as a whole.
use vstd::prelude::*;

use sentry_types::protocol::v7::SpanStatus;
use serde_json::Value;
use std::time::SystemTime;

use crate::context;
use crate::ids;
use crate::record::{self, Request};
use crate::span::{self, RequestValues};
use crate::string_map;
use crate::text;
use crate::trace::{self, SentryTrace};
use crate::transaction;
use crate::transaction_or_span;

verus! {

// Headers

/// An identifier's digits are digits: no dash, no white space.
pub(crate) proof fn lemma_digits(bytes: Seq<u8>)
    ensures
        !ids::hex_text(bytes).contains('-'),
        forall|i: int|
            0 <= i < ids::hex_text(bytes).len() ==> !text::is_white_space(
                #[trigger] ids::hex_text(bytes)[i],
            ),
{
    let digits = ids::hex_text(bytes);
    assert forall|i: int| 0 <= i < digits.len() implies digits[i] != '-' && !text::is_white_space(
        #[trigger] digits[i],
    ) by {
        ids::lemma_hex_text_reads_back(bytes);
        assert(ids::digit_value(digits[i]) is Some);
    }
}

/// A text that neither starts nor ends with white space stays as it is when it is trimmed.
pub(crate) proof fn lemma_trim_nothing(header: Seq<char>)
    requires
        header.len() > 0,
        !text::is_white_space(header.first()),
        !text::is_white_space(header.last()),
    ensures
        text::trim_end(text::trim_start(header)) == header,
{
}

/// A text splits at the first delimiter that was put into it.
pub(crate) proof fn lemma_split(before: Seq<char>, after: Seq<char>, delimiter: char)
    requires
        !before.contains(delimiter),
    ensures
        text::split_at_first(before + seq![delimiter] + after, delimiter) == Some((before, after)),
{
    let whole = before + seq![delimiter] + after;
    text::lemma_prefix_len(before, after, delimiter);
    assert(whole.take(before.len() as int) =~= before);
    assert(whole.skip(before.len() as int + 1) =~= after);
}

/// The header that a trace is written as reads back as the trace.
pub proof fn law_header_reads_back(sent: SentryTrace)
    ensures
        trace::parsed_trace(sent@.header()) == Some(sent@),
{
    let header = sent@.header();
    let trace_digits = ids::hex_text(sent@.trace_id);
    let span_digits = ids::hex_text(sent@.span_id);
    let suffix = trace::sampled_suffix(sent@.sampled);
    lemma_digits(sent@.trace_id);
    lemma_digits(sent@.span_id);
    ids::lemma_hex_text_reads_back(sent@.trace_id);
    ids::lemma_hex_text_reads_back(sent@.span_id);
    assert(header.first() == trace_digits[0]);
    assert(suffix.len() == 0 ==> header.last() == span_digits[15]);
    assert(suffix.len() > 0 ==> header.last() == suffix[1]);
    lemma_trim_nothing(header);
    let rest = span_digits + suffix;
    assert(header =~= trace_digits + seq!['-'] + rest);
    lemma_split(trace_digits, rest, '-');
    match sent@.sampled {
        Some(sampled) => {
            let flag = if sampled { seq!['1'] } else { seq!['0'] };
            assert(rest =~= span_digits + seq!['-'] + flag);
            lemma_split(span_digits, flag, '-');
            assert(seq!['0'][0] != seq!['1'][0]);
        },
        None => {
            assert(rest =~= span_digits);
            text::lemma_prefix_len_whole(rest, '-');
        },
    }
}

/// White space before a text does not change what is left of it when it is trimmed.
proof fn lemma_trim_start_skips(before: Seq<char>, header: Seq<char>)
    requires
        forall|i: int| 0 <= i < before.len() ==> text::is_white_space(#[trigger] before[i]),
    ensures
        text::trim_start(before + header) == text::trim_start(header),
    decreases before.len(),
{
    if before.len() == 0 {
        assert(before + header =~= header);
    } else {
        assert(text::is_white_space(before[0]));
        assert((before + header).first() == before[0]);
        assert((before + header).drop_first() =~= before.drop_first() + header);
        assert forall|i: int| 0 <= i < before.drop_first().len() implies text::is_white_space(
            #[trigger] before.drop_first()[i],
        ) by {
            assert(text::is_white_space(before[i + 1]));
        }
        lemma_trim_start_skips(before.drop_first(), header);
    }
}

/// White space after a text does not change what is left of it when it is trimmed.
proof fn lemma_trim_end_skips(header: Seq<char>, after: Seq<char>)
    requires
        forall|i: int| 0 <= i < after.len() ==> text::is_white_space(#[trigger] after[i]),
    ensures
        text::trim_end(header + after) == text::trim_end(header),
    decreases after.len(),
{
    if after.len() == 0 {
        assert(header + after =~= header);
    } else {
        assert(text::is_white_space(after[after.len() - 1]));
        assert((header + after).last() == after.last());
        assert((header + after).drop_last() =~= header + after.drop_last());
        assert forall|i: int| 0 <= i < after.drop_last().len() implies text::is_white_space(
            #[trigger] after.drop_last()[i],
        ) by {
            assert(text::is_white_space(after[i]));
        }
        lemma_trim_end_skips(header, after.drop_last());
    }
}

/// Trimming the start of a text and then adding white space at its end comes to the same as adding
/// it first, up to white space at the end.
proof fn lemma_trim_both(header: Seq<char>, after: Seq<char>)
    requires
        forall|i: int| 0 <= i < after.len() ==> text::is_white_space(#[trigger] after[i]),
    ensures
        text::trim_end(text::trim_start(header + after)) == text::trim_end(
            text::trim_start(header),
        ),
    decreases header.len(),
{
    if header.len() == 0 {
        assert(header + after =~= after + Seq::<char>::empty());
        lemma_trim_start_skips(after, Seq::<char>::empty());
        assert(header =~= Seq::<char>::empty());
    } else if text::is_white_space(header.first()) {
        assert((header + after).first() == header.first());
        assert((header + after).drop_first() =~= header.drop_first() + after);
        lemma_trim_both(header.drop_first(), after);
    } else {
        assert((header + after).first() == header.first());
        lemma_trim_end_skips(header, after);
    }
}

/// White space around a header value makes no difference.
pub proof fn law_header_white_space_is_ignored(
    before: Seq<char>,
    header: Seq<char>,
    after: Seq<char>,
)
    requires
        forall|i: int| 0 <= i < before.len() ==> text::is_white_space(#[trigger] before[i]),
        forall|i: int| 0 <= i < after.len() ==> text::is_white_space(#[trigger] after[i]),
    ensures
        trace::parsed_trace(before + header + after) == trace::parsed_trace(header),
{
    assert(before + header + after =~= before + (header + after));
    lemma_trim_start_skips(before, header + after);
    lemma_trim_both(header, after);
}

/// The first header that carries a trace decides, whatever stands around it: headers of other
/// names before it and any headers after it make no difference, and neither does the case of its
/// name.
pub proof fn law_first_trace_header_decides(
    before: Seq<(&str, &str)>,
    name: &str,
    value: &str,
    after: Seq<(&str, &str)>,
)
    requires
        forall|i: int| 0 <= i < before.len() ==> !trace::is_trace_header((#[trigger] before[i]).0@),
        text::ascii_lowercase(name@) == "sentry-trace"@,
    ensures
        trace::traced_by(before + seq![(name, value)] + after) == trace::parsed_trace(value@),
    decreases before.len(),
{
    let headers = before + seq![(name, value)] + after;
    if before.len() == 0 {
        assert(headers.first() == (name, value));
    } else {
        assert(headers.first() == before[0]);
        assert(headers.drop_first() =~= before.drop_first() + seq![(name, value)] + after);
        assert forall|i: int| 0 <= i < before.drop_first().len() implies !trace::is_trace_header(
            (#[trigger] before.drop_first()[i]).0@,
        ) by {
            assert(!trace::is_trace_header(before[i + 1].0@));
        }
        law_first_trace_header_decides(before.drop_first(), name, value, after);
    }
}

/// Headers of which none is named `sentry-trace` carry no trace.
pub proof fn law_other_headers_carry_no_trace(headers: Seq<(&str, &str)>)
    requires
        forall|i: int| 0 <= i < headers.len() ==> !trace::is_trace_header(
            (#[trigger] headers[i]).0@,
        ),
    ensures
        trace::traced_by(headers) is None,
    decreases headers.len(),
{
    if headers.len() > 0 {
        assert(!trace::is_trace_header(headers[0].0@));
        assert forall|i: int| 0 <= i < headers.drop_first().len() implies !trace::is_trace_header(
            (#[trigger] headers.drop_first()[i]).0@,
        ) by {
            assert(!trace::is_trace_header(headers[i + 1].0@));
        }
        law_other_headers_carry_no_trace(headers.drop_first());
    }
}

/// The text that an identifier is written as is the text that it was read from, in lower case.
pub proof fn law_identifier_text_is_kept(digits: Seq<char>, size: nat)
    requires
        ids::is_id_text(digits, size),
    ensures
        ids::hex_text(ids::hex_bytes(digits)) == text::ascii_lowercase(digits),
{
    let bytes = ids::hex_bytes(digits);
    assert forall|i: int| 0 <= i < digits.len() implies #[trigger] ids::hex_text(bytes)[i]
        == text::ascii_lower(digits[i]) by {
        let j = i / 2;
        assert(ids::digit_value(digits[2 * j]) is Some);
        assert(ids::digit_value(digits[2 * j + 1]) is Some);
        assert(bytes[j] == 16 * ids::digit_value(digits[2 * j])->0 + ids::digit_value(
            digits[2 * j + 1],
        )->0);
        assert(i == 2 * j || i == 2 * j + 1);
    }
    assert(ids::hex_text(bytes) =~= text::ascii_lowercase(digits));
}

// Traces

/// A trace that is sent on in a header goes on from the transaction or span that sent it: a context
/// that is continued from the header is in the same trace, stands below the sender, and has its
/// sampling decision, just as if it were continued from the sender itself.
pub proof fn law_trace_goes_on_through_header(
    sender: transaction_or_span::TransactionOrSpan<'_>,
    header_name: &str,
    header_value: &str,
    name: Seq<char>,
    op: Seq<char>,
    span_id: Seq<u8>,
)
    requires
        trace::is_trace_header(header_name@),
        header_value@ == sender.current().trace().header(),
    ensures
        trace::traced_by(seq![(header_name, header_value)]) == Some(sender.current().trace()),
        ({
            let received = trace::traced_by(seq![(header_name, header_value)])->0;
            let context = context::TransactionContextView::continued(name, op, received, span_id);
            &&& context == context::TransactionContextView::continued(
                name,
                op,
                sender.current().trace(),
                span_id,
            )
            &&& context.trace_id == sender.current().trace().trace_id
            &&& context.parent_span_id == Some(sender.current().trace().span_id)
            &&& context.sampled == Some(sender.current().sampled())
        }),
{
    let sent = match sender {
        transaction_or_span::TransactionOrSpan::Transaction(t) => SentryTrace {
            trace_id: t.context.trace_id,
            span_id: t.context.span_id,
            sampled: Some(t.sampled),
        },
        transaction_or_span::TransactionOrSpan::Span(s, _) => SentryTrace {
            trace_id: s.span.trace_id,
            span_id: s.span.span_id,
            sampled: Some(s.sampled),
        },
    };
    assert(sent@ == sender.current().trace());
    law_header_reads_back(sent);
}

/// How a child span is started.
pub struct ChildStart {
    pub op: Seq<char>,
    pub description: Seq<char>,
    pub span_id: Seq<u8>,
    pub start: SystemTime,
}

/// The span that is reached from `span` by starting a child, a child of that child, and so on.
pub open spec fn descendant(span: span::SpanState, starts: Seq<ChildStart>) -> span::SpanState
    decreases starts.len(),
{
    if starts.len() == 0 {
        span
    } else {
        let parent = descendant(span, starts.drop_last());
        let start = starts.last();
        parent.child(start.op, start.description, start.span_id, start.start)
    }
}

/// All spans below a span are in its trace and share its sampling decision.
proof fn lemma_descendants(span: span::SpanState, starts: Seq<ChildStart>)
    ensures
        descendant(span, starts).sampled == span.sampled,
        descendant(span, starts).span.trace_id == span.span.trace_id,
    decreases starts.len(),
{
    if starts.len() > 0 {
        lemma_descendants(span, starts.drop_last());
    }
}

/// A transaction is the root of its spans: every span below it, at any depth, is in its trace and
/// shares its sampling decision, and every span names as its parent the one that it was started
/// from.
pub proof fn law_spans_form_a_tree(
    root: transaction::TransactionState,
    first: ChildStart,
    starts: Seq<ChildStart>,
    last: ChildStart,
)
    ensures
        ({
            let child = root.child(first.op, first.description, first.span_id, first.start);
            let parent = descendant(child, starts);
            let span = parent.child(last.op, last.description, last.span_id, last.start);
            &&& child.span.parent_span_id == Some(root.context.span_id)
            &&& child.span.trace_id == root.context.trace_id
            &&& child.sampled == root.sampled
            &&& span.span.parent_span_id == Some(parent.span.span_id)
            &&& span.span.trace_id == root.context.trace_id
            &&& span.sampled == root.sampled
        }),
{
    let child = root.child(first.op, first.description, first.span_id, first.start);
    lemma_descendants(child, starts);
}

/// Without a client the trace still goes on: what a transaction, or any span below it, sends on is
/// in the trace that the transaction was started from and carries the decision that came with it.
pub proof fn law_trace_goes_on_without_client(
    context: context::TransactionContextView,
    sampled: bool,
    client_sampled: bool,
    start: SystemTime,
    first: ChildStart,
    starts: Seq<ChildStart>,
)
    requires
        context.sampled == Some(sampled),
    ensures
        ({
            let root = transaction::TransactionState::started(None, context, client_sampled, start);
            let child = root.child(first.op, first.description, first.span_id, first.start);
            let span = descendant(child, starts);
            &&& root.trace() == trace::SentryTraceView {
                trace_id: context.trace_id,
                span_id: context.span_id,
                sampled: Some(sampled),
            }
            &&& span.trace().trace_id == context.trace_id
            &&& span.trace().sampled == Some(sampled)
        }),
{
    let root = transaction::TransactionState::started(None, context, client_sampled, start);
    lemma_descendants(root.child(first.op, first.description, first.span_id, first.start), starts);
}

// Finishing

/// A span finishes once: finishing it again changes neither the span nor its transaction.
pub proof fn law_span_finishes_once(
    span: span::SpanState,
    started_in: transaction::TransactionState,
    first: SystemTime,
    second: SystemTime,
)
    ensures
        ({
            let (span1, started_in1) = span.finished(started_in, first);
            span1.finished(started_in1, second) == (span1, started_in1)
        }),
{
}

/// A transaction is sent at most once: finishing it again sends nothing and changes nothing.
pub proof fn law_transaction_is_sent_once(
    running: transaction::TransactionState,
    first: SystemTime,
    second: SystemTime,
)
    ensures
        ({
            let (finished, _) = running.finished(first);
            finished.finished(second) == (finished, None::<transaction::FinishedTransactionView>)
        }),
{
}

/// A transaction is sent when it finishes exactly if it is sampled and has a client and has not
/// been sent before; otherwise finishing changes nothing.
pub proof fn law_sampled_transaction_is_sent(
    running: transaction::TransactionState,
    timestamp: SystemTime,
)
    requires
        running.well_formed(),
    ensures
        running.finished(timestamp).1 is Some <==> running.sampled && running.client is Some,
        running.finished(timestamp).1 is None ==> running.finished(timestamp).0 == running,
        running.finished(timestamp).0.well_formed(),
{
}

/// What is sent is the whole transaction: its spans, its tags and all else that was recorded, the
/// end timestamp, and its trace context under `trace`, with what it takes over from the client.
pub proof fn law_transaction_is_sent_whole(
    running: transaction::TransactionState,
    timestamp: SystemTime,
)
    requires
        running.well_formed(),
        running.sampled,
        running.client is Some,
    ensures
        ({
            let recorded = running.transaction->0;
            let client = running.client->0;
            let sent = running.finished(timestamp).1->0.sealed();
            &&& sent.name == recorded.name
            &&& sent.spans == recorded.spans
            &&& sent.tags == recorded.tags
            &&& sent.extra == recorded.extra
            &&& sent.request == recorded.request
            &&& sent.user == recorded.user
            &&& sent.start_timestamp == recorded.start_timestamp
            &&& sent.timestamp == Some(timestamp)
            &&& sent.contexts.contains_pair(
                "trace"@,
                record::EventContextView::Trace(running.context),
            )
            &&& forall|key: Seq<char>|
                key != "trace"@ ==> #[trigger] sent.contexts.get(key) == recorded.contexts.get(key)
            &&& sent.release == client.release
            &&& sent.environment == client.environment
            &&& sent.server_name == client.server_name
            &&& sent.sdk == Some(client.sdk_info)
        }),
{
}

/// A span that finishes before its transaction is sent with it, after the spans that finished
/// earlier, unless the transaction holds more than [`transaction::MAX_SPANS`] spans already.
pub proof fn law_finished_span_is_sent(
    span: span::SpanState,
    running: transaction::TransactionState,
    span_end: SystemTime,
    end: SystemTime,
)
    requires
        running.well_formed(),
        running.sampled,
        running.client is Some,
        span.span.timestamp is None,
    ensures
        ({
            let (_, joined) = span.finished(running, span_end);
            let earlier = running.transaction->0.spans;
            let sent = joined.finished(end).1->0.transaction.spans;
            sent == if earlier.len() <= transaction::MAX_SPANS {
                earlier.push(span.span.ended(span_end))
            } else {
                earlier
            }
        }),
{
}

/// A span that finishes after its transaction was sent gets its end, but changes nothing of the
/// transaction.
pub proof fn law_late_span_is_not_sent(
    span: span::SpanState,
    running: transaction::TransactionState,
    end: SystemTime,
    span_end: SystemTime,
)
    requires
        running.finished(end).1 is Some,
    ensures
        ({
            let (finished, _) = running.finished(end);
            span.finished(finished, span_end).1 == finished
        }),
{
}

// Every state

/// Whether all that should hold of a transaction at any time does: it is well formed, holds at most
/// one span more than [`transaction::MAX_SPANS`], and each of its spans has finished and is in its
/// trace.
pub open spec fn sound(running: transaction::TransactionState) -> bool {
    &&& running.well_formed()
    &&& running.transaction matches Some(recorded) ==> {
        &&& recorded.spans.len() <= transaction::MAX_SPANS + 1
        &&& forall|i: int|
            0 <= i < recorded.spans.len() ==> {
                &&& (#[trigger] recorded.spans[i]).timestamp is Some
                &&& recorded.spans[i].trace_id == running.context.trace_id
            }
    }
}

/// A transaction is sound when it is started.
pub proof fn law_started_transaction_is_sound(
    client: Option<record::ClientView>,
    context: context::TransactionContextView,
    client_sampled: bool,
    start: SystemTime,
)
    ensures
        sound(transaction::TransactionState::started(client, context, client_sampled, start)),
{
}

/// A transaction stays sound, whatever is done to it: set its data, tags, extra values, request,
/// status or start, finish one of its spans, or finish it.
pub proof fn law_transaction_stays_sound(
    running: transaction::TransactionState,
    key: Seq<char>,
    value: Value,
    tag: Seq<char>,
    request: Request,
    status: SpanStatus,
    timestamp: SystemTime,
    span: span::SpanState,
)
    requires
        sound(running),
        span.span.trace_id == running.context.trace_id,
    ensures
        sound(running.with_data(key, value)),
        sound(running.with_tag(key, tag)),
        sound(running.with_extra(key, value)),
        sound(running.with_request(request)),
        sound(running.with_status(status)),
        sound(running.with_start(timestamp)),
        sound(span.finished(running, timestamp).1),
        sound(running.finished(timestamp).0),
{
}

/// The sampling decision, the trace and the place in it are settled when a transaction is started:
/// nothing that is done to it later changes them.
pub proof fn law_transaction_keeps_its_place(
    running: transaction::TransactionState,
    key: Seq<char>,
    value: Value,
    tag: Seq<char>,
    request: Request,
    status: SpanStatus,
    timestamp: SystemTime,
    span: span::SpanState,
)
    ensures
        running.with_data(key, value).trace() == running.trace(),
        running.with_tag(key, tag).trace() == running.trace(),
        running.with_extra(key, value).trace() == running.trace(),
        running.with_request(request).trace() == running.trace(),
        running.with_status(status).trace() == running.trace(),
        running.with_start(timestamp).trace() == running.trace(),
        span.finished(running, timestamp).1.trace() == running.trace(),
        running.finished(timestamp).0.trace() == running.trace(),
{
}

/// The same holds of a span: nothing that is done to it changes its identifiers or its sampling
/// decision.
pub proof fn law_span_keeps_its_place(
    span: span::SpanState,
    key: Seq<char>,
    value: Value,
    tag: Seq<char>,
    values: RequestValues,
    status: SpanStatus,
    timestamp: SystemTime,
    started_in: transaction::TransactionState,
)
    ensures
        span.with_data(key, value).trace() == span.trace(),
        span.with_tag(key, tag).trace() == span.trace(),
        span.with_request_values(values).trace() == span.trace(),
        span.with_status(status).trace() == span.trace(),
        span.finished(started_in, timestamp).0.trace() == span.trace(),
{
}

/// A transaction without anything to send, be it for want of a client or because it was sent
/// before, records no data, tag, extra value, request or start.
pub proof fn law_nothing_is_recorded_in_vain(
    running: transaction::TransactionState,
    key: Seq<char>,
    value: Value,
    tag: Seq<char>,
    request: Request,
    timestamp: SystemTime,
)
    requires
        running.well_formed(),
        running.client is None,
    ensures
        running.with_data(key, value) == running,
        running.with_tag(key, tag) == running,
        running.with_extra(key, value) == running,
        running.with_request(request) == running,
        running.with_start(timestamp) == running,
        running.sent_data() == Map::<Seq<char>, Value>::empty(),
{
}

/// A transaction that is not sampled shows no data, whatever was set: none of it will be sent.
pub proof fn law_unsampled_transaction_shows_no_data(
    running: transaction::TransactionState,
    key: Seq<char>,
    value: Value,
)
    requires
        !running.sampled,
    ensures
        running.sent_data() == Map::<Seq<char>, Value>::empty(),
        running.with_data(key, value).sent_data() == Map::<Seq<char>, Value>::empty(),
{
}

// Any sequence of steps

/// Something that is done to a transaction: one of its values is set, one of its spans finishes, or
/// it finishes itself.
pub enum Step {
    SetData(Seq<char>, Value),
    SetTag(Seq<char>, Seq<char>),
    SetExtra(Seq<char>, Value),
    SetRequest(Request),
    SetStatus(SpanStatus),
    SetStart(SystemTime),
    FinishSpan(span::SpanState, SystemTime),
    Finish(SystemTime),
}

/// The transaction after a step, and what the step handed out to be sent.
pub open spec fn stepped(running: transaction::TransactionState, step: Step) -> (
    transaction::TransactionState,
    Option<transaction::FinishedTransactionView>,
) {
    match step {
        Step::SetData(key, value) => (running.with_data(key, value), None),
        Step::SetTag(key, value) => (running.with_tag(key, value), None),
        Step::SetExtra(key, value) => (running.with_extra(key, value), None),
        Step::SetRequest(request) => (running.with_request(request), None),
        Step::SetStatus(status) => (running.with_status(status), None),
        Step::SetStart(timestamp) => (running.with_start(timestamp), None),
        Step::FinishSpan(span, timestamp) => (span.finished(running, timestamp).1, None),
        Step::Finish(timestamp) => running.finished(timestamp),
    }
}

/// The transaction after a sequence of steps.
pub open spec fn after_steps(
    running: transaction::TransactionState,
    steps: Seq<Step>,
) -> transaction::TransactionState
    decreases steps.len(),
{
    if steps.len() == 0 {
        running
    } else {
        stepped(after_steps(running, steps.drop_last()), steps.last()).0
    }
}

/// All that a sequence of steps handed out to be sent.
pub open spec fn handed_out(running: transaction::TransactionState, steps: Seq<Step>) -> Seq<
    transaction::FinishedTransactionView,
>
    decreases steps.len(),
{
    if steps.len() == 0 {
        Seq::empty()
    } else {
        let earlier = handed_out(running, steps.drop_last());
        match stepped(after_steps(running, steps.drop_last()), steps.last()).1 {
            Some(finished) => earlier.push(finished),
            None => earlier,
        }
    }
}

/// Whether the transaction is finished at least once.
pub open spec fn finishes(steps: Seq<Step>) -> bool {
    exists|i: int| 0 <= i < steps.len() && #[trigger] steps[i] is Finish
}

/// The spans that finish, in the order in which they do, each with its end.
pub open spec fn finished_spans(steps: Seq<Step>) -> Seq<record::SpanView>
    decreases steps.len(),
{
    if steps.len() == 0 {
        Seq::empty()
    } else {
        let earlier = finished_spans(steps.drop_last());
        match steps.last() {
            Step::FinishSpan(span, timestamp) => if span.span.timestamp is None {
                earlier.push(span.span.ended(timestamp))
            } else {
                earlier
            },
            _ => earlier,
        }
    }
}

/// The spans that a transaction keeps of those that finish: the first ones, up to one more than
/// [`transaction::MAX_SPANS`].
pub open spec fn kept_spans(spans: Seq<record::SpanView>) -> Seq<record::SpanView> {
    if spans.len() <= transaction::MAX_SPANS + 1 {
        spans
    } else {
        spans.take(transaction::MAX_SPANS + 1)
    }
}

/// A transaction is finished within some steps either by the last of them or by one before it.
proof fn lemma_finishes(steps: Seq<Step>)
    requires
        steps.len() > 0,
    ensures
        finishes(steps) <==> finishes(steps.drop_last()) || steps.last() is Finish,
{
    let earlier = steps.drop_last();
    if finishes(earlier) {
        let i = choose|i: int| 0 <= i < earlier.len() && #[trigger] earlier[i] is Finish;
        assert(steps[i] is Finish);
    }
    if finishes(steps) {
        let i = choose|i: int| 0 <= i < steps.len() && #[trigger] steps[i] is Finish;
        if i < earlier.len() {
            assert(earlier[i] is Finish);
        }
    }
}

/// Whatever is done to a transaction, in whatever order: exactly one transaction is handed out to be
/// sent if it is sampled, has a client and is finished at least once, and none else. As long as it
/// has not been handed out, it keeps its client.
pub proof fn law_any_steps_send_once(running: transaction::TransactionState, steps: Seq<Step>)
    requires
        running.well_formed(),
    ensures
        handed_out(running, steps).len() == if running.sampled && running.client is Some
            && finishes(steps) {
            1nat
        } else {
            0nat
        },
        after_steps(running, steps).client == if running.sampled && finishes(steps) {
            None
        } else {
            running.client
        },
        after_steps(running, steps).sampled == running.sampled,
        after_steps(running, steps).well_formed(),
    decreases steps.len(),
{
    if steps.len() > 0 {
        lemma_finishes(steps);
        law_any_steps_send_once(running, steps.drop_last());
    }
}

/// Whatever is done to a transaction before it finishes, it holds the first spans that finished, up
/// to one more than [`transaction::MAX_SPANS`], in the order in which they did.
pub proof fn law_any_steps_keep_first_spans(
    running: transaction::TransactionState,
    steps: Seq<Step>,
)
    requires
        running.transaction is Some,
        running.transaction->0.spans.len() <= transaction::MAX_SPANS + 1,
        !finishes(steps),
    ensures
        after_steps(running, steps).transaction is Some,
        after_steps(running, steps).transaction->0.spans == kept_spans(
            running.transaction->0.spans + finished_spans(steps),
        ),
    decreases steps.len(),
{
    let earlier = running.transaction->0.spans;
    if steps.len() == 0 {
        assert(earlier + finished_spans(steps) =~= earlier);
    } else {
        lemma_finishes(steps);
        law_any_steps_keep_first_spans(running, steps.drop_last());
        let before = earlier + finished_spans(steps.drop_last());
        let after = earlier + finished_spans(steps);
        if after != before {
            assert(after =~= before.push(after.last()));
            assert(kept_spans(after) =~= if before.len() <= transaction::MAX_SPANS {
                kept_spans(before).push(after.last())
            } else {
                kept_spans(before)
            });
        }
    }
}

/// Of the spans that finish in a transaction that was just started, those that are sent are the
/// first ones, as many as there are, but no more than [`transaction::MAX_SPANS`] and one, whatever
/// else is done to the transaction before it finishes.
pub proof fn law_first_spans_are_sent(
    started: transaction::TransactionState,
    steps: Seq<Step>,
    end: SystemTime,
)
    requires
        started.well_formed(),
        started.sampled,
        started.client is Some,
        started.transaction->0.spans.len() == 0,
        !finishes(steps),
    ensures
        ({
            let n = finished_spans(steps).len();
            let sent = handed_out(started, steps.push(Step::Finish(end)));
            &&& sent.len() == 1
            &&& sent[0].transaction.timestamp == Some(end)
            &&& sent[0].transaction.spans.len() == if n <= transaction::MAX_SPANS {
                n as int
            } else {
                transaction::MAX_SPANS + 1
            }
            &&& forall|i: int|
                0 <= i < sent[0].transaction.spans.len() ==> #[trigger] sent[0].transaction.spans[i]
                    == finished_spans(steps)[i]
        }),
{
    let all = steps.push(Step::Finish(end));
    assert(all.drop_last() =~= steps);
    assert(started.transaction->0.spans + finished_spans(steps) =~= finished_spans(steps));
    law_any_steps_keep_first_spans(started, steps);
    law_any_steps_send_once(started, steps);
}

/// A transaction stays sound, and keeps its place in the trace, whatever is done to it, as long as
/// the spans that finish in it are in its trace.
pub proof fn law_any_steps_keep_soundness(running: transaction::TransactionState, steps: Seq<Step>)
    requires
        sound(running),
        forall|i: int|
            0 <= i < steps.len() ==> (#[trigger] steps[i] matches Step::FinishSpan(span, _)
                ==> span.span.trace_id == running.context.trace_id),
    ensures
        sound(after_steps(running, steps)),
        after_steps(running, steps).trace() == running.trace(),
    decreases steps.len(),
{
    if steps.len() > 0 {
        let earlier = steps.drop_last();
        assert forall|i: int| 0 <= i < earlier.len() implies (#[trigger] earlier[i] matches
            Step::FinishSpan(span, _) ==> span.span.trace_id == running.context.trace_id) by {
            assert(earlier[i] == steps[i]);
        }
        law_any_steps_keep_soundness(running, earlier);
        assert(steps.last() == steps[steps.len() - 1]);
    }
}

// Data and tags

/// What is set under a key of a transaction is what the key has then, the last one wins, and other
/// keys are left alone.
pub proof fn law_transaction_data_reads_back(
    running: transaction::TransactionState,
    key: Seq<char>,
    other: Seq<char>,
    first: Value,
    second: Value,
    first_tag: Seq<char>,
    second_tag: Seq<char>,
)
    requires
        running.transaction is Some,
        key != other,
    ensures
        running.with_data(key, first).context.data.contains_pair(key, first),
        running.with_data(key, first).context.data.get(other) == running.context.data.get(other),
        running.with_data(key, first).with_data(key, second) == running.with_data(key, second),
        running.with_tag(key, first_tag).transaction->0.tags.contains_pair(key, first_tag),
        running.with_tag(key, first_tag).transaction->0.tags.get(other)
            == running.transaction->0.tags.get(other),
        running.with_tag(key, first_tag).with_tag(key, second_tag) == running.with_tag(
            key,
            second_tag,
        ),
        running.with_extra(key, first).transaction->0.extra.contains_pair(key, first),
        running.with_extra(key, first).transaction->0.extra.get(other)
            == running.transaction->0.extra.get(other),
        running.with_extra(key, first).with_extra(key, second) == running.with_extra(key, second),
{
    assert(running.with_data(key, first).with_data(key, second).context.data
        =~= running.with_data(key, second).context.data);
    assert(running.with_tag(key, first_tag).with_tag(key, second_tag).transaction->0.tags
        =~= running.with_tag(key, second_tag).transaction->0.tags);
    assert(running.with_extra(key, first).with_extra(key, second).transaction->0.extra
        =~= running.with_extra(key, second).transaction->0.extra);
}

/// The same holds of a span.
pub proof fn law_span_data_reads_back(
    span: span::SpanState,
    key: Seq<char>,
    other: Seq<char>,
    first: Value,
    second: Value,
    first_tag: Seq<char>,
    second_tag: Seq<char>,
)
    requires
        key != other,
    ensures
        span.with_data(key, first).span.data.contains_pair(key, first),
        span.with_data(key, first).span.data.get(other) == span.span.data.get(other),
        span.with_data(key, first).with_data(key, second) == span.with_data(key, second),
        span.with_tag(key, first_tag).span.tags.contains_pair(key, first_tag),
        span.with_tag(key, first_tag).span.tags.get(other) == span.span.tags.get(other),
        span.with_tag(key, first_tag).with_tag(key, second_tag) == span.with_tag(key, second_tag),
{
    assert(span.with_data(key, first).with_data(key, second).span.data =~= span.with_data(
        key,
        second,
    ).span.data);
    assert(span.with_tag(key, first_tag).with_tag(key, second_tag).span.tags =~= span.with_tag(
        key,
        second_tag,
    ).span.tags);
}

/// What is set under a key of the custom context is what the key has then, the last one wins, and
/// other keys and all else of the context are left alone.
pub proof fn law_custom_reads_back(
    context: context::TransactionContextView,
    key: Seq<char>,
    other: Seq<char>,
    first: Value,
    second: Value,
)
    requires
        key != other,
    ensures
        context.with_custom(key, first).custom->0.contains_pair(key, first),
        context.with_custom(key, first).custom->0.get(other) == context::custom_or_empty(
            context.custom,
        ).get(other),
        context.with_custom(key, first).with_custom(key, second) == context.with_custom(
            key,
            second,
        ),
        (context::TransactionContextView {
            custom: context.custom,
            ..context.with_custom(key, first)
        }) == context,
{
    assert(context.with_custom(key, first).with_custom(key, second).custom->0
        =~= context.with_custom(key, second).custom->0);
}

/// A builder that is given all details ends in the context that is created with them at once.
pub proof fn law_builder_matches_details(
    name: Seq<char>,
    op: Seq<char>,
    initial_trace_id: Seq<u8>,
    initial_span_id: Seq<u8>,
    trace_id: Seq<u8>,
    span_id: Seq<u8>,
    parent_span_id: Option<Seq<u8>>,
)
    ensures
        ({
            let built = context::TransactionContextView::root(
                name,
                op,
                initial_trace_id,
                initial_span_id,
            );
            let built = context::TransactionContextView { trace_id, ..built };
            let built = context::TransactionContextView { span_id, ..built };
            let built = context::TransactionContextView { parent_span_id, ..built };
            built == context::TransactionContextView {
                parent_span_id,
                ..context::TransactionContextView::root(name, op, trace_id, span_id)
            }
        }),
{
}

// Requests

/// The keys under which a request's values are set.
pub open spec fn request_key(key: Seq<char>) -> bool {
    ||| key == "method"@
    ||| key == "url"@
    ||| key == "data"@
    ||| key == "query_string"@
    ||| key == "cookies"@
    ||| key == "headers"@
    ||| key == "env"@
}

/// The keys under which a request's values are set are different from each other.
pub(crate) proof fn lemma_request_keys_differ()
    ensures
        "method"@ != "url"@,
        "method"@ != "data"@,
        "method"@ != "query_string"@,
        "method"@ != "cookies"@,
        "method"@ != "headers"@,
        "method"@ != "env"@,
        "url"@ != "data"@,
        "url"@ != "query_string"@,
        "url"@ != "cookies"@,
        "url"@ != "headers"@,
        "url"@ != "env"@,
        "data"@ != "query_string"@,
        "data"@ != "cookies"@,
        "data"@ != "headers"@,
        "data"@ != "env"@,
        "query_string"@ != "cookies"@,
        "query_string"@ != "headers"@,
        "query_string"@ != "env"@,
        "cookies"@ != "headers"@,
        "cookies"@ != "env"@,
        "headers"@ != "env"@,
{
    reveal_strlit("method");
    reveal_strlit("url");
    reveal_strlit("data");
    reveal_strlit("query_string");
    reveal_strlit("cookies");
    reveal_strlit("headers");
    reveal_strlit("env");
    assert("method"@[0] == 'm' && "url"@[0] == 'u' && "data"@[0] == 'd');
    assert("query_string"@[0] == 'q' && "cookies"@[0] == 'c');
    assert("headers"@[0] == 'h' && "env"@[0] == 'e');
}

/// Each value of a request is found under its own key; where the request has none, the key keeps
/// what it had; and other keys are left alone.
pub proof fn law_request_values_read_back(
    values: RequestValues,
    data: Map<Seq<char>, Value>,
    other: Seq<char>,
)
    requires
        !request_key(other),
    ensures
        ({
            let added = values.added_to(data);
            &&& added.get("method"@) == (if values.method is Some {
                values.method
            } else {
                data.get("method"@)
            })
            &&& added.get("url"@) == (if values.url is Some {
                values.url
            } else {
                data.get("url"@)
            })
            &&& added.get("data"@) == (if values.data is Some {
                values.data
            } else {
                data.get("data"@)
            })
            &&& added.get("query_string"@) == (if values.query_string is Some {
                values.query_string
            } else {
                data.get("query_string"@)
            })
            &&& added.get("cookies"@) == (if values.cookies is Some {
                values.cookies
            } else {
                data.get("cookies"@)
            })
            &&& added.get("headers"@) == (if values.headers is Some {
                values.headers
            } else {
                data.get("headers"@)
            })
            &&& added.get("env"@) == (if values.env is Some {
                values.env
            } else {
                data.get("env"@)
            })
            &&& added.get(other) == data.get(other)
        }),
{
    lemma_request_keys_differ();
}

/// A request of which nothing is known adds nothing to a span.
pub proof fn law_empty_request_adds_nothing(request: Request, data: Map<Seq<char>, Value>)
    requires
        request.url is None,
        request.method is None,
        request.data is None,
        request.query_string is None,
        request.cookies is None,
        request.headers@.is_empty(),
        request.env@.is_empty(),
    ensures
        span::request_values(request).added_to(data) == data,
{
}

// Events

/// A trace context that an event already has is kept: applying twice is applying once, and of two
/// transactions or spans the first one wins. Other contexts are left alone.
pub proof fn law_first_trace_context_is_kept(
    first: transaction_or_span::TransactionOrSpanState,
    second: transaction_or_span::TransactionOrSpanState,
    contexts: Map<Seq<char>, record::EventContextView>,
    other: Seq<char>,
)
    requires
        other != "trace"@,
    ensures
        first.applied_to(contexts).contains_key("trace"@),
        contexts.contains_key("trace"@) ==> first.applied_to(contexts) == contexts,
        !contexts.contains_key("trace"@) ==> first.applied_to(contexts)["trace"@]
            == record::EventContextView::Trace(first.event_context()),
        second.applied_to(first.applied_to(contexts)) == first.applied_to(contexts),
        first.applied_to(contexts).get(other) == contexts.get(other),
{
}

/// An event that a transaction or span is applied to is in its trace.
pub proof fn law_event_is_in_the_trace(state: transaction_or_span::TransactionOrSpanState)
    ensures
        state.event_context().trace_id == state.trace().trace_id,
        state.event_context().span_id == state.trace().span_id,
{
}

// Keys

/// The keys of a map have one order: of two different keys exactly one comes before the other.
pub proof fn law_keys_are_ordered(a: Seq<char>, b: Seq<char>)
    requires
        a != b,
    ensures
        string_map::text_before(a, b) != string_map::text_before(b, a),
{
    string_map::lemma_text_before_total(a, b);
    string_map::lemma_text_before_irreflexive(a);
    if string_map::text_before(a, b) && string_map::text_before(b, a) {
        string_map::lemma_text_before_transitive(a, b, a);
    }
}

} // verus!
