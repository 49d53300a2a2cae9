//! The `sentry-trace` header, which carries a trace from one service to the next.
use vstd::prelude::*;

use vstd::string::*;

use crate::ids::{self, SpanId, TraceId};
use crate::text::{self, split_first};

verus! {

/// A container for distributed tracing metadata that can be extracted from e.g. the `sentry-trace`
/// HTTP header.
#[derive(Debug, PartialEq, Clone, Copy)]
pub struct SentryTrace {
    pub trace_id: TraceId,
    pub span_id: SpanId,
    pub sampled: Option<bool>,
}

/// What a [`SentryTrace`] holds.
pub struct SentryTraceView {
    pub trace_id: Seq<u8>,
    pub span_id: Seq<u8>,
    pub sampled: Option<bool>,
}

impl View for SentryTrace {
    type V = SentryTraceView;

    open spec fn view(&self) -> SentryTraceView {
        SentryTraceView {
            trace_id: self.trace_id@,
            span_id: self.span_id@,
            sampled: self.sampled,
        }
    }
}

impl SentryTraceView {
    /// The header value: the two identifiers and, where there is one, the sampling decision,
    /// joined by dashes.
    pub open spec fn header(self) -> Seq<char> {
        ids::hex_text(self.trace_id) + seq!['-'] + ids::hex_text(self.span_id) + sampled_suffix(
            self.sampled,
        )
    }
}

/// What a sampling decision adds to the end of a header value.
pub open spec fn sampled_suffix(sampled: Option<bool>) -> Seq<char> {
    match sampled {
        Some(true) => seq!['-', '1'],
        Some(false) => seq!['-', '0'],
        None => Seq::<char>::empty(),
    }
}

/// The sampling decision that a header's third part stands for.
pub open spec fn sampled_flag(part: Seq<char>) -> Option<bool> {
    if part == seq!['1'] {
        Some(true)
    } else if part == seq!['0'] {
        Some(false)
    } else {
        None
    }
}

/// What a header value says, once the white space at its two ends is gone: the first two of its
/// parts, which dashes separate, are the identifiers, and what follows the second dash, if there
/// is one, is the sampling decision.
pub open spec fn parsed_trace(header: Seq<char>) -> Option<SentryTraceView> {
    match text::split_at_first(text::trim_end(text::trim_start(header)), '-') {
        None => None,
        Some((trace_id, rest)) => {
            let (span_id, sampled) = match text::split_at_first(rest, '-') {
                None => (rest, None),
                Some((span_id, flag)) => (span_id, sampled_flag(flag)),
            };
            if ids::is_id_text(trace_id, 16) && ids::is_id_text(span_id, 8) {
                Some(
                    SentryTraceView {
                        trace_id: ids::hex_bytes(trace_id),
                        span_id: ids::hex_bytes(span_id),
                        sampled,
                    },
                )
            } else {
                None
            }
        },
    }
}

/// Whether a header of this name carries a trace: the name is `sentry-trace`, in any case.
pub open spec fn is_trace_header(name: Seq<char>) -> bool {
    text::ascii_lowercase(name) == "sentry-trace"@
}

/// What the first header of `headers` that carries a trace says.
pub open spec fn traced_by(headers: Seq<(&str, &str)>) -> Option<SentryTraceView>
    decreases headers.len(),
{
    if headers.len() == 0 {
        None
    } else if is_trace_header(headers.first().0@) {
        parsed_trace(headers.first().1@)
    } else {
        traced_by(headers.drop_first())
    }
}

/// What an optional trace holds.
pub open spec fn trace_view(trace: Option<SentryTrace>) -> Option<SentryTraceView> {
    match trace {
        Some(trace) => Some(trace@),
        None => None,
    }
}

impl SentryTrace {
    /// Creates a new [`SentryTrace`] from the provided parameters
    pub fn new(trace_id: TraceId, span_id: SpanId, sampled: Option<bool>) -> (trace: Self)
        ensures
            trace == (SentryTrace { trace_id, span_id, sampled }),
    {
        SentryTrace { trace_id, span_id, sampled }
    }

    /// The trace as the value of a `sentry-trace` header.
    pub fn to_string(&self) -> (header: String)
        ensures
            header@ == self@.header(),
    {
        let mut header = self.trace_id.to_string();
        header.append("-");
        header.append(self.span_id.to_string().as_str());
        proof {
            reveal_strlit("-");
            reveal_strlit("-1");
            reveal_strlit("-0");
            assert("-"@ =~= seq!['-']);
            assert("-1"@ =~= seq!['-', '1']);
            assert("-0"@ =~= seq!['-', '0']);
        }
        if let Some(sampled) = self.sampled {
            if sampled {
                header.append("-1");
            } else {
                header.append("-0");
            }
        }
        assert(header@ =~= self@.header());
        header
    }
}

impl Default for SentryTrace {
    /// A trace with identifiers picked at random and no sampling decision.
    fn default() -> (trace: Self)
        ensures
            trace.sampled is None,
    {
        SentryTrace::new(TraceId::default(), SpanId::default(), None)
    }
}

/// Whether `part` is the one character `c`.
fn is_char(part: &str, c: char) -> (is: bool)
    ensures
        is == (part@ == seq![c]),
{
    let is = part.unicode_len() == 1 && part.get_char(0) == c;
    proof {
        if is {
            assert(part@ =~= seq![c]);
        }
    }
    is
}

/// Reads the value of a `sentry-trace` header.
pub fn parse_sentry_trace(header: &str) -> (trace: Option<SentryTrace>)
    ensures
        trace_view(trace) == parsed_trace(header@),
{
    let header = header.trim();
    let (first, rest) = match split_first(header, '-') {
        Some(parts) => parts,
        None => {
            return None;
        },
    };
    let (second, sampled) = match split_first(rest, '-') {
        Some((second, flag)) => {
            let sampled = if is_char(flag, '1') {
                Some(true)
            } else if is_char(flag, '0') {
                Some(false)
            } else {
                None
            };
            (second, sampled)
        },
        None => (rest, None),
    };
    let trace_id = match TraceId::from_str(first) {
        Some(trace_id) => trace_id,
        None => {
            return None;
        },
    };
    match SpanId::from_str(second) {
        Some(span_id) => Some(SentryTrace::new(trace_id, span_id, sampled)),
        None => None,
    }
}

/// Whether a header of this name carries a trace.
pub fn names_trace(name: &str) -> (names: bool)
    ensures
        names == is_trace_header(name@),
{
    proof {
        reveal_strlit("sentry-trace");
        assert(text::ascii_lowercase("sentry-trace"@) =~= "sentry-trace"@);
    }
    name.eq_ignore_ascii_case("sentry-trace")
}

/// Extracts distributed tracing metadata from headers (or, generally, key-value pairs),
/// considering the values for `sentry-trace`.
pub fn parse_headers(headers: &[(&str, &str)]) -> (trace: Option<SentryTrace>)
    ensures
        trace_view(trace) == traced_by(headers@),
{
    let mut i: usize = 0;
    assert(headers@.skip(0) =~= headers@);
    while i < headers.len()
        invariant
            i <= headers@.len(),
            traced_by(headers@) == traced_by(headers@.skip(i as int)),
        decreases headers@.len() - i,
    {
        let (name, value) = headers[i];
        proof {
            assert(headers@.skip(i as int).first() == headers@[i as int]);
            assert(headers@.skip(i as int).drop_first() =~= headers@.skip(i as int + 1));
        }
        if names_trace(name) {
            return parse_sentry_trace(value);
        }
        i += 1;
    }
    None
}

/// Represents a key-value pair such as an HTTP header.
pub type TraceHeader = (&'static str, String);

/// An iterator over HTTP header names and values needed for distributed tracing.
///
/// This currently only yields the `sentry-trace` header, but other headers
/// may be added in the future.
pub struct TraceHeadersIter {
    pub(crate) sentry_trace: Option<String>,
}

impl View for TraceHeadersIter {
    type V = Option<Seq<char>>;

    /// The value of the `sentry-trace` header that is still to come.
    open(crate) spec fn view(&self) -> Option<Seq<char>> {
        match self.sentry_trace {
            Some(value) => Some(value@),
            None => None,
        }
    }
}

impl TraceHeadersIter {
    /// Yields the `sentry-trace` header with the given value.
    pub fn new(sentry_trace: String) -> (headers: Self)
        ensures
            headers@ == Some(sentry_trace@),
    {
        TraceHeadersIter { sentry_trace: Some(sentry_trace) }
    }

    /// The next header, as its name and its value.
    pub fn next(&mut self) -> (header: Option<TraceHeader>)
        ensures
            final(self)@ is None,
            match header {
                Some((name, value)) => name@ == "sentry-trace"@ && old(self)@ == Some(value@),
                None => old(self)@ is None,
            },
    {
        match self.sentry_trace.take() {
            Some(value) => Some(("sentry-trace", value)),
            None => None,
        }
    }
}

} // verus!
