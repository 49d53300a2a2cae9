//! What each operation gives for what it is given: laws over the calls themselves, stated on the
//! texts, identifiers and fields that go in and come out.
use vstd::prelude::*;

use sentry_types::protocol::v7::SpanStatus;
use serde_json::Value;
use std::time::SystemTime;

use crate::context::{TransactionContext, TransactionContextBuilder, TransactionContextView};
use crate::hub::{self, Hub};
use crate::ids::{self, SpanId, TraceId};
use crate::json;
use crate::laws;
use crate::record::{self, Client, EventContext, EventContextView, Request, SpanView};
use crate::sampling;
use crate::span::{self, Data, RequestValues, Span, SpanState};
use crate::string_map::{self, StringMap};
use crate::text;
use crate::trace::{self, SentryTrace, TraceHeadersIter};
use crate::transaction::{
    self, FinishedTransaction, Transaction, TransactionData, TransactionState,
};
use crate::transaction_or_span::{TransactionOrSpan, TransactionOrSpanState};

verus! {

// Identifiers

/// Whether `c` is the letter or digit `lower`, in either case.
pub open spec fn spells(c: char, lower: char) -> bool {
    c == lower || ('A' <= c <= 'Z' && c as int + 32 == lower as int)
}

/// Whether `c` is a hexadecimal digit, in either case.
pub open spec fn is_hex(c: char) -> bool {
    '0' <= c <= '9' || 'a' <= c <= 'f' || 'A' <= c <= 'F'
}

/// Whether two hexadecimal digits, in either case, stand for a byte.
pub open spec fn spell_byte(high: char, low: char, byte: u8) -> bool {
    &&& spells(high, "0123456789abcdef"@[byte as int / 16])
    &&& spells(low, "0123456789abcdef"@[byte as int % 16])
}

/// Whether `digits` are hexadecimal digits, in either case, that stand for `bytes`.
pub open spec fn spell_bytes(digits: Seq<char>, bytes: Seq<u8>) -> bool {
    &&& digits.len() == 2 * bytes.len()
    &&& forall|i: int|
        0 <= i < bytes.len() ==> spell_byte(digits[2 * i], digits[2 * i + 1], #[trigger] bytes[i])
}

/// Whether all of `digits` are hexadecimal digits.
pub open spec fn all_hex(digits: Seq<char>) -> bool {
    forall|i: int| 0 <= i < digits.len() ==> is_hex(#[trigger] digits[i])
}

/// The digits that are read as an identifier spell its bytes.
proof fn lemma_spelled(digits: Seq<char>, size: nat)
    requires
        digits.len() == 2 * size,
    ensures
        ids::is_id_text(digits, size) <==> all_hex(digits),
        ids::is_id_text(digits, size) ==> spell_bytes(digits, ids::hex_bytes(digits)),
{
    reveal_strlit("0123456789abcdef");
    assert forall|i: int| 0 <= i < digits.len() implies (ids::digit_value(#[trigger] digits[i])
        is Some <==> is_hex(digits[i])) by {}
    if ids::is_id_text(digits, size) {
        let bytes = ids::hex_bytes(digits);
        assert forall|i: int| 0 <= i < bytes.len() implies spell_byte(
            digits[2 * i],
            digits[2 * i + 1],
            #[trigger] bytes[i],
        ) by {
            let high = ids::digit_value(digits[2 * i]);
            let low = ids::digit_value(digits[2 * i + 1]);
            assert(high is Some && low is Some);
            assert(bytes[i] as int == 16 * high->0 + low->0);
            assert(bytes[i] as int / 16 == high->0 && bytes[i] as int % 16 == low->0);
        }
    }
    if all_hex(digits) {
        assert forall|i: int| 0 <= i < digits.len() implies ids::digit_value(#[trigger] digits[i])
            is Some by {
            assert(is_hex(digits[i]));
        }
    }
}

/// A trace identifier is read from exactly the texts of 32 hexadecimal digits, in either case, two
/// for each of its bytes.
pub proof fn law_trace_id_is_read(content: &str, id: Option<TraceId>)
    requires
        call_ensures(TraceId::from_str, (content,), id),
    ensures
        id is Some <==> content@.len() == 32 && all_hex(content@),
        id matches Some(id) ==> spell_bytes(content@, id@),
{
    if content@.len() == 32 {
        lemma_spelled(content@, 16);
    }
}

/// A span identifier is read from exactly the texts of 16 hexadecimal digits, in either case, two
/// for each of its bytes.
pub proof fn law_span_id_is_read(content: &str, id: Option<SpanId>)
    requires
        call_ensures(SpanId::from_str, (content,), id),
    ensures
        id is Some <==> content@.len() == 16 && all_hex(content@),
        id matches Some(id) ==> spell_bytes(content@, id@),
{
    if content@.len() == 16 {
        lemma_spelled(content@, 8);
    }
}

/// Whether `digits` are the lower case hexadecimal digits of `bytes`, two for each.
pub open spec fn lower_digits_of(digits: Seq<char>, bytes: Seq<u8>) -> bool {
    &&& digits.len() == 2 * bytes.len()
    &&& forall|i: int|
        0 <= i < bytes.len() ==> {
            &&& digits[2 * i] == "0123456789abcdef"@[#[trigger] bytes[i] as int / 16]
            &&& digits[2 * i + 1] == "0123456789abcdef"@[bytes[i] as int % 16]
        }
}

/// An identifier is written in the lower case digits of its bytes.
proof fn lemma_written(bytes: Seq<u8>)
    ensures
        lower_digits_of(ids::hex_text(bytes), bytes),
{
    reveal_strlit("0123456789abcdef");
    assert forall|i: int| 0 <= i < bytes.len() implies {
        &&& ids::hex_text(bytes)[2 * i] == "0123456789abcdef"@[#[trigger] bytes[i] as int / 16]
        &&& ids::hex_text(bytes)[2 * i + 1] == "0123456789abcdef"@[bytes[i] as int % 16]
    } by {
        assert((2 * i) % 2 == 0 && (2 * i) / 2 == i);
        assert((2 * i + 1) % 2 == 1 && (2 * i + 1) / 2 == i);
    }
}

/// An identifier is written in lower case hexadecimal digits, two for each of its bytes.
pub proof fn law_trace_id_is_written(id: &TraceId, digits: String)
    requires
        call_ensures(TraceId::to_string, (id,), digits),
    ensures
        lower_digits_of(digits@, id@),
{
    lemma_written(id@);
}

/// The same holds of a span identifier.
pub proof fn law_span_id_is_written(id: &SpanId, digits: String)
    requires
        call_ensures(SpanId::to_string, (id,), digits),
    ensures
        lower_digits_of(digits@, id@),
{
    lemma_written(id@);
}

// Headers

/// A header carries a trace exactly if its name is `sentry-trace`, in any mixture of cases.
pub proof fn law_trace_header_name(name: &str, names: bool)
    requires
        call_ensures(trace::names_trace, (name,), names),
    ensures
        names <==> name@.len() == 12 && forall|i: int|
            0 <= i < 12 ==> spells(#[trigger] name@[i], "sentry-trace"@[i]),
{
    reveal_strlit("sentry-trace");
    let lower = text::ascii_lowercase(name@);
    if names {
        assert forall|i: int| 0 <= i < 12 implies spells(#[trigger] name@[i], "sentry-trace"@[i]) by {
            assert(lower[i] == "sentry-trace"@[i]);
        }
    }
    if name@.len() == 12 && forall|i: int|
        0 <= i < 12 ==> spells(#[trigger] name@[i], "sentry-trace"@[i]) {
        assert forall|i: int| 0 <= i < 12 implies lower[i] == "sentry-trace"@[i] by {
            assert(spells(name@[i], "sentry-trace"@[i]));
        }
        assert(lower =~= "sentry-trace"@);
    }
}

/// Whether two optional traces are the same.
pub open spec fn same_trace(a: Option<SentryTrace>, b: Option<SentryTrace>) -> bool {
    match (a, b) {
        (Some(a), Some(b)) => {
            &&& a.trace_id@ == b.trace_id@
            &&& a.span_id@ == b.span_id@
            &&& a.sampled == b.sampled
        },
        (None, None) => true,
        _ => false,
    }
}

/// A header of another name can stand anywhere without a difference.
proof fn lemma_other_header(
    before: Seq<(&str, &str)>,
    name: &str,
    value: &str,
    after: Seq<(&str, &str)>,
)
    requires
        text::ascii_lowercase(name@) != "sentry-trace"@,
    ensures
        trace::traced_by(before + seq![(name, value)] + after) == trace::traced_by(before + after),
    decreases before.len(),
{
    let with = before + seq![(name, value)] + after;
    let without = before + after;
    if before.len() == 0 {
        assert(with.first() == (name, value));
        assert(with.drop_first() =~= after);
        assert(without =~= after);
    } else {
        assert(with.first() == before[0] && without.first() == before[0]);
        assert(with.drop_first() =~= before.drop_first() + seq![(name, value)] + after);
        assert(without.drop_first() =~= before.drop_first() + after);
        lemma_other_header(before.drop_first(), name, value, after);
    }
}

/// A header of any other name than `sentry-trace` makes no difference, wherever among the headers
/// it stands and whatever its value is.
pub proof fn law_other_header_makes_no_difference(
    before: Seq<(&str, &str)>,
    name: &str,
    value: &str,
    after: Seq<(&str, &str)>,
    headers: &[(&str, &str)],
    longer: &[(&str, &str)],
    found: Option<SentryTrace>,
    found_longer: Option<SentryTrace>,
)
    requires
        text::ascii_lowercase(name@) != "sentry-trace"@,
        headers@ == before + after,
        longer@ == before + seq![(name, value)] + after,
        call_ensures(trace::parse_headers, (headers,), found),
        call_ensures(trace::parse_headers, (longer,), found_longer),
    ensures
        same_trace(found, found_longer),
{
    lemma_other_header(before, name, value, after);
}

/// A header of the name `sentry-trace`, in any case, that stands first says all: what its value is
/// read as is what is found, whatever headers follow.
pub proof fn law_first_header_says_all(
    name: &str,
    value: &str,
    after: Seq<(&str, &str)>,
    headers: &[(&str, &str)],
    found: Option<SentryTrace>,
    read: Option<SentryTrace>,
)
    requires
        text::ascii_lowercase(name@) == "sentry-trace"@,
        headers@ == seq![(name, value)] + after,
        call_ensures(trace::parse_headers, (headers,), found),
        call_ensures(trace::parse_sentry_trace, (value,), read),
    ensures
        same_trace(found, read),
{
    assert(headers@.first() == (name, value));
}

/// Where there is no header, there is no trace.
pub proof fn law_no_header_no_trace(headers: &[(&str, &str)], found: Option<SentryTrace>)
    requires
        headers@.len() == 0,
        call_ensures(trace::parse_headers, (headers,), found),
    ensures
        found is None,
{
}

/// Whether a character is white space.
pub open spec fn is_blank(c: char) -> bool {
    "\t\n\u{b}\u{c}\r \u{85}\u{a0}\u{1680}\u{2000}\u{2001}\u{2002}\u{2003}\u{2004}\u{2005}\u{2006}\u{2007}\u{2008}\u{2009}\u{200a}\u{2028}\u{2029}\u{202f}\u{205f}\u{3000}"@.contains(
        c,
    )
}

/// The characters that are trimmed are the white space ones.
proof fn lemma_blank(c: char)
    ensures
        is_blank(c) <==> text::is_white_space(c),
{
    reveal_strlit(
        "\t\n\u{b}\u{c}\r \u{85}\u{a0}\u{1680}\u{2000}\u{2001}\u{2002}\u{2003}\u{2004}\u{2005}\u{2006}\u{2007}\u{2008}\u{2009}\u{200a}\u{2028}\u{2029}\u{202f}\u{205f}\u{3000}",
    );
    let blanks =
        "\t\n\u{b}\u{c}\r \u{85}\u{a0}\u{1680}\u{2000}\u{2001}\u{2002}\u{2003}\u{2004}\u{2005}\u{2006}\u{2007}\u{2008}\u{2009}\u{200a}\u{2028}\u{2029}\u{202f}\u{205f}\u{3000}"@;
    assert(blanks.len() == 25);
    if text::is_white_space(c) {
        let code = c as int;
        let i: int = if code <= 0x0d {
            code - 9
        } else if code == 0x20 {
            5
        } else if code == 0x85 {
            6
        } else if code == 0xa0 {
            7
        } else if code == 0x1680 {
            8
        } else if code <= 0x200a {
            code - 0x2000 + 9
        } else if code == 0x2028 {
            20
        } else if code == 0x2029 {
            21
        } else if code == 0x202f {
            22
        } else if code == 0x205f {
            23
        } else {
            24
        };
        assert(blanks[i] == c);
    }
}

/// Whether `header` consists of the digits of a trace and of a span identifier and, where there is
/// one, of a third part, joined by dashes, with nothing but white space around them.
pub open spec fn trace_header(
    header: Seq<char>,
    before: Seq<char>,
    trace_digits: Seq<char>,
    span_digits: Seq<char>,
    third: Option<Seq<char>>,
    after: Seq<char>,
) -> bool {
    &&& forall|i: int| 0 <= i < before.len() ==> is_blank(#[trigger] before[i])
    &&& forall|i: int| 0 <= i < after.len() ==> is_blank(#[trigger] after[i])
    &&& trace_digits.len() == 32
    &&& all_hex(trace_digits)
    &&& span_digits.len() == 16
    &&& all_hex(span_digits)
    &&& match third {
        Some(third) => {
            &&& third.len() > 0 ==> !is_blank(third.last())
            &&& header == before + (trace_digits + seq!['-'] + (span_digits + seq!['-'] + third))
                + after
        },
        None => header == before + (trace_digits + seq!['-'] + span_digits) + after,
    }
}

/// A header of the shape of a trace header is read: the identifiers are those of its digits, and
/// the third part decides on sampling if it is `1` or `0`, and does not decide otherwise.
pub proof fn law_trace_header_is_read(
    header: &str,
    before: Seq<char>,
    trace_digits: Seq<char>,
    span_digits: Seq<char>,
    third: Option<Seq<char>>,
    after: Seq<char>,
    read: Option<SentryTrace>,
)
    requires
        trace_header(header@, before, trace_digits, span_digits, third, after),
        call_ensures(trace::parse_sentry_trace, (header,), read),
    ensures
        read matches Some(read) && {
            &&& spell_bytes(trace_digits, read.trace_id@)
            &&& spell_bytes(span_digits, read.span_id@)
            &&& read.sampled == Some(true) <==> third == Some(seq!['1'])
            &&& read.sampled == Some(false) <==> third == Some(seq!['0'])
        },
{
    let rest = match third {
        Some(third) => span_digits + seq!['-'] + third,
        None => span_digits,
    };
    let core = trace_digits + seq!['-'] + rest;
    assert forall|c: char| is_blank(c) <==> #[trigger] text::is_white_space(c) by {
        lemma_blank(c);
    }
    assert forall|i: int| 0 <= i < before.len() implies text::is_white_space(
        #[trigger] before[i],
    ) by {
        assert(is_blank(before[i]));
    }
    assert forall|i: int| 0 <= i < after.len() implies text::is_white_space(#[trigger] after[i]) by {
        assert(is_blank(after[i]));
    }
    laws::law_header_white_space_is_ignored(before, core, after);
    lemma_spelled(trace_digits, 16);
    lemma_spelled(span_digits, 8);
    assert(is_hex(trace_digits[0]) && is_hex(span_digits[15]));
    assert(core.first() == trace_digits[0]);
    assert(core.last() == rest.last());
    laws::lemma_trim_nothing(core);
    assert(!trace_digits.contains('-')) by {
        assert forall|i: int| 0 <= i < trace_digits.len() implies trace_digits[i] != '-' by {
            assert(is_hex(trace_digits[i]));
        }
    }
    assert(!span_digits.contains('-')) by {
        assert forall|i: int| 0 <= i < span_digits.len() implies span_digits[i] != '-' by {
            assert(is_hex(span_digits[i]));
        }
    }
    laws::lemma_split(trace_digits, rest, '-');
    match third {
        Some(third) => {
            laws::lemma_split(span_digits, third, '-');
            assert(seq!['0'][0] != seq!['1'][0]);
        },
        None => {
            text::lemma_prefix_len_whole(span_digits, '-');
        },
    }
}

/// What is trimmed at the start of a text is white space.
proof fn lemma_trimmed_start(whole: Seq<char>) -> (before: Seq<char>)
    ensures
        whole == before + text::trim_start(whole),
        forall|i: int| 0 <= i < before.len() ==> text::is_white_space(#[trigger] before[i]),
    decreases whole.len(),
{
    if whole.len() > 0 && text::is_white_space(whole.first()) {
        let rest = lemma_trimmed_start(whole.drop_first());
        let before = seq![whole.first()] + rest;
        assert(whole =~= seq![whole.first()] + whole.drop_first());
        assert(whole =~= before + text::trim_start(whole));
        assert forall|i: int| 0 <= i < before.len() implies text::is_white_space(
            #[trigger] before[i],
        ) by {
            if i > 0 {
                assert(before[i] == rest[i - 1]);
            }
        }
        before
    } else {
        assert(whole =~= Seq::<char>::empty() + whole);
        Seq::empty()
    }
}

/// What is trimmed at the end of a text is white space, and what is left does not end with any.
proof fn lemma_trimmed_end(whole: Seq<char>) -> (after: Seq<char>)
    ensures
        whole == text::trim_end(whole) + after,
        forall|i: int| 0 <= i < after.len() ==> text::is_white_space(#[trigger] after[i]),
        text::trim_end(whole).len() > 0 ==> !text::is_white_space(text::trim_end(whole).last()),
    decreases whole.len(),
{
    if whole.len() > 0 && text::is_white_space(whole.last()) {
        let rest = lemma_trimmed_end(whole.drop_last());
        let after = rest + seq![whole.last()];
        assert(whole =~= whole.drop_last() + seq![whole.last()]);
        assert(whole =~= text::trim_end(whole) + after);
        assert forall|i: int| 0 <= i < after.len() implies text::is_white_space(
            #[trigger] after[i],
        ) by {
            if i < rest.len() {
                assert(after[i] == rest[i]);
            }
        }
        after
    } else {
        assert(whole =~= whole + Seq::<char>::empty());
        Seq::empty()
    }
}

/// The two sides of the first delimiter make up the text.
proof fn lemma_split_parts(whole: Seq<char>, delimiter: char)
    ensures
        text::split_at_first(whole, delimiter) matches Some((before, after)) ==> whole == before
            + seq![delimiter] + after,
    decreases whole.len(),
{
    if whole.len() > 0 && whole.first() != delimiter {
        lemma_split_parts(whole.drop_first(), delimiter);
        match text::split_at_first(whole.drop_first(), delimiter) {
            Some((before, after)) => {
                let n = text::prefix_len(whole, delimiter) as int;
                assert(whole.drop_first()[n - 1] == (before + seq![delimiter] + after)[n - 1]);
                assert(whole =~= whole.take(n) + seq![delimiter] + whole.skip(n + 1));
            },
            None => {},
        }
    } else if whole.len() > 0 {
        assert(whole =~= whole.take(0) + seq![delimiter] + whole.skip(1));
    }
}

/// Nothing is read from a text of another shape than that of a trace header.
pub proof fn law_other_text_is_not_read(header: &str, read: Option<SentryTrace>)
    requires
        call_ensures(trace::parse_sentry_trace, (header,), read),
        forall|
            before: Seq<char>,
            trace_digits: Seq<char>,
            span_digits: Seq<char>,
            third: Option<Seq<char>>,
            after: Seq<char>,
        |
            !#[trigger] trace_header(
                header@,
                before,
                trace_digits,
                span_digits,
                third,
                after,
            ),
    ensures
        read is None,
{
    if read is Some {
        assert forall|c: char| #[trigger] is_blank(c) <==> text::is_white_space(c) by {
            lemma_blank(c);
        }
        let left = text::trim_start(header@);
        let before = lemma_trimmed_start(header@);
        let after = lemma_trimmed_end(left);
        let core = text::trim_end(left);
        lemma_split_parts(core, '-');
        let (trace_digits, rest) = text::split_at_first(core, '-')->0;
        lemma_split_parts(rest, '-');
        match text::split_at_first(rest, '-') {
            Some((span_digits, third)) => {
                lemma_spelled(trace_digits, 16);
                lemma_spelled(span_digits, 8);
                if third.len() > 0 {
                    assert(core.last() == third.last());
                }
                assert(header@ =~= before + core + after);
                assert(trace_header(
                    header@,
                    before,
                    trace_digits,
                    span_digits,
                    Some(third),
                    after,
                ));
            },
            None => {
                lemma_spelled(trace_digits, 16);
                lemma_spelled(rest, 8);
                assert(header@ =~= before + core + after);
                assert(trace_header(header@, before, trace_digits, rest, None, after));
            },
        }
    }
}

/// Whether `header` is the value of a header: the digits of the trace and of the span identifier
/// and, where there is one, the sampling decision, joined by dashes.
pub open spec fn header_of(
    header: Seq<char>,
    trace_id: Seq<u8>,
    span_id: Seq<u8>,
    sampled: Option<bool>,
) -> bool {
    &&& header.len() == if sampled is Some {
        51nat
    } else {
        49nat
    }
    &&& lower_digits_of(header.subrange(0, 32), trace_id)
    &&& header[32] == '-'
    &&& lower_digits_of(header.subrange(33, 49), span_id)
    &&& sampled matches Some(sampled) ==> {
        &&& header[49] == '-'
        &&& header[50] == if sampled {
            '1'
        } else {
            '0'
        }
    }
}

/// What a trace is written as is the value of its header.
proof fn lemma_header(sent: trace::SentryTraceView)
    requires
        sent.trace_id.len() == 16,
        sent.span_id.len() == 8,
    ensures
        header_of(sent.header(), sent.trace_id, sent.span_id, sent.sampled),
{
    lemma_written(sent.trace_id);
    lemma_written(sent.span_id);
    assert(sent.header().subrange(0, 32) =~= ids::hex_text(sent.trace_id));
    assert(sent.header().subrange(33, 49) =~= ids::hex_text(sent.span_id));
}

/// A trace is written as its two identifiers and its sampling decision.
pub proof fn law_trace_is_written(sent: &SentryTrace, header: String)
    requires
        call_ensures(SentryTrace::to_string, (sent,), header),
    ensures
        header_of(header@, sent.trace_id@, sent.span_id@, sent.sampled),
{
    lemma_header(sent@);
}

/// What a trace is written as is read as the trace again.
pub proof fn law_written_trace_is_read(
    sent: &SentryTrace,
    header: &str,
    written: String,
    read: Option<SentryTrace>,
)
    requires
        call_ensures(SentryTrace::to_string, (sent,), written),
        header@ == written@,
        call_ensures(trace::parse_sentry_trace, (header,), read),
    ensures
        same_trace(read, Some(*sent)),
{
    laws::law_header_reads_back(*sent);
}

/// A trace holds the identifiers and the decision that it was made from.
pub proof fn law_trace_is_made(
    trace_id: TraceId,
    span_id: SpanId,
    sampled: Option<bool>,
    made: SentryTrace,
)
    requires
        call_ensures(SentryTrace::new, (trace_id, span_id, sampled), made),
    ensures
        made.trace_id@ == trace_id@,
        made.span_id@ == span_id@,
        made.sampled == sampled,
{
}

/// The headers of a trace are one: `sentry-trace`, with the value that was given.
pub proof fn law_headers_yield_one(
    value: String,
    headers: &mut TraceHeadersIter,
    first: Option<(&'static str, String)>,
)
    requires
        call_ensures(TraceHeadersIter::new, (value,), *headers),
        call_ensures(TraceHeadersIter::next, (headers,), first),
    ensures
        first matches Some((name, first)) && name@ == "sentry-trace"@ && first@ == value@,
        final(headers)@ is None,
        old(headers)@ == Some(value@),
{
}

// Contexts

/// A context that is created anew has the name and the operation that it was given, no parent, no
/// sampling decision and no custom values.
pub proof fn law_new_context(name: &str, op: &str, context: TransactionContext)
    requires
        call_ensures(TransactionContext::new, (name, op), context),
    ensures
        context@.name == name@,
        context@.op == op@,
        context@.parent_span_id is None,
        context@.sampled is None,
        context@.custom is None,
{
}

/// The same holds where the trace identifier is given, and is the context's then.
pub proof fn law_new_context_with_trace_id(
    name: &str,
    op: &str,
    trace_id: TraceId,
    context: TransactionContext,
)
    requires
        call_ensures(TransactionContext::new_with_trace_id, (name, op, trace_id), context),
    ensures
        context@.name == name@,
        context@.op == op@,
        context@.trace_id == trace_id@,
        context@.parent_span_id is None,
        context@.sampled is None,
        context@.custom is None,
{
}

/// Whether `bytes` are those of an optional identifier.
pub open spec fn optional_id(bytes: Option<Seq<u8>>, id: Option<SpanId>) -> bool {
    match id {
        Some(id) => bytes == Some(id@),
        None => bytes is None,
    }
}

/// Details that are given to a context are those that it has.
pub proof fn law_new_context_with_details(
    name: &str,
    op: &str,
    trace_id: TraceId,
    span_id: Option<SpanId>,
    parent_span_id: Option<SpanId>,
    context: TransactionContext,
)
    requires
        call_ensures(
            TransactionContext::new_with_details,
            (name, op, trace_id, span_id, parent_span_id),
            context,
        ),
    ensures
        context@.name == name@,
        context@.op == op@,
        context@.trace_id == trace_id@,
        span_id matches Some(id) ==> context@.span_id == id@,
        optional_id(context@.parent_span_id, parent_span_id),
        context@.sampled is None,
        context@.custom is None,
{
}

/// Whether a context goes on with a trace: it is in the trace, stands below its span and has its
/// sampling decision, and has the name and the operation that it was given.
pub open spec fn goes_on(
    context: TransactionContextView,
    name: Seq<char>,
    op: Seq<char>,
    trace_id: Seq<u8>,
    parent_span_id: Seq<u8>,
    sampled: Option<bool>,
) -> bool {
    &&& context.name == name
    &&& context.op == op
    &&& context.trace_id == trace_id
    &&& context.parent_span_id == Some(parent_span_id)
    &&& context.sampled == sampled
    &&& context.custom is None
}

/// A context goes on with the trace that was found in the headers; where none was found, it has
/// neither parent nor decision.
pub proof fn law_context_goes_on_from_headers(
    name: &str,
    op: &str,
    headers: &[(&str, &str)],
    found: Option<SentryTrace>,
    context: TransactionContext,
)
    requires
        call_ensures(trace::parse_headers, (headers,), found),
        call_ensures(TransactionContext::continue_from_headers, (name, op, headers), context),
    ensures
        match found {
            Some(found) => goes_on(
                context@,
                name@,
                op@,
                found.trace_id@,
                found.span_id@,
                found.sampled,
            ),
            None => {
                &&& context@.name == name@
                &&& context@.op == op@
                &&& context@.parent_span_id is None
                &&& context@.sampled is None
                &&& context@.custom is None
            },
        },
{
}

/// A context goes on with the trace that it was given, under the span identifier that it was given,
/// if any.
pub proof fn law_context_goes_on_from_trace(
    name: &str,
    op: &str,
    sent: &SentryTrace,
    span_id: Option<SpanId>,
    context: TransactionContext,
)
    requires
        call_ensures(
            TransactionContext::continue_from_sentry_trace,
            (name, op, sent, span_id),
            context,
        ),
    ensures
        goes_on(context@, name@, op@, sent.trace_id@, sent.span_id@, sent.sampled),
        span_id matches Some(id) ==> context@.span_id == id@,
{
}

/// A context goes on from a transaction or span: below the transaction's root span or the span
/// itself. Without either, it starts a trace of its own.
pub proof fn law_context_goes_on_from_span(
    name: &str,
    op: &str,
    span: Option<&TransactionOrSpan<'_>>,
    context: TransactionContext,
)
    requires
        call_ensures(TransactionContext::continue_from_span, (name, op, span), context),
    ensures
        match span {
            Some(TransactionOrSpan::Transaction(transaction)) => goes_on(
                context@,
                name@,
                op@,
                (*transaction)@.context.trace_id,
                (*transaction)@.context.span_id,
                Some((*transaction)@.sampled),
            ),
            Some(TransactionOrSpan::Span(span, _)) => goes_on(
                context@,
                name@,
                op@,
                (*span)@.span.trace_id,
                (*span)@.span.span_id,
                Some((*span)@.sampled),
            ),
            None => {
                &&& context@.name == name@
                &&& context@.op == op@
                &&& context@.parent_span_id is None
                &&& context@.sampled is None
                &&& context@.custom is None
            },
        },
{
}

/// A flag that is set as the sampling decision is the decision, and nothing else changes.
pub proof fn law_flag_is_the_decision(context: &mut TransactionContext, sampled: bool)
    requires
        call_ensures(TransactionContext::set_sampled::<bool>, (context, sampled), ()),
    ensures
        final(context)@.sampled == Some(sampled),
        (TransactionContextView { sampled: old(context)@.sampled, ..final(context)@ }) == old(
            context,
        )@,
{
}

/// The same holds of an optional flag.
pub proof fn law_optional_flag_is_the_decision(
    context: &mut TransactionContext,
    sampled: Option<bool>,
)
    requires
        call_ensures(TransactionContext::set_sampled::<Option<bool>>, (context, sampled), ()),
    ensures
        final(context)@.sampled == sampled,
        (TransactionContextView { sampled: old(context)@.sampled, ..final(context)@ }) == old(
            context,
        )@,
{
}

/// Whether a custom value was set: its key has it, every other key has what it had, and all else
/// is as before.
pub open spec fn custom_set(
    before: TransactionContextView,
    after: TransactionContextView,
    key: Seq<char>,
    value: Value,
) -> bool {
    &&& after.custom matches Some(entries) && {
        &&& entries.get(key) == Some(value)
        &&& forall|other: Seq<char>|
            other != key ==> #[trigger] entries.get(other) == (match before.custom {
                Some(earlier) => earlier.get(other),
                None => None,
            })
    }
    &&& after.name == before.name
    &&& after.op == before.op
    &&& after.trace_id == before.trace_id
    &&& after.parent_span_id == before.parent_span_id
    &&& after.span_id == before.span_id
    &&& after.sampled == before.sampled
}

/// A custom value that is inserted is found under its key, and what the key had comes back.
pub proof fn law_custom_value_is_inserted(
    context: &mut TransactionContext,
    key: String,
    value: Value,
    previous: Option<Value>,
)
    requires
        call_ensures(TransactionContext::custom_insert, (context, key, value), previous),
    ensures
        custom_set(old(context)@, final(context)@, key@, value),
        previous == (match old(context)@.custom {
            Some(earlier) => earlier.get(key@),
            None => None,
        }),
{
}

/// A builder sets a custom value as a context does.
pub proof fn law_custom_value_is_built(
    builder: TransactionContextBuilder,
    key: String,
    value: Value,
    built: TransactionContextBuilder,
)
    requires
        call_ensures(TransactionContextBuilder::with_custom, (builder, key, value), built),
    ensures
        custom_set(builder@, built@, key@, value),
{
}

/// A builder starts with the name and the operation that it was given, and nothing else.
pub proof fn law_builder_starts_anew(name: &str, op: &str, builder: TransactionContextBuilder)
    requires
        call_ensures(TransactionContext::builder, (name, op), builder),
    ensures
        builder@.name == name@,
        builder@.op == op@,
        builder@.parent_span_id is None,
        builder@.sampled is None,
        builder@.custom is None,
{
}

/// A builder that is given a name takes it, and nothing else of it changes.
pub proof fn law_builder_sets_name(
    builder: TransactionContextBuilder,
    name: String,
    built: TransactionContextBuilder,
)
    requires
        call_ensures(TransactionContextBuilder::with_name, (builder, name), built),
    ensures
        built@.name == name@,
        builder@ == (TransactionContextView { name: builder@.name, ..built@ }),
{
}

/// The same holds of the operation.
pub proof fn law_builder_sets_op(
    builder: TransactionContextBuilder,
    op: String,
    built: TransactionContextBuilder,
)
    requires
        call_ensures(TransactionContextBuilder::with_op, (builder, op), built),
    ensures
        built@.op == op@,
        builder@ == (TransactionContextView { op: builder@.op, ..built@ }),
{
}

/// The same holds of the trace identifier.
pub proof fn law_builder_sets_trace_id(
    builder: TransactionContextBuilder,
    trace_id: TraceId,
    built: TransactionContextBuilder,
)
    requires
        call_ensures(TransactionContextBuilder::with_trace_id, (builder, trace_id), built),
    ensures
        built@.trace_id == trace_id@,
        builder@ == (TransactionContextView { trace_id: builder@.trace_id, ..built@ }),
{
}

/// The same holds of the parent.
pub proof fn law_builder_sets_parent(
    builder: TransactionContextBuilder,
    parent_span_id: Option<SpanId>,
    built: TransactionContextBuilder,
)
    requires
        call_ensures(
            TransactionContextBuilder::with_parent_span_id,
            (builder, parent_span_id),
            built,
        ),
    ensures
        optional_id(built@.parent_span_id, parent_span_id),
        builder@ == (TransactionContextView {
            parent_span_id: builder@.parent_span_id,
            ..built@
        }),
{
}

/// The same holds of the span identifier.
pub proof fn law_builder_sets_span_id(
    builder: TransactionContextBuilder,
    span_id: SpanId,
    built: TransactionContextBuilder,
)
    requires
        call_ensures(TransactionContextBuilder::with_span_id, (builder, span_id), built),
    ensures
        built@.span_id == span_id@,
        builder@ == (TransactionContextView { span_id: builder@.span_id, ..built@ }),
{
}

/// The same holds of the sampling decision.
pub proof fn law_builder_sets_sampled(
    builder: TransactionContextBuilder,
    sampled: Option<bool>,
    built: TransactionContextBuilder,
)
    requires
        call_ensures(TransactionContextBuilder::with_sampled, (builder, sampled), built),
    ensures
        built@.sampled == sampled,
        builder@ == (TransactionContextView { sampled: builder@.sampled, ..built@ }),
{
}

/// The context that a builder ends in is the one that it has built.
pub proof fn law_builder_finishes(
    builder: TransactionContextBuilder,
    context: TransactionContext,
)
    requires
        call_ensures(TransactionContextBuilder::finish, (builder,), context),
    ensures
        context@ == builder@,
{
}

/// A context tells what it was created with.
pub proof fn law_context_tells_what_it_was_given(
    name: &str,
    op: &str,
    trace_id: TraceId,
    span_id: SpanId,
    parent_span_id: Option<SpanId>,
    context: TransactionContext,
    told_name: &str,
    told_op: &str,
    told_trace_id: TraceId,
    told_span_id: SpanId,
    told_sampled: Option<bool>,
)
    requires
        call_ensures(
            TransactionContext::new_with_details,
            (name, op, trace_id, Some(span_id), parent_span_id),
            context,
        ),
        call_ensures(TransactionContext::name, (&context,), told_name),
        call_ensures(TransactionContext::operation, (&context,), told_op),
        call_ensures(TransactionContext::trace_id, (&context,), told_trace_id),
        call_ensures(TransactionContext::span_id, (&context,), told_span_id),
        call_ensures(TransactionContext::sampled, (&context,), told_sampled),
    ensures
        told_name@ == name@,
        told_op@ == op@,
        told_trace_id@ == trace_id@,
        told_span_id@ == span_id@,
        told_sampled is None,
{
}

// Sampling

/// A sampler that is given chooses the rate, whatever the context and the configured rate say.
pub proof fn law_sampler_chooses_rate<R, S: Fn(&TransactionContext) -> R>(
    sampler: &S,
    context: &TransactionContext,
    configured: R,
    always: R,
    never: R,
    rate: R,
)
    requires
        call_ensures(
            sampling::transaction_sample_rate::<R, S>,
            (Some(sampler), context, configured, always, never),
            rate,
        ),
    ensures
        call_ensures(*sampler, (context,), rate),
{
}

/// Without a sampler the decision of the context chooses the rate; without a decision the rate is
/// the one that is configured.
pub proof fn law_decision_chooses_rate<R, S: Fn(&TransactionContext) -> R>(
    context: &TransactionContext,
    configured: R,
    always: R,
    never: R,
    rate: R,
)
    requires
        call_ensures(
            sampling::transaction_sample_rate::<R, S>,
            (None::<&S>, context, configured, always, never),
            rate,
        ),
    ensures
        context@.sampled == Some(true) ==> rate == always,
        context@.sampled == Some(false) ==> rate == never,
        context@.sampled is None ==> rate == configured,
{
}

/// Whether a transaction is sampled is decided on the rate that was chosen for it.
pub proof fn law_rate_is_decided_on<R, S: Fn(&TransactionContext) -> R, D: Fn(R) -> bool>(
    context: &TransactionContext,
    configured: R,
    always: R,
    never: R,
    decide: &D,
    sampled: bool,
)
    requires
        call_ensures(
            sampling::is_transaction_sampled::<R, S, D>,
            (None::<&S>, context, configured, always, never, decide),
            sampled,
        ),
    ensures
        context@.sampled == Some(true) ==> call_ensures(*decide, (always,), sampled),
        context@.sampled == Some(false) ==> call_ensures(*decide, (never,), sampled),
        context@.sampled is None ==> call_ensures(*decide, (configured,), sampled),
{
}

/// With a sampler, it is decided on a rate that the sampler chose.
pub proof fn law_sampler_rate_is_decided_on<
    R,
    S: Fn(&TransactionContext) -> R,
    D: Fn(R) -> bool,
>(
    sampler: &S,
    context: &TransactionContext,
    configured: R,
    always: R,
    never: R,
    decide: &D,
    sampled: bool,
)
    requires
        call_ensures(
            sampling::is_transaction_sampled::<R, S, D>,
            (Some(sampler), context, configured, always, never, decide),
            sampled,
        ),
    ensures
        exists|rate: R| #[trigger]
            call_ensures(*sampler, (context,), rate) && call_ensures(*decide, (rate,), sampled),
{
}

// Starting transactions

/// Whether a transaction was just started from `context` with `client`: its trace context has the
/// identifiers and the operation of the context and nothing else, and there is something to send,
/// with the name of the context and nothing else, exactly if there is a client.
pub open spec fn just_started(
    started: TransactionState,
    client: Option<Client>,
    context: TransactionContextView,
) -> bool {
    &&& started.context.trace_id == context.trace_id
    &&& started.context.span_id == context.span_id
    &&& started.context.parent_span_id == context.parent_span_id
    &&& started.context.op == Some(context.op)
    &&& started.context.description is None
    &&& started.context.status is None
    &&& started.context.data == Map::<Seq<char>, Value>::empty()
    &&& match client {
        Some(client) => {
            &&& started.client == Some(client@)
            &&& started.transaction matches Some(recorded) && {
                &&& recorded.name == Some(context.name)
                &&& recorded.release is None
                &&& recorded.environment is None
                &&& recorded.user is None
                &&& recorded.tags == Map::<Seq<char>, Seq<char>>::empty()
                &&& recorded.extra == Map::<Seq<char>, Value>::empty()
                &&& recorded.sdk is None
                &&& recorded.timestamp is None
                &&& recorded.spans == Seq::<SpanView>::empty()
                &&& recorded.contexts == Map::<Seq<char>, EventContextView>::empty()
                &&& recorded.request is None
                &&& recorded.server_name is None
            }
        },
        None => started.client is None && started.transaction is None,
    }
}

/// A transaction takes over its context. It is sampled as the client decided or, without a client,
/// if the context says so.
pub proof fn law_transaction_is_started(
    client: Option<Client>,
    context: TransactionContext,
    client_sampled: bool,
    started: Transaction,
)
    requires
        call_ensures(Transaction::new, (client, context, client_sampled), started),
    ensures
        just_started(started@, client, context@),
        client is Some ==> started@.sampled == client_sampled,
        client is None ==> (started@.sampled <==> context@.sampled == Some(true)),
{
}

/// A transaction that will not be sent takes over its context too, sampled if the context says so.
pub proof fn law_noop_transaction_is_started(context: TransactionContext, started: Transaction)
    requires
        call_ensures(Transaction::new_noop, (context,), started),
    ensures
        just_started(started@, None, context@),
        started@.sampled <==> context@.sampled == Some(true),
{
}

/// A hub starts transactions with its client, which decides whether they are sampled; without one
/// the context decides.
pub proof fn law_hub_starts_transactions<D: Fn(&TransactionContext) -> bool>(
    bound: &Hub,
    context: TransactionContext,
    client_samples: &D,
    started: Transaction,
)
    requires
        call_ensures(Hub::start_transaction::<D>, (bound, context, client_samples), started),
    ensures
        just_started(started@, bound.client, context@),
        bound.client is Some ==> call_ensures(
            *client_samples,
            (&context,),
            started@.sampled,
        ),
        bound.client is None ==> (started@.sampled <==> context@.sampled == Some(true)),
{
}

/// The same holds of the hub that is active.
pub proof fn law_active_hub_starts_transactions<D: Fn(&TransactionContext) -> bool>(
    active: &Hub,
    context: TransactionContext,
    client_samples: &D,
    started: Transaction,
)
    requires
        call_ensures(hub::start_transaction::<D>, (active, context, client_samples), started),
    ensures
        just_started(started@, active.client, context@),
        active.client is Some ==> call_ensures(
            *client_samples,
            (&context,),
            started@.sampled,
        ),
        active.client is None ==> (started@.sampled <==> context@.sampled == Some(true)),
{
}

/// Where a start is given, it is the start of the transaction, and all else is as without it.
pub proof fn law_transaction_starts_at<D: Fn(&TransactionContext) -> bool>(
    active: &Hub,
    context: TransactionContext,
    timestamp: SystemTime,
    client_samples: &D,
    started: Transaction,
)
    requires
        call_ensures(
            hub::start_transaction_with_timestamp::<D>,
            (active, context, timestamp, client_samples),
            started,
        ),
    ensures
        just_started(started@, active.client, context@),
        active.client is Some ==> started@.transaction->0.start_timestamp == timestamp,
        active.client is Some ==> call_ensures(
            *client_samples,
            (&context,),
            started@.sampled,
        ),
        active.client is None ==> (started@.sampled <==> context@.sampled == Some(true)),
{
}

/// The same holds where a hub is asked: the client is that of the hub that is active.
pub proof fn law_hub_transaction_starts_at<D: Fn(&TransactionContext) -> bool>(
    bound: &Hub,
    active: &Hub,
    context: TransactionContext,
    timestamp: SystemTime,
    client_samples: &D,
    started: Transaction,
)
    requires
        call_ensures(
            Hub::start_transaction_with_timestamp::<D>,
            (bound, active, context, timestamp, client_samples),
            started,
        ),
    ensures
        just_started(started@, active.client, context@),
        active.client is Some ==> started@.transaction->0.start_timestamp == timestamp,
        active.client is Some ==> call_ensures(
            *client_samples,
            (&context,),
            started@.sampled,
        ),
        active.client is None ==> (started@.sampled <==> context@.sampled == Some(true)),
{
}

/// The client of a hub is the one that is bound to it.
pub proof fn law_hub_hands_out_its_client(bound: &Hub, client: Option<Client>)
    requires
        call_ensures(Hub::client, (bound,), client),
    ensures
        match (bound.client, client) {
            (Some(of_hub), Some(client)) => {
                &&& client@.release == of_hub@.release
                &&& client@.environment == of_hub@.environment
                &&& client@.server_name == of_hub@.server_name
                &&& client@.sdk_info == of_hub@.sdk_info
            },
            (None, None) => true,
            _ => false,
        },
{
}

// Starting spans

/// Whether a span was just started below a span of a trace: it has the operation, the identifier
/// and the start that it was given, the description that it was given unless that is empty, and
/// nothing else.
pub open spec fn just_started_below(
    child: SpanState,
    trace_id: Seq<u8>,
    parent_span_id: Seq<u8>,
    sampled: bool,
    op: Seq<char>,
    description: Seq<char>,
) -> bool {
    &&& child.sampled == sampled
    &&& child.span.trace_id == trace_id
    &&& child.span.parent_span_id == Some(parent_span_id)
    &&& child.span.op == Some(op)
    &&& description.len() > 0 ==> child.span.description == Some(description)
    &&& description.len() == 0 ==> child.span.description is None
    &&& child.span.same_process_as_parent is None
    &&& child.span.timestamp is None
    &&& child.span.status is None
    &&& child.span.tags == Map::<Seq<char>, Seq<char>>::empty()
    &&& child.span.data == Map::<Seq<char>, Value>::empty()
}

/// A child of a transaction stands below its root span, with what it was started with.
pub proof fn law_transaction_starts_child(
    parent: &Transaction,
    op: &str,
    description: &str,
    id: SpanId,
    timestamp: SystemTime,
    child: Span,
)
    requires
        call_ensures(
            Transaction::start_child_with_details,
            (parent, op, description, id, timestamp),
            child,
        ),
    ensures
        just_started_below(
            child@,
            parent@.context.trace_id,
            parent@.context.span_id,
            parent@.sampled,
            op@,
            description@,
        ),
        child@.span.span_id == id@,
        child@.span.start_timestamp == timestamp,
{
}

/// A child of a transaction that is started now stands there too.
pub proof fn law_transaction_starts_child_now(
    parent: &Transaction,
    op: &str,
    description: &str,
    child: Span,
)
    requires
        call_ensures(Transaction::start_child, (parent, op, description), child),
    ensures
        just_started_below(
            child@,
            parent@.context.trace_id,
            parent@.context.span_id,
            parent@.sampled,
            op@,
            description@,
        ),
{
}

/// A child of a span stands below it, with what it was started with.
pub proof fn law_span_starts_child(
    parent: &Span,
    op: &str,
    description: &str,
    id: SpanId,
    timestamp: SystemTime,
    child: Span,
)
    requires
        call_ensures(
            Span::start_child_with_details,
            (parent, op, description, id, timestamp),
            child,
        ),
    ensures
        just_started_below(
            child@,
            parent@.span.trace_id,
            parent@.span.span_id,
            parent@.sampled,
            op@,
            description@,
        ),
        child@.span.span_id == id@,
        child@.span.start_timestamp == timestamp,
{
}

/// A child of a span that is started now stands there too.
pub proof fn law_span_starts_child_now(
    parent: &Span,
    op: &str,
    description: &str,
    child: Span,
)
    requires
        call_ensures(Span::start_child, (parent, op, description), child),
    ensures
        just_started_below(
            child@,
            parent@.span.trace_id,
            parent@.span.span_id,
            parent@.sampled,
            op@,
            description@,
        ),
{
}

/// Whether a span was just started below what a transaction or span holds.
pub open spec fn just_started_below_either(
    child: SpanState,
    parent: TransactionOrSpanState,
    op: Seq<char>,
    description: Seq<char>,
) -> bool {
    match parent {
        TransactionOrSpanState::Transaction(parent) => just_started_below(
            child,
            parent.context.trace_id,
            parent.context.span_id,
            parent.sampled,
            op,
            description,
        ),
        TransactionOrSpanState::Span(parent, _) => just_started_below(
            child,
            parent.span.trace_id,
            parent.span.span_id,
            parent.sampled,
            op,
            description,
        ),
    }
}

/// A child of either is started as a child of the one that it is.
pub proof fn law_either_starts_child(
    parent: &TransactionOrSpan<'_>,
    op: &str,
    description: &str,
    id: SpanId,
    timestamp: SystemTime,
    child: Span,
)
    requires
        call_ensures(
            TransactionOrSpan::start_child_with_details,
            (parent, op, description, id, timestamp),
            child,
        ),
    ensures
        just_started_below_either(child@, parent.current(), op@, description@),
        child@.span.span_id == id@,
        child@.span.start_timestamp == timestamp,
{
}

/// The same holds of a child that is started now.
pub proof fn law_either_starts_child_now(
    parent: &TransactionOrSpan<'_>,
    op: &str,
    description: &str,
    child: Span,
)
    requires
        call_ensures(TransactionOrSpan::start_child, (parent, op, description), child),
    ensures
        just_started_below_either(child@, parent.current(), op@, description@),
{
}

/// What a transaction or span holds now is what the borrowed ones hold.
pub proof fn law_either_shows_what_it_borrows(either: TransactionOrSpan<'_>)
    ensures
        match either {
            TransactionOrSpan::Transaction(transaction) => either.current()
                == TransactionOrSpanState::Transaction((*transaction)@),
            TransactionOrSpan::Span(span, started_in) => either.current()
                == TransactionOrSpanState::Span((*span)@, (*started_in)@),
        },
{
}

/// A span record is started with what it was given; an empty description is none.
pub proof fn law_span_record_is_started(
    trace_id: TraceId,
    parent_span_id: SpanId,
    op: &str,
    description: &str,
    span_id: SpanId,
    start_timestamp: SystemTime,
    started: record::Span,
)
    requires
        call_ensures(
            record::Span::start,
            (trace_id, parent_span_id, op, description, span_id, start_timestamp),
            started,
        ),
    ensures
        just_started_below(
            SpanState { sampled: true, span: started@ },
            trace_id@,
            parent_span_id@,
            true,
            op@,
            description@,
        ),
        started@.span_id == span_id@,
        started@.start_timestamp == start_timestamp,
{
}

/// A trace context that is created from two identifiers holds these and nothing else.
pub proof fn law_trace_context_is_bare(
    trace_id: TraceId,
    span_id: SpanId,
    context: record::TraceContext,
)
    requires
        call_ensures(record::TraceContext::new, (trace_id, span_id), context),
    ensures
        context@.trace_id == trace_id@,
        context@.span_id == span_id@,
        context@.parent_span_id is None,
        context@.op is None,
        context@.description is None,
        context@.status is None,
        context@.data == Map::<Seq<char>, Value>::empty(),
{
}

// Setting data, tags and the rest

/// Whether an entry of a map was set: its key has the value, and every other key has what it had.
pub open spec fn entry_set<V>(
    before: Map<Seq<char>, V>,
    after: Map<Seq<char>, V>,
    key: Seq<char>,
    value: V,
) -> bool {
    &&& after.get(key) == Some(value)
    &&& forall|other: Seq<char>|
        other != key ==> #[trigger] after.get(other) == before.get(other)
}

/// Whether a data attribute of a span was set, and nothing else of it changed.
pub open spec fn span_data_set(
    before: SpanView,
    after: SpanView,
    key: Seq<char>,
    value: Value,
) -> bool {
    &&& entry_set(before.data, after.data, key, value)
    &&& before == SpanView { data: before.data, ..after }
}

/// Whether a tag of a span was set, and nothing else of it changed.
pub open spec fn span_tag_set(
    before: SpanView,
    after: SpanView,
    key: Seq<char>,
    value: Seq<char>,
) -> bool {
    &&& entry_set(before.tags, after.tags, key, value)
    &&& before == SpanView { tags: before.tags, ..after }
}

/// Whether the status of a span was set, and nothing else of it changed.
pub open spec fn span_status_set(before: SpanView, after: SpanView, status: SpanStatus) -> bool {
    &&& after.status == Some(status)
    &&& before == SpanView { status: before.status, ..after }
}

/// Whether a data attribute of a transaction was set, if there is something to send, and nothing
/// else of it changed.
pub open spec fn transaction_data_set(
    before: TransactionState,
    after: TransactionState,
    key: Seq<char>,
    value: Value,
) -> bool {
    if before.transaction is Some {
        &&& entry_set(before.context.data, after.context.data, key, value)
        &&& before == TransactionState {
            context: record::TraceContextView { data: before.context.data, ..after.context },
            ..after
        }
    } else {
        after == before
    }
}

/// Whether a tag of a transaction was set, if there is something to send, and nothing else of it
/// changed.
pub open spec fn transaction_tag_set(
    before: TransactionState,
    after: TransactionState,
    key: Seq<char>,
    value: Seq<char>,
) -> bool {
    match (before.transaction, after.transaction) {
        (Some(recorded), Some(recorded_after)) => {
            &&& entry_set(recorded.tags, recorded_after.tags, key, value)
            &&& recorded == record::TransactionView { tags: recorded.tags, ..recorded_after }
            &&& before == TransactionState { transaction: before.transaction, ..after }
        },
        (None, _) => after == before,
        _ => false,
    }
}

/// Whether the status of a transaction was set, and nothing else of it changed.
pub open spec fn transaction_status_set(
    before: TransactionState,
    after: TransactionState,
    status: SpanStatus,
) -> bool {
    &&& after.context.status == Some(status)
    &&& before == TransactionState {
        context: record::TraceContextView { status: before.context.status, ..after.context },
        ..after
    }
}

/// Whether the request of a transaction was set, if there is something to send, to the very request
/// that was given, and nothing else of it changed.
pub open spec fn transaction_request_set(
    before: TransactionState,
    after: TransactionState,
    request: Request,
) -> bool {
    match (before.transaction, after.transaction) {
        (Some(recorded), Some(recorded_after)) => {
            &&& recorded_after.request matches Some(set) && {
                &&& set.url == request.url
                &&& set.method == request.method
                &&& set.data == request.data
                &&& set.query_string == request.query_string
                &&& set.cookies == request.cookies
                &&& set.headers == request.headers
                &&& set.env == request.env
            }
            &&& recorded == record::TransactionView { request: recorded.request, ..recorded_after }
            &&& before == TransactionState { transaction: before.transaction, ..after }
        },
        (None, _) => after == before,
        _ => false,
    }
}

/// A data attribute that is set on a transaction is found under its key.
pub proof fn law_transaction_data_is_set(running: &mut Transaction, key: &str, value: Value)
    requires
        call_ensures(Transaction::set_data, (running, key, value), ()),
    ensures
        transaction_data_set(old(running)@, final(running)@, key@, value),
{
}

/// A tag that is set on a transaction is found under its key.
pub proof fn law_transaction_tag_is_set(running: &mut Transaction, key: &str, value: String)
    requires
        call_ensures(Transaction::set_tag, (running, key, value), ()),
    ensures
        transaction_tag_set(old(running)@, final(running)@, key@, value@),
{
}

/// An extra value that is set on a transaction, if there is something to send, is found under its
/// key, and nothing else changes.
pub proof fn law_transaction_extra_is_set(running: &mut Transaction, key: &str, value: Value)
    requires
        call_ensures(Transaction::set_extra, (running, key, value), ()),
    ensures
        match (old(running)@.transaction, final(running)@.transaction) {
            (Some(recorded), Some(recorded_after)) => {
                &&& entry_set(recorded.extra, recorded_after.extra, key@, value)
                &&& recorded == record::TransactionView { extra: recorded.extra, ..recorded_after }
                &&& old(running)@ == TransactionState {
                    transaction: old(running)@.transaction,
                    ..final(running)@
                }
            },
            (None, _) => final(running)@ == old(running)@,
            _ => false,
        },
{
}

/// The status that is set on a transaction is the one that it has.
pub proof fn law_transaction_status_is_set(running: &mut Transaction, status: SpanStatus)
    requires
        call_ensures(Transaction::set_status, (running, status), ()),
    ensures
        transaction_status_set(old(running)@, final(running)@, status),
{
}

/// The request that is set on a transaction is the one that it has, in every field.
pub proof fn law_transaction_request_is_set(running: &mut Transaction, request: Request)
    requires
        call_ensures(Transaction::set_request, (running, request), ()),
    ensures
        transaction_request_set(old(running)@, final(running)@, request),
{
}

/// The accessor sets data attributes as the transaction does.
pub proof fn law_accessor_sets_transaction_data(
    data: &mut TransactionData<'_>,
    key: String,
    value: Value,
)
    requires
        call_ensures(TransactionData::set_data, (data, key, value), ()),
    ensures
        transaction_data_set(
            (*old(data).transaction)@,
            (*final(data).transaction)@,
            key@,
            value,
        ),
{
}

/// The accessor sets tags as the transaction does.
pub proof fn law_accessor_sets_transaction_tags(
    data: &mut TransactionData<'_>,
    key: String,
    value: String,
)
    requires
        call_ensures(TransactionData::set_tag, (data, key, value), ()),
    ensures
        transaction_tag_set(
            (*old(data).transaction)@,
            (*final(data).transaction)@,
            key@,
            value@,
        ),
{
}

/// The accessor shows the data attributes of a transaction that is sampled and has something to
/// send, each once and all of them, and nothing of any other.
pub proof fn law_accessor_shows_transaction_data(
    data: &TransactionData<'_>,
    entries: Vec<(&String, &Value)>,
    key: Seq<char>,
)
    requires
        call_ensures(TransactionData::iter, (data,), entries),
    ensures
        ({
            let running = (*old(data.transaction))@;
            &&& !running.sampled || running.transaction is None ==> entries@.len() == 0
            &&& running.sampled && running.transaction is Some ==> {
                &&& forall|i: int|
                    0 <= i < entries@.len() ==> running.context.data.get(
                        #[trigger] entries@[i].0@,
                    ) == Some(*entries@[i].1)
                &&& running.context.data.contains_key(key) ==> exists|i: int|
                    0 <= i < entries@.len() && #[trigger] entries@[i].0@ == key
            }
            &&& forall|i: int, j: int|
                0 <= i < j < entries@.len() ==> #[trigger] entries@[i].0@
                    != #[trigger] entries@[j].0@
        }),
{
    let running = (*data.transaction)@;
    if !running.sampled || running.transaction is None {
        if entries@.len() > 0 {
            assert(running.sent_data().contains_pair(entries@[0].0@, *entries@[0].1));
        }
    } else {
        assert forall|i: int| 0 <= i < entries@.len() implies running.context.data.get(
            #[trigger] entries@[i].0@,
        ) == Some(*entries@[i].1) by {
            assert(running.sent_data().contains_pair(entries@[i].0@, *entries@[i].1));
        }
        if running.context.data.contains_key(key) {
            assert(running.sent_data().contains_key(key));
        }
    }
    assert forall|i: int, j: int| 0 <= i < j < entries@.len() implies #[trigger] entries@[i].0@
        != #[trigger] entries@[j].0@ by {
        assert(string_map::text_before(entries@[i].0@, entries@[j].0@));
        string_map::lemma_text_before_irreflexive(entries@[i].0@);
    }
}

/// A data attribute that is set on a span is found under its key.
pub proof fn law_span_data_is_set(running: &mut Span, key: &str, value: Value)
    requires
        call_ensures(Span::set_data, (running, key, value), ()),
    ensures
        span_data_set(old(running)@.span, final(running)@.span, key@, value),
        final(running)@.sampled == old(running)@.sampled,
{
}

/// A tag that is set on a span is found under its key.
pub proof fn law_span_tag_is_set(running: &mut Span, key: &str, value: String)
    requires
        call_ensures(Span::set_tag, (running, key, value), ()),
    ensures
        span_tag_set(old(running)@.span, final(running)@.span, key@, value@),
        final(running)@.sampled == old(running)@.sampled,
{
}

/// The status that is set on a span is the one that it has.
pub proof fn law_span_status_is_set(running: &mut Span, status: SpanStatus)
    requires
        call_ensures(Span::set_status, (running, status), ()),
    ensures
        span_status_set(old(running)@.span, final(running)@.span, status),
        final(running)@.sampled == old(running)@.sampled,
{
}

/// The accessor sets data attributes as the span does.
pub proof fn law_accessor_sets_span_data(data: &mut Data<'_>, key: String, value: Value)
    requires
        call_ensures(Data::set_data, (data, key, value), ()),
    ensures
        span_data_set((*old(data).span)@, (*final(data).span)@, key@, value),
{
}

/// The accessor sets tags as the span does.
pub proof fn law_accessor_sets_span_tags(data: &mut Data<'_>, key: String, value: String)
    requires
        call_ensures(Data::set_tag, (data, key, value), ()),
    ensures
        span_tag_set((*old(data).span)@, (*final(data).span)@, key@, value@),
{
}

/// The accessor shows the data attributes of the span.
pub proof fn law_accessor_shows_span_data(data: &Data<'_>, shown: &StringMap<Value>)
    requires
        call_ensures(Data::deref, (data,), shown),
    ensures
        shown@ == (*old(data.span))@.data,
{
}

/// A data attribute that is set on either is set on the one that it is; where that is a span, its
/// transaction stays as it is.
pub proof fn law_either_sets_data(either: &mut TransactionOrSpan<'_>, key: &str, value: Value)
    requires
        call_ensures(TransactionOrSpan::set_data, (either, key, value), ()),
    ensures
        match (old(either).current(), final(either).current()) {
            (
                TransactionOrSpanState::Transaction(before),
                TransactionOrSpanState::Transaction(after),
            ) => transaction_data_set(before, after, key@, value),
            (
                TransactionOrSpanState::Span(before, before_in),
                TransactionOrSpanState::Span(after, after_in),
            ) => {
                &&& span_data_set(before.span, after.span, key@, value)
                &&& after.sampled == before.sampled
                &&& after_in == before_in
            },
            _ => false,
        },
{
}

/// The same holds of a tag.
pub proof fn law_either_sets_tag(either: &mut TransactionOrSpan<'_>, key: &str, value: String)
    requires
        call_ensures(TransactionOrSpan::set_tag, (either, key, value), ()),
    ensures
        match (old(either).current(), final(either).current()) {
            (
                TransactionOrSpanState::Transaction(before),
                TransactionOrSpanState::Transaction(after),
            ) => transaction_tag_set(before, after, key@, value@),
            (
                TransactionOrSpanState::Span(before, before_in),
                TransactionOrSpanState::Span(after, after_in),
            ) => {
                &&& span_tag_set(before.span, after.span, key@, value@)
                &&& after.sampled == before.sampled
                &&& after_in == before_in
            },
            _ => false,
        },
{
}

/// The same holds of the status.
pub proof fn law_either_sets_status(either: &mut TransactionOrSpan<'_>, status: SpanStatus)
    requires
        call_ensures(TransactionOrSpan::set_status, (either, status), ()),
    ensures
        match (old(either).current(), final(either).current()) {
            (
                TransactionOrSpanState::Transaction(before),
                TransactionOrSpanState::Transaction(after),
            ) => transaction_status_set(before, after, status),
            (
                TransactionOrSpanState::Span(before, before_in),
                TransactionOrSpanState::Span(after, after_in),
            ) => {
                &&& span_status_set(before.span, after.span, status)
                &&& after.sampled == before.sampled
                &&& after_in == before_in
            },
            _ => false,
        },
{
}

// Requests on spans

/// Whether `after` has under `key` the value, if there is one, and else what `before` has.
pub open spec fn set_if_given(
    before: Map<Seq<char>, Value>,
    after: Map<Seq<char>, Value>,
    key: Seq<char>,
    value: Option<Value>,
) -> bool {
    after.get(key) == match value {
        Some(value) => Some(value),
        None => before.get(key),
    }
}

/// Whether the values of a request were added to a span, each under its key, and nothing else of it
/// changed.
pub open spec fn values_added(before: SpanView, after: SpanView, values: RequestValues) -> bool {
    &&& set_if_given(before.data, after.data, "method"@, values.method)
    &&& set_if_given(before.data, after.data, "url"@, values.url)
    &&& set_if_given(before.data, after.data, "data"@, values.data)
    &&& set_if_given(before.data, after.data, "query_string"@, values.query_string)
    &&& set_if_given(before.data, after.data, "cookies"@, values.cookies)
    &&& set_if_given(before.data, after.data, "headers"@, values.headers)
    &&& set_if_given(before.data, after.data, "env"@, values.env)
    &&& forall|other: Seq<char>|
        other != "method"@ && other != "url"@ && other != "data"@ && other != "query_string"@
            && other != "cookies"@ && other != "headers"@ && other != "env"@
            ==> #[trigger] after.data.get(other) == before.data.get(other)
    &&& before == SpanView { data: before.data, ..after }
}

/// Whether a value is that of an optional text.
pub open spec fn value_of_text(value: Option<Value>, content: Option<String>) -> bool {
    match content {
        Some(content) => value == Some(json::string_value(content@)),
        None => value is None,
    }
}

/// Whether values are those of a request: its texts as strings, its data as the document that they
/// are or else as a string, and its headers and its environment as objects, unless they are empty.
pub open spec fn values_of(values: RequestValues, request: Request) -> bool {
    &&& value_of_text(values.method, request.method)
    &&& value_of_text(values.url, request.url)
    &&& value_of_text(values.query_string, request.query_string)
    &&& value_of_text(values.cookies, request.cookies)
    &&& match request.data {
        Some(body) => if json::parsed_value(body@) is Some {
            values.data == json::parsed_value(body@)
        } else {
            values.data == Some(json::string_value(body@))
        },
        None => values.data is None,
    }
    &&& request.headers@.dom() =~= Set::empty() ==> values.headers is None
    &&& !(request.headers@.dom() =~= Set::empty()) ==> values.headers == Some(
        json::object_value(request.headers@),
    )
    &&& request.env@.dom() =~= Set::empty() ==> values.env is None
    &&& !(request.env@.dom() =~= Set::empty()) ==> values.env == Some(
        json::object_value(request.env@),
    )
}

/// Adding values adds each under its own key.
proof fn lemma_values_added(before: SpanView, values: RequestValues)
    ensures
        values_added(
            before,
            SpanView { data: values.added_to(before.data), ..before },
            values,
        ),
{
    laws::lemma_request_keys_differ();
}

/// The values of a request are taken from its fields.
pub proof fn law_request_values_are_taken(request: Request, values: RequestValues)
    requires
        call_ensures(RequestValues::of, (request,), values),
    ensures
        values_of(values, request),
{
}

/// The values of a request that are set on a span are found under their keys.
pub proof fn law_span_request_values_are_set(running: &mut Span, values: RequestValues)
    requires
        call_ensures(Span::set_request_values, (running, values), ()),
    ensures
        values_added(old(running)@.span, final(running)@.span, values),
        final(running)@.sampled == old(running)@.sampled,
{
    lemma_values_added(old(running)@.span, values);
}

/// A request that is set on a span adds its values to the data attributes.
pub proof fn law_span_request_is_set(running: &mut Span, request: Request)
    requires
        call_ensures(Span::set_request, (running, request), ()),
    ensures
        exists|values: RequestValues| #[trigger]
            values_of(values, request) && values_added(
                old(running)@.span,
                final(running)@.span,
                values,
            ),
        final(running)@.sampled == old(running)@.sampled,
{
    let values = span::request_values(request);
    lemma_values_added(old(running)@.span, values);
    assert(values_of(values, request));
}

/// A request that is set on either is set on the one that it is; where that is a span, its
/// transaction stays as it is.
pub proof fn law_either_sets_request(either: &mut TransactionOrSpan<'_>, request: Request)
    requires
        call_ensures(TransactionOrSpan::set_request, (either, request), ()),
    ensures
        match (old(either).current(), final(either).current()) {
            (
                TransactionOrSpanState::Transaction(before),
                TransactionOrSpanState::Transaction(after),
            ) => transaction_request_set(before, after, request),
            (
                TransactionOrSpanState::Span(before, before_in),
                TransactionOrSpanState::Span(after, after_in),
            ) => {
                &&& exists|values: RequestValues| #[trigger]
                    values_of(values, request) && values_added(before.span, after.span, values)
                &&& after.sampled == before.sampled
                &&& after_in == before_in
            },
            _ => false,
        },
{
    match old(either).current() {
        TransactionOrSpanState::Span(before, _) => {
            let values = span::request_values(request);
            lemma_values_added(before.span, values);
            assert(values_of(values, request));
        },
        _ => {},
    }
}

// Reading

/// The header that a transaction sends on names its trace, its root span and its sampling decision.
pub proof fn law_transaction_header(running: &Transaction, headers: TraceHeadersIter)
    requires
        call_ensures(Transaction::iter_headers, (running,), headers),
    ensures
        headers@ matches Some(value) && header_of(
            value,
            running@.context.trace_id,
            running@.context.span_id,
            Some(running@.sampled),
        ),
{
    assert(running.context.trace_id@.len() == 16 && running.context.span_id@.len() == 8);
    lemma_header(running@.trace());
}

/// The header that a span sends on names its trace, itself and its sampling decision.
pub proof fn law_span_header(running: &Span, headers: TraceHeadersIter)
    requires
        call_ensures(Span::iter_headers, (running,), headers),
    ensures
        headers@ matches Some(value) && header_of(
            value,
            running@.span.trace_id,
            running@.span.span_id,
            Some(running@.sampled),
        ),
{
    assert(running.span.trace_id@.len() == 16 && running.span.span_id@.len() == 8);
    lemma_header(running@.trace());
}

/// The header that either sends on is that of the one that it is.
pub proof fn law_either_header(either: &TransactionOrSpan<'_>, headers: TraceHeadersIter)
    requires
        call_ensures(TransactionOrSpan::iter_headers, (either,), headers),
    ensures
        headers@ matches Some(value) && match either.current() {
            TransactionOrSpanState::Transaction(running) => header_of(
                value,
                running.context.trace_id,
                running.context.span_id,
                Some(running.sampled),
            ),
            TransactionOrSpanState::Span(running, _) => header_of(
                value,
                running.span.trace_id,
                running.span.span_id,
                Some(running.sampled),
            ),
        },
{
    match *either {
        TransactionOrSpan::Transaction(running) => {
            assert(running.context.trace_id@.len() == 16 && running.context.span_id@.len() == 8);
        },
        TransactionOrSpan::Span(running, _) => {
            assert(running.span.trace_id@.len() == 16 && running.span.span_id@.len() == 8);
        },
    }
    lemma_header(either.current().trace());
}

/// The trace context of either is that of the transaction, or of the transaction of the span.
pub proof fn law_either_tells_trace_context(
    either: &TransactionOrSpan<'_>,
    context: record::TraceContext,
)
    requires
        call_ensures(TransactionOrSpan::get_trace_context, (either,), context),
    ensures
        match either.current() {
            TransactionOrSpanState::Transaction(running) => context@ == running.context,
            TransactionOrSpanState::Span(_, started_in) => context@ == started_in.context,
        },
{
}

/// The status of either is that of the one that it is.
pub proof fn law_either_tells_status(either: &TransactionOrSpan<'_>, status: Option<SpanStatus>)
    requires
        call_ensures(TransactionOrSpan::get_status, (either,), status),
    ensures
        match either.current() {
            TransactionOrSpanState::Transaction(running) => status == running.context.status,
            TransactionOrSpanState::Span(running, _) => status == running.span.status,
        },
{
}

/// The sampling decision of either is that of the one that it is.
pub proof fn law_either_tells_sampling(either: &TransactionOrSpan<'_>, sampled: bool)
    requires
        call_ensures(TransactionOrSpan::is_sampled, (either,), sampled),
    ensures
        match either.current() {
            TransactionOrSpanState::Transaction(running) => sampled == running.sampled,
            TransactionOrSpanState::Span(running, _) => sampled == running.sampled,
        },
{
}

// Finishing spans

/// Whether a span got its end: it has it, and every other field is as before.
pub open spec fn end_recorded(before: SpanView, after: SpanView, timestamp: SystemTime) -> bool {
    &&& after.timestamp == Some(timestamp)
    &&& after.start_timestamp == before.start_timestamp
    &&& after.span_id == before.span_id
    &&& after.trace_id == before.trace_id
    &&& after.parent_span_id == before.parent_span_id
    &&& after.same_process_as_parent == before.same_process_as_parent
    &&& after.op == before.op
    &&& after.description == before.description
    &&& after.status == before.status
    &&& after.tags == before.tags
    &&& after.data == before.data
}

/// Whether a span was added to a transaction: behind the spans that it holds, if there is something
/// to send and it holds a thousand spans at most, and nothing else of it changed.
pub open spec fn span_added(
    before: TransactionState,
    after: TransactionState,
    span: SpanView,
) -> bool {
    match (before.transaction, after.transaction) {
        (Some(recorded), Some(recorded_after)) => {
            let n = recorded.spans.len() as int;
            &&& n <= 1_000 ==> {
                &&& recorded_after.spans.len() == n + 1
                &&& recorded_after.spans[n] == span
                &&& forall|i: int|
                    0 <= i < n ==> #[trigger] recorded_after.spans[i] == recorded.spans[i]
            }
            &&& n > 1_000 ==> recorded_after.spans == recorded.spans
            &&& recorded == record::TransactionView { spans: recorded.spans, ..recorded_after }
            &&& before == TransactionState { transaction: before.transaction, ..after }
        },
        (None, _) => after == before,
        _ => false,
    }
}

/// Whether a span finished: one that has no end yet gets it and is added, as it is then, to its
/// transaction; one that has an end stays as it is, and so does the transaction.
pub open spec fn span_finished(
    before: SpanState,
    before_in: TransactionState,
    after: SpanState,
    after_in: TransactionState,
    timestamp: SystemTime,
) -> bool {
    if before.span.timestamp is None {
        &&& end_recorded(before.span, after.span, timestamp)
        &&& after.sampled == before.sampled
        &&& span_added(before_in, after_in, after.span)
    } else {
        after == before && after_in == before_in
    }
}

/// A span that finishes gets its end, and nothing but its end, and joins its transaction as it is
/// then.
pub proof fn law_span_is_finished(
    running: &mut Span,
    started_in: &mut Transaction,
    timestamp: SystemTime,
)
    requires
        call_ensures(Span::finish_with_timestamp, (running, started_in, timestamp), ()),
    ensures
        span_finished(
            old(running)@,
            old(started_in)@,
            final(running)@,
            final(started_in)@,
            timestamp,
        ),
{
}

/// The same holds of a span that finishes now.
pub proof fn law_span_is_finished_now(running: &mut Span, started_in: &mut Transaction)
    requires
        call_ensures(Span::finish, (running, started_in), ()),
    ensures
        exists|timestamp: SystemTime| #[trigger]
            span_finished(
                old(running)@,
                old(started_in)@,
                final(running)@,
                final(started_in)@,
                timestamp,
            ),
{
    let timestamp = choose|timestamp: SystemTime| #[trigger]
        old(running)@.finished(old(started_in)@, timestamp) == (
            final(running)@,
            final(started_in)@,
        );
    assert(span_finished(
        old(running)@,
        old(started_in)@,
        final(running)@,
        final(started_in)@,
        timestamp,
    ));
}

/// A span that ends is handed out with its end; one that has ended before is not.
pub proof fn law_span_is_ended(
    running: &mut Span,
    timestamp: SystemTime,
    ended: Option<record::Span>,
)
    requires
        call_ensures(Span::end, (running, timestamp), ended),
    ensures
        ended is Some <==> old(running)@.span.timestamp is None,
        final(running)@.sampled == old(running)@.sampled,
        match ended {
            Some(ended) => {
                &&& end_recorded(old(running)@.span, ended@, timestamp)
                &&& final(running)@.span == ended@
            },
            None => final(running)@.span == old(running)@.span,
        },
{
}

/// A span that is added to a transaction is the last that it holds, if it is held.
pub proof fn law_span_is_added(running: &mut Transaction, span: record::Span)
    requires
        call_ensures(Transaction::add_span, (running, span), ()),
    ensures
        span_added(old(running)@, final(running)@, span@),
{
}

/// A span record that is finalized gets its end, and nothing but its end.
pub proof fn law_span_record_is_finished(span: &mut record::Span, timestamp: SystemTime)
    requires
        call_ensures(record::Span::finish_with_timestamp, (span, timestamp), ()),
    ensures
        end_recorded(old(span)@, final(span)@, timestamp),
{
}

// Finishing transactions

/// Whether a transaction finished: it is handed out, with its client, if it is sampled and has both
/// something to send and a client. What is handed out is all that was recorded, with the end, and
/// with the trace context beside the contexts that were recorded.
pub open spec fn transaction_finished(
    before: TransactionState,
    after: TransactionState,
    finished: Option<FinishedTransaction>,
    timestamp: SystemTime,
) -> bool {
    &&& finished is Some <==> before.sampled && before.transaction is Some && before.client is Some
    &&& after.sampled == before.sampled
    &&& after.context == before.context
    &&& finished is Some ==> after.client is None && after.transaction is None
    &&& !before.sampled || before.transaction is None ==> after == before
    &&& finished matches Some(finished) ==> {
        let recorded = before.transaction->0;
        let sent = finished.transaction@;
        &&& finished.client@ == before.client->0
        &&& sent.timestamp == Some(timestamp)
        &&& sent.name == recorded.name
        &&& sent.release == recorded.release
        &&& sent.environment == recorded.environment
        &&& sent.user == recorded.user
        &&& sent.tags == recorded.tags
        &&& sent.extra == recorded.extra
        &&& sent.sdk == recorded.sdk
        &&& sent.start_timestamp == recorded.start_timestamp
        &&& sent.spans == recorded.spans
        &&& sent.request == recorded.request
        &&& sent.server_name == recorded.server_name
        &&& entry_set(
            recorded.contexts,
            sent.contexts,
            "trace"@,
            EventContextView::Trace(before.context),
        )
    }
}

/// A transaction that finishes is handed out whole, or stays as it is.
pub proof fn law_transaction_is_finished(
    running: &mut Transaction,
    timestamp: SystemTime,
    finished: Option<FinishedTransaction>,
)
    requires
        call_ensures(Transaction::finish_with_timestamp, (running, timestamp), finished),
    ensures
        transaction_finished(old(running)@, final(running)@, finished, timestamp),
{
}

/// The same holds of a transaction that finishes now.
pub proof fn law_transaction_is_finished_now(
    running: &mut Transaction,
    finished: Option<FinishedTransaction>,
)
    requires
        call_ensures(Transaction::finish, (running,), finished),
    ensures
        exists|timestamp: SystemTime| #[trigger]
            transaction_finished(old(running)@, final(running)@, finished, timestamp),
{
    let timestamp = choose|timestamp: SystemTime| #[trigger]
        old(running)@.finished(timestamp) == (
            final(running)@,
            transaction::finished_of(finished),
        );
    assert(transaction_finished(old(running)@, final(running)@, finished, timestamp));
}

/// Either finishes as the one that it is; a span hands out nothing.
pub proof fn law_either_is_finished(
    either: TransactionOrSpan<'_>,
    timestamp: SystemTime,
    finished: Option<FinishedTransaction>,
)
    requires
        call_ensures(TransactionOrSpan::finish_with_timestamp, (either, timestamp), finished),
    ensures
        match either {
            TransactionOrSpan::Transaction(running) => transaction_finished(
                (*running)@,
                (*final(running))@,
                finished,
                timestamp,
            ),
            TransactionOrSpan::Span(running, started_in) => {
                &&& span_finished(
                    (*running)@,
                    (*started_in)@,
                    (*final(running))@,
                    (*final(started_in))@,
                    timestamp,
                )
                &&& finished is None
            },
        },
{
}

/// The same holds of either that finishes now.
pub proof fn law_either_is_finished_now(
    either: TransactionOrSpan<'_>,
    finished: Option<FinishedTransaction>,
)
    requires
        call_ensures(TransactionOrSpan::finish, (either,), finished),
    ensures
        match either {
            TransactionOrSpan::Transaction(running) => exists|timestamp: SystemTime| #[trigger]
                transaction_finished((*running)@, (*final(running))@, finished, timestamp),
            TransactionOrSpan::Span(running, started_in) => {
                &&& exists|timestamp: SystemTime| #[trigger]
                    span_finished(
                        (*running)@,
                        (*started_in)@,
                        (*final(running))@,
                        (*final(started_in))@,
                        timestamp,
                    )
                &&& finished is None
            },
        },
{
    let timestamp = choose|timestamp: SystemTime| #[trigger]
        either.current().finished(timestamp) == (
            either.ended(
                |span: &mut Span| *final(span),
                |transaction: &mut Transaction| *final(transaction),
            ),
            transaction::finished_of(finished),
        );
    match either {
        TransactionOrSpan::Transaction(running) => {
            assert(transaction_finished((*running)@, (*final(running))@, finished, timestamp));
        },
        TransactionOrSpan::Span(running, started_in) => {
            assert(span_finished(
                (*running)@,
                (*started_in)@,
                (*final(running))@,
                (*final(started_in))@,
                timestamp,
            ));
        },
    }
}

/// What is sealed takes over the release, the environment, the server name and the SDK of the
/// client, whatever it had, and keeps all else.
pub proof fn law_transaction_is_sealed(finished: FinishedTransaction, sealed: record::Transaction)
    requires
        call_ensures(FinishedTransaction::seal, (finished,), sealed),
    ensures
        sealed@.release == finished.client@.release,
        sealed@.environment == finished.client@.environment,
        sealed@.server_name == finished.client@.server_name,
        sealed@.sdk == Some(finished.client@.sdk_info),
        sealed@.name == finished.transaction@.name,
        sealed@.user == finished.transaction@.user,
        sealed@.tags == finished.transaction@.tags,
        sealed@.extra == finished.transaction@.extra,
        sealed@.timestamp == finished.transaction@.timestamp,
        sealed@.start_timestamp == finished.transaction@.start_timestamp,
        sealed@.spans == finished.transaction@.spans,
        sealed@.contexts == finished.transaction@.contexts,
        sealed@.request == finished.transaction@.request,
{
}

// Events

/// What an optional context of an event holds.
pub open spec fn held(context: Option<EventContext>) -> Option<EventContextView> {
    match context {
        Some(context) => Some(context@),
        None => None,
    }
}

/// An event that has a trace context keeps it; another gets the trace context of the transaction, or
/// one with the identifiers of the span and nothing else. Its other contexts are left alone.
pub proof fn law_event_gets_trace_context(
    either: &TransactionOrSpan<'_>,
    contexts: &mut StringMap<EventContext>,
    other: Seq<char>,
)
    requires
        call_ensures(TransactionOrSpan::apply_to_event, (either, contexts), ()),
        other != "trace"@,
    ensures
        old(contexts)@.contains_key("trace"@) ==> held(final(contexts)@.get("trace"@)) == held(
            old(contexts)@.get("trace"@),
        ),
        !old(contexts)@.contains_key("trace"@) ==> (held(final(contexts)@.get("trace"@)) matches Some(
            EventContextView::Trace(added),
        ) && match either.current() {
            TransactionOrSpanState::Transaction(running) => added == running.context,
            TransactionOrSpanState::Span(running, _) => {
                &&& added.trace_id == running.span.trace_id
                &&& added.span_id == running.span.span_id
                &&& added.parent_span_id is None
                &&& added.op is None
                &&& added.description is None
                &&& added.status is None
                &&& added.data == Map::<Seq<char>, Value>::empty()
            },
        }),
        held(final(contexts)@.get(other)) == held(old(contexts)@.get(other)),
{
    let before = record::contexts_of(old(contexts)@);
    let after = record::contexts_of(final(contexts)@);
    assert(before.get(other) == held(old(contexts)@.get(other)));
    assert(after.get(other) == held(final(contexts)@.get(other)));
    assert(before.get("trace"@) == held(old(contexts)@.get("trace"@)));
    assert(after.get("trace"@) == held(final(contexts)@.get("trace"@)));
}

// Views

/// Whether a text is that of an optional string.
pub open spec fn optional_text(content: Option<Seq<char>>, string: Option<String>) -> bool {
    match string {
        Some(string) => content == Some(string@),
        None => content is None,
    }
}

/// Whether texts are those of the strings of a map, key by key.
pub open spec fn texts_of(contents: Map<Seq<char>, Seq<char>>, strings: Map<Seq<char>, String>) -> bool {
    forall|key: Seq<char>| #[trigger]
        contents.get(key) == match strings.get(key) {
            Some(string) => Some(string@),
            None => None,
        }
}

/// The view of a trace context shows each of its fields.
pub proof fn law_trace_context_is_shown(context: record::TraceContext)
    ensures
        context@.span_id == context.span_id@,
        context@.trace_id == context.trace_id@,
        optional_id(context@.parent_span_id, context.parent_span_id),
        optional_text(context@.op, context.op),
        optional_text(context@.description, context.description),
        context@.status == context.status,
        context@.data == context.data@,
{
}

/// The view of a span record shows each of its fields.
pub proof fn law_span_record_is_shown(span: record::Span)
    ensures
        span@.span_id == span.span_id@,
        span@.trace_id == span.trace_id@,
        optional_id(span@.parent_span_id, span.parent_span_id),
        span@.same_process_as_parent == span.same_process_as_parent,
        optional_text(span@.op, span.op),
        optional_text(span@.description, span.description),
        span@.timestamp == span.timestamp,
        span@.start_timestamp == span.start_timestamp,
        span@.status == span.status,
        texts_of(span@.tags, span.tags@),
        span@.data == span.data@,
{
}

/// The view of a transaction record shows each of its fields.
pub proof fn law_transaction_record_is_shown(recorded: record::Transaction)
    ensures
        optional_text(recorded@.name, recorded.name),
        optional_text(recorded@.release, recorded.release),
        optional_text(recorded@.environment, recorded.environment),
        recorded@.user == recorded.user,
        texts_of(recorded@.tags, recorded.tags@),
        recorded@.extra == recorded.extra@,
        recorded@.sdk == recorded.sdk,
        recorded@.timestamp == recorded.timestamp,
        recorded@.start_timestamp == recorded.start_timestamp,
        recorded@.spans.len() == recorded.spans@.len(),
        forall|i: int|
            0 <= i < recorded.spans@.len() ==> #[trigger] recorded@.spans[i] == recorded.spans@[i]@,
        forall|key: Seq<char>| #[trigger]
            recorded@.contexts.get(key) == held(recorded.contexts@.get(key)),
        recorded@.request == recorded.request,
        optional_text(recorded@.server_name, recorded.server_name),
{
}

/// The view of a client shows each of its fields.
pub proof fn law_client_is_shown(client: Client)
    ensures
        optional_text(client@.release, client.release),
        optional_text(client@.environment, client.environment),
        optional_text(client@.server_name, client.server_name),
        client@.sdk_info == client.sdk_info,
{
}

/// The view of a context shows what kind it is and what it holds.
pub proof fn law_event_context_is_shown(context: EventContext)
    ensures
        match context {
            EventContext::Trace(context) => held(Some(EventContext::Trace(context))) == Some(
                EventContextView::Trace(context@),
            ),
            EventContext::Other(context) => held(Some(EventContext::Other(context))) == Some(
                EventContextView::Other(context),
            ),
        },
{
}

/// A transaction record starts with its name and nothing else.
pub proof fn law_transaction_record_is_started(name: String, started: record::Transaction)
    requires
        call_ensures(record::Transaction::new, (name,), started),
    ensures
        started@.name == Some(name@),
        started@.release is None,
        started@.environment is None,
        started@.user is None,
        started@.tags == Map::<Seq<char>, Seq<char>>::empty(),
        started@.extra == Map::<Seq<char>, Value>::empty(),
        started@.sdk is None,
        started@.timestamp is None,
        started@.spans == Seq::<SpanView>::empty(),
        started@.contexts == Map::<Seq<char>, EventContextView>::empty(),
        started@.request is None,
        started@.server_name is None,
{
}

// Keys

/// The order of keys is that of their first difference: what two keys start with alike does not
/// count, a key comes before all that go on where it ends, and else the smaller code point comes
/// first.
pub proof fn law_first_difference_orders_keys(prefix: Seq<char>, a: Seq<char>, b: Seq<char>)
    requires
        a.len() > 0 && b.len() > 0 ==> a[0] != b[0],
    ensures
        string_map::text_before(prefix + a, prefix + b) <==> b.len() > 0 && (a.len() == 0 || (
        a[0] as int) < b[0] as int),
    decreases prefix.len(),
{
    if prefix.len() == 0 {
        assert(prefix + a =~= a && prefix + b =~= b);
    } else {
        assert((prefix + a).drop_first() =~= prefix.drop_first() + a);
        assert((prefix + b).drop_first() =~= prefix.drop_first() + b);
        law_first_difference_orders_keys(prefix.drop_first(), a, b);
    }
}

/// The entries of a map are shown in the order of their keys.
pub proof fn law_entries_are_in_order<V>(
    map: &StringMap<V>,
    entries: Vec<(&String, &V)>,
    i: int,
    j: int,
)
    requires
        call_ensures(StringMap::<V>::iter, (map,), entries),
        0 <= i < j < entries@.len(),
    ensures
        string_map::text_before(entries@[i].0@, entries@[j].0@),
{
}

} // verus!
