//! The identifiers of traces and spans, and their hexadecimal text.
use vstd::prelude::*;

use vstd::string::*;

verus! {

/// The number that a hexadecimal digit stands for, in either case.
pub open spec fn digit_value(c: char) -> Option<int> {
    if '0' <= c <= '9' {
        Some(c as int - '0' as int)
    } else if 'a' <= c <= 'f' {
        Some(c as int - 'a' as int + 10)
    } else if 'A' <= c <= 'F' {
        Some(c as int - 'A' as int + 10)
    } else {
        None
    }
}

/// The lower case digit of a number below sixteen.
pub open spec fn lower_digit(n: int) -> char {
    if n < 10 {
        ('0' as int + n) as char
    } else {
        ('a' as int + n - 10) as char
    }
}

/// Whether `text` consists of the hexadecimal digits of `size` bytes, in either case.
pub open spec fn is_id_text(text: Seq<char>, size: nat) -> bool {
    &&& text.len() == 2 * size
    &&& forall|i: int| 0 <= i < text.len() ==> digit_value(#[trigger] text[i]) is Some
}

/// The bytes that a text of hexadecimal digits stands for, two digits a byte.
pub open spec fn hex_bytes(text: Seq<char>) -> Seq<u8> {
    Seq::new(
        text.len() / 2,
        |i: int| (16 * digit_value(text[2 * i])->0 + digit_value(text[2 * i + 1])->0) as u8,
    )
}

/// The lower case hexadecimal text of `bytes`, two digits a byte.
pub open spec fn hex_text(bytes: Seq<u8>) -> Seq<char> {
    Seq::new(
        2 * bytes.len(),
        |i: int|
            if i % 2 == 0 {
                lower_digit(bytes[i / 2] as int / 16)
            } else {
                lower_digit(bytes[i / 2] as int % 16)
            },
    )
}

/// The text of an identifier reads back as the identifier.
pub proof fn lemma_hex_text_reads_back(bytes: Seq<u8>)
    ensures
        is_id_text(hex_text(bytes), bytes.len()),
        hex_bytes(hex_text(bytes)) == bytes,
{
    let text = hex_text(bytes);
    assert forall|i: int| 0 <= i < bytes.len() implies #[trigger] hex_bytes(text)[i]
        == bytes[i] by {
        assert((2 * i) % 2 == 0 && (2 * i) / 2 == i);
        assert((2 * i + 1) % 2 == 1 && (2 * i + 1) / 2 == i);
    }
    assert(hex_bytes(text) =~= bytes);
}

/// Calls `from_str` of `sentry_types`' `TraceId` and writes what it read with its `Display`:
/// `from_str` accepts exactly the texts of 32 hexadecimal digits, in either case, and `Display`
/// writes the sixteen bytes that they stand for as lower case digits.
#[verifier::external_body]
fn read_trace_id(text: &str) -> (digits: Option<String>)
    ensures
        match digits {
            Some(digits) => is_id_text(text@, 16) && digits@ == hex_text(hex_bytes(text@)),
            None => !is_id_text(text@, 16),
        },
{
    match text.parse::<sentry_types::protocol::v7::TraceId>() {
        Ok(id) => Some(id.to_string()),
        Err(_) => None,
    }
}

/// Calls `Display` of `sentry_types`' `TraceId`: it writes the bytes that the identifier was made
/// from as lower case hexadecimal digits.
#[verifier::external_body]
fn trace_id_digits(bytes: [u8; 16]) -> (digits: String)
    ensures
        digits@ == hex_text(bytes@),
{
    sentry_types::protocol::v7::TraceId::from(bytes).to_string()
}

/// Calls `default` of `sentry_types`' `TraceId` and writes the result with its `Display`:
/// `default` picks sixteen bytes at random, which `Display` writes as hexadecimal digits. Which
/// bytes come is left unsaid.
#[verifier::external_body]
fn random_trace_id() -> (digits: String)
    ensures
        is_id_text(digits@, 16),
{
    sentry_types::protocol::v7::TraceId::default().to_string()
}

/// Calls `from_str` of `sentry_types`' `SpanId` and writes what it read with its `Display`:
/// `from_str` accepts exactly the texts of 16 hexadecimal digits, in either case, and `Display`
/// writes the eight bytes that they stand for as lower case digits.
#[verifier::external_body]
fn read_span_id(text: &str) -> (digits: Option<String>)
    ensures
        match digits {
            Some(digits) => is_id_text(text@, 8) && digits@ == hex_text(hex_bytes(text@)),
            None => !is_id_text(text@, 8),
        },
{
    match text.parse::<sentry_types::protocol::v7::SpanId>() {
        Ok(id) => Some(id.to_string()),
        Err(_) => None,
    }
}

/// Calls `Display` of `sentry_types`' `SpanId`: it writes the bytes that the identifier was made
/// from as lower case hexadecimal digits.
#[verifier::external_body]
fn span_id_digits(bytes: [u8; 8]) -> (digits: String)
    ensures
        digits@ == hex_text(bytes@),
{
    sentry_types::protocol::v7::SpanId::from(bytes).to_string()
}

/// Calls `default` of `sentry_types`' `SpanId` and writes the result with its `Display`: `default`
/// picks eight bytes at random, which `Display` writes as hexadecimal digits. Which bytes come is
/// left unsaid.
#[verifier::external_body]
fn random_span_id() -> (digits: String)
    ensures
        is_id_text(digits@, 8),
{
    sentry_types::protocol::v7::SpanId::default().to_string()
}

/// The number that an ASCII hexadecimal digit stands for.
fn digit(c: u8) -> (value: u8)
    requires
        digit_value(c as char) is Some,
    ensures
        value == digit_value(c as char)->0,
        value < 16,
{
    if c <= 57 {
        c - 48
    } else if c >= 97 {
        c - 97 + 10
    } else {
        c - 65 + 10
    }
}

/// The byte that digits `2 * i` and `2 * i + 1` of `text` stand for.
fn byte_at(text: &str, i: usize) -> (byte: u8)
    requires
        is_id_text(text@, text@.len() / 2),
        text@.len() <= 32,
        i < text@.len() / 2,
    ensures
        byte == hex_bytes(text@)[i as int],
{
    proof {
        assert forall|j: int| 0 <= j < text@.len() implies (text@[j] as int) < 128 by {
            assert(digit_value(text@[j]) is Some);
        }
        assert(text.is_ascii());
        assert(text.spec_bytes().len() == text@.len());
    }
    let digits = text.as_bytes();
    proof {
        assert(digit_value(text@[2 * i]) is Some);
        assert(digit_value(text@[2 * i + 1]) is Some);
        assert(digits@[2 * i] == text@[2 * i] as u8);
        assert(digits@[2 * i + 1] == text@[2 * i + 1] as u8);
    }
    let high = digit(digits[2 * i]);
    let low = digit(digits[2 * i + 1]);
    16 * high + low
}

/// Identifies a trace.
#[derive(Debug, Clone, Copy, PartialEq, Eq, Hash)]
pub struct TraceId {
    pub bytes: [u8; 16],
}

impl View for TraceId {
    type V = Seq<u8>;

    open spec fn view(&self) -> Seq<u8> {
        self.bytes@
    }
}

impl TraceId {
    /// Reads the text of 32 hexadecimal digits, in either case.
    pub fn from_str(text: &str) -> (id: Option<TraceId>)
        ensures
            match id {
                Some(id) => is_id_text(text@, 16) && id@ == hex_bytes(text@),
                None => !is_id_text(text@, 16),
            },
    {
        match read_trace_id(text) {
            Some(digits) => {
                proof {
                    lemma_hex_text_reads_back(hex_bytes(text@));
                }
                Some(Self::from_digits(digits.as_str()))
            },
            None => None,
        }
    }

    /// The identifier that 32 hexadecimal digits stand for.
    fn from_digits(digits: &str) -> (id: TraceId)
        requires
            is_id_text(digits@, 16),
        ensures
            id@ == hex_bytes(digits@),
    {
        let mut bytes: [u8; 16] = [0u8;16];
        let mut i: usize = 0;
        while i < 16
            invariant
                i <= 16,
                is_id_text(digits@, 16),
                forall|j: int| 0 <= j < i ==> bytes@[j] == hex_bytes(digits@)[j],
            decreases 16 - i,
        {
            bytes[i] = byte_at(digits, i);
            i += 1;
        }
        assert(bytes@ =~= hex_bytes(digits@));
        TraceId { bytes }
    }

    /// The identifier as 32 lower case hexadecimal digits.
    pub fn to_string(&self) -> (digits: String)
        ensures
            digits@ == hex_text(self@),
    {
        trace_id_digits(self.bytes)
    }
}

impl Default for TraceId {
    /// Picks an identifier at random.
    fn default() -> (id: TraceId) {
        Self::from_digits(random_trace_id().as_str())
    }
}

/// Identifies a span.
#[derive(Debug, Clone, Copy, PartialEq, Eq, Hash)]
pub struct SpanId {
    pub bytes: [u8; 8],
}

impl View for SpanId {
    type V = Seq<u8>;

    open spec fn view(&self) -> Seq<u8> {
        self.bytes@
    }
}

impl SpanId {
    /// Reads the text of 16 hexadecimal digits, in either case.
    pub fn from_str(text: &str) -> (id: Option<SpanId>)
        ensures
            match id {
                Some(id) => is_id_text(text@, 8) && id@ == hex_bytes(text@),
                None => !is_id_text(text@, 8),
            },
    {
        match read_span_id(text) {
            Some(digits) => {
                proof {
                    lemma_hex_text_reads_back(hex_bytes(text@));
                }
                Some(Self::from_digits(digits.as_str()))
            },
            None => None,
        }
    }

    /// The identifier that 16 hexadecimal digits stand for.
    fn from_digits(digits: &str) -> (id: SpanId)
        requires
            is_id_text(digits@, 8),
        ensures
            id@ == hex_bytes(digits@),
    {
        let mut bytes: [u8; 8] = [0u8;8];
        let mut i: usize = 0;
        while i < 8
            invariant
                i <= 8,
                is_id_text(digits@, 8),
                forall|j: int| 0 <= j < i ==> bytes@[j] == hex_bytes(digits@)[j],
            decreases 8 - i,
        {
            bytes[i] = byte_at(digits, i);
            i += 1;
        }
        assert(bytes@ =~= hex_bytes(digits@));
        SpanId { bytes }
    }

    /// The identifier as 16 lower case hexadecimal digits.
    pub fn to_string(&self) -> (digits: String)
        ensures
            digits@ == hex_text(self@),
    {
        span_id_digits(self.bytes)
    }
}

impl Default for SpanId {
    /// Picks an identifier at random.
    fn default() -> (id: SpanId) {
        Self::from_digits(random_span_id().as_str())
    }
}

} // verus!
