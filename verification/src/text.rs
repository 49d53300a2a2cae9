//! The text operations that trace headers are read with.
use vstd::prelude::*;

verus! {

/// The characters with the Unicode property `White_Space`.
pub open spec fn is_white_space(c: char) -> bool {
    let code = c as int;
    ||| 0x09 <= code <= 0x0d
    ||| code == 0x20
    ||| code == 0x85
    ||| code == 0xa0
    ||| code == 0x1680
    ||| 0x2000 <= code <= 0x200a
    ||| code == 0x2028
    ||| code == 0x2029
    ||| code == 0x202f
    ||| code == 0x205f
    ||| code == 0x3000
}

/// `text` without the white space that it starts with.
pub open spec fn trim_start(text: Seq<char>) -> Seq<char>
    decreases text.len(),
{
    if text.len() > 0 && is_white_space(text.first()) {
        trim_start(text.drop_first())
    } else {
        text
    }
}

/// `text` without the white space that it ends with.
pub open spec fn trim_end(text: Seq<char>) -> Seq<char>
    decreases text.len(),
{
    if text.len() > 0 && is_white_space(text.last()) {
        trim_end(text.drop_last())
    } else {
        text
    }
}

/// `c` with the letters `A` to `Z` replaced by `a` to `z`.
pub open spec fn ascii_lower(c: char) -> char {
    if 'A' <= c <= 'Z' {
        (c as int + 32) as char
    } else {
        c
    }
}

/// `text` with the letters `A` to `Z` replaced by `a` to `z`.
pub open spec fn ascii_lowercase(text: Seq<char>) -> Seq<char> {
    text.map_values(|c: char| ascii_lower(c))
}

/// The number of characters of `text` before its first `delimiter`; all of them where it has none.
pub open spec fn prefix_len(text: Seq<char>, delimiter: char) -> nat
    decreases text.len(),
{
    if text.len() == 0 || text.first() == delimiter {
        0
    } else {
        1 + prefix_len(text.drop_first(), delimiter)
    }
}

/// What stands before and after the first `delimiter` in `text`; `None` where it has none.
pub open spec fn split_at_first(text: Seq<char>, delimiter: char) -> Option<
    (Seq<char>, Seq<char>),
> {
    let n = prefix_len(text, delimiter) as int;
    if n < text.len() {
        Some((text.take(n), text.skip(n + 1)))
    } else {
        None
    }
}

/// `str::trim` returns the text without the white space at its two ends, where white space is
/// what Unicode gives the property `White_Space`.
pub assume_specification[ str::trim ](s: &str) -> (trimmed: &str)
    ensures
        trimmed@ == trim_end(trim_start(s@)),
;

/// `str::eq_ignore_ascii_case` tells whether two texts are equal once the ASCII letters of both
/// are brought to lower case.
pub assume_specification[ str::eq_ignore_ascii_case ](s: &str, other: &str) -> (equal: bool)
    ensures
        equal == (ascii_lowercase(s@) == ascii_lowercase(other@)),
;

/// Calls `str::split_once`: the text is split at the first occurrence of the delimiter, into what
/// stands before and what stands after it.
#[verifier::external_body]
fn split_once<'a>(text: &'a str, delimiter: char) -> (parts: Option<(&'a str, &'a str)>)
    ensures
        match parts {
            Some((before, after)) => {
                &&& text@ == before@ + seq![delimiter] + after@
                &&& !before@.contains(delimiter)
            },
            None => !text@.contains(delimiter),
        },
{
    text.split_once(delimiter)
}

/// Splits `text` at its first `delimiter`.
pub(crate) fn split_first<'a>(text: &'a str, delimiter: char) -> (parts: Option<(&'a str, &'a str)>)
    ensures
        match parts {
            Some((before, after)) => split_at_first(text@, delimiter) == Some((before@, after@)),
            None => split_at_first(text@, delimiter) is None,
        },
{
    let parts = split_once(text, delimiter);
    proof {
        match parts {
            Some((before, after)) => {
                lemma_prefix_len(before@, after@, delimiter);
                assert(text@.take(before@.len() as int) =~= before@);
                assert(text@.skip(before@.len() as int + 1) =~= after@);
            },
            None => {
                lemma_prefix_len_whole(text@, delimiter);
            },
        }
    }
    parts
}

/// A text without the delimiter, followed by the delimiter, is the text's own prefix.
pub proof fn lemma_prefix_len(before: Seq<char>, after: Seq<char>, delimiter: char)
    requires
        !before.contains(delimiter),
    ensures
        prefix_len(before + seq![delimiter] + after, delimiter) == before.len(),
    decreases before.len(),
{
    let whole = before + seq![delimiter] + after;
    if before.len() > 0 {
        let rest = before.drop_first();
        assert(before.contains(before[0]));
        assert forall|c: char| rest.contains(c) implies before.contains(c) by {
            let i = choose|i: int| 0 <= i < rest.len() && rest[i] == c;
            assert(before[i + 1] == c);
        }
        lemma_prefix_len(rest, after, delimiter);
        assert(whole.drop_first() =~= rest + seq![delimiter] + after);
    }
}

/// A text without the delimiter is its own prefix.
pub proof fn lemma_prefix_len_whole(text: Seq<char>, delimiter: char)
    requires
        !text.contains(delimiter),
    ensures
        prefix_len(text, delimiter) == text.len(),
    decreases text.len(),
{
    if text.len() > 0 {
        let rest = text.drop_first();
        assert(text.contains(text[0]));
        assert forall|c: char| rest.contains(c) implies text.contains(c) by {
            let i = choose|i: int| 0 <= i < rest.len() && rest[i] == c;
            assert(text[i + 1] == c);
        }
        lemma_prefix_len_whole(rest, delimiter);
    }
}

} // verus!
