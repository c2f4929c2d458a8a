//! Locating and decoding the base64 payload of a `Program data:` log line.
use vstd::prelude::*;
use vstd::utf8::{
    is_char_boundary, is_char_boundary_iff_not_is_continuation_byte, is_continuation_byte,
    length_of_first_scalar, pop_first_scalar, valid_utf8,
};
use base64_simd::AsOut;

verus! {

/// The tag that precedes the payload: `b"Program data: "`.
pub const PROGRAM_DATA_TAG: [u8; 14] = [80, 114, 111, 103, 114, 97, 109, 32, 100, 97, 116, 97, 58, 32];

/// `needle` occurs in `haystack` at `i`.
pub open spec fn occurs_at(haystack: Seq<u8>, needle: Seq<u8>, i: int) -> bool {
    0 <= i && i + needle.len() <= haystack.len() && haystack.subrange(i, i + needle.len()) == needle
}

/// `i` is the first occurrence of `needle` in `haystack`.
pub open spec fn first_occurrence(haystack: Seq<u8>, needle: Seq<u8>, i: int) -> bool {
    occurs_at(haystack, needle, i) && forall|j: int| 0 <= j < i ==> !occurs_at(haystack, needle, j)
}

/// Two first occurrences are the same position.
pub proof fn lemma_first_occurrence_unique(haystack: Seq<u8>, needle: Seq<u8>, i: int, j: int)
    requires
        first_occurrence(haystack, needle, i),
        first_occurrence(haystack, needle, j),
    ensures
        i == j,
{
}

/// Calls `memchr::memmem::find(haystack, needle)`: the index of the first
/// occurrence of `needle` in `haystack`, or `None` when it does not occur.
#[verifier::external_body]
pub(crate) fn find_first(haystack: &[u8], needle: &[u8]) -> (r: Option<usize>)
    ensures
        r matches Some(i) ==> first_occurrence(haystack@, needle@, i as int),
        r is None ==> forall|j: int| !occurs_at(haystack@, needle@, j),
{
    memchr::memmem::find(haystack, needle)
}

/// Unicode `White_Space`: the characters that `str::trim` removes.
pub open spec fn is_white_space(c: char) -> bool {
    let u = c as u32;
    ||| 0x09 <= u <= 0x0d
    ||| u == 0x20
    ||| u == 0x85
    ||| u == 0xa0
    ||| u == 0x1680
    ||| 0x2000 <= u <= 0x200a
    ||| u == 0x2028
    ||| u == 0x2029
    ||| u == 0x202f
    ||| u == 0x205f
    ||| u == 0x3000
}

/// `s` without its leading white space.
pub open spec fn trim_start_ws(s: Seq<char>) -> Seq<char>
    decreases s.len(),
{
    if s.len() > 0 && is_white_space(s[0]) {
        trim_start_ws(s.drop_first())
    } else {
        s
    }
}

/// `s` without its trailing white space.
pub open spec fn trim_end_ws(s: Seq<char>) -> Seq<char>
    decreases s.len(),
{
    if s.len() > 0 && is_white_space(s.last()) {
        trim_end_ws(s.drop_last())
    } else {
        s
    }
}

/// `s` without leading and trailing white space.
pub open spec fn trim_ws(s: Seq<char>) -> Seq<char> {
    trim_end_ws(trim_start_ws(s))
}

/// Calls `str::trim`: `s` without the leading and trailing characters that
/// have the Unicode `White_Space` property.
#[verifier::external_body]
pub(crate) fn trim_white_space(s: &str) -> (r: &str)
    ensures
        r@ == trim_ws(s@),
{
    s.trim()
}

/// What `base64_simd::STANDARD` decodes `text` to (padded standard alphabet),
/// or `None` when `text` is not valid base64.
pub uninterp spec fn base64_standard(text: Seq<u8>) -> Option<Seq<u8>>;

/// Longest payload text decoded: it decodes to at most 2025 bytes, which the
/// 2048-byte decode buffer holds.
pub const MAX_PAYLOAD_TEXT: usize = 2700;

/// Calls `base64_simd::STANDARD.decode(text, buf)`: writes what `text`
/// decodes to at the start of `buf` and returns its length, or `None` when
/// `text` is not valid base64. The decoded bytes depend on `text` alone and
/// number at most three for every four characters; the rest of `buf` is left
/// unspecified.
#[verifier::external_body]
pub(crate) fn decode_base64_into(text: &[u8], buf: &mut [u8; 2048]) -> (r: Option<usize>)
    requires
        text@.len() <= MAX_PAYLOAD_TEXT,
    ensures
        r is Some <==> base64_standard(text@) is Some,
        r matches Some(m) ==> 4 * m <= 3 * text@.len(),
        r matches Some(m) ==> m <= 2048 && base64_standard(text@) == Some(
            final(buf)@.subrange(0, m as int),
        ),
{
    match base64_simd::STANDARD.decode(text, buf.as_mut_slice().as_out()) {
        Ok(decoded) => Some(decoded.len()),
        Err(_) => None,
    }
}

/// In valid UTF-8, the position after an ASCII byte that starts a character
/// also starts a character.
pub proof fn lemma_boundary_after_ascii(bytes: Seq<u8>, i: int)
    requires
        valid_utf8(bytes),
        0 <= i < bytes.len(),
        is_char_boundary(bytes, i),
        bytes[i] <= 0x7f,
    ensures
        is_char_boundary(bytes, i + 1),
    decreases bytes.len(),
{
    reveal_with_fuel(is_char_boundary, 2);
    let l = length_of_first_scalar(bytes);
    let pop = pop_first_scalar(bytes);
    if i == 0 {
        assert(l == 1);
    } else {
        assert(pop[i - l] == bytes[i]);
        lemma_boundary_after_ascii(pop, i - l);
    }
}

/// In valid UTF-8, an ASCII run starting at a character start ends at one.
pub proof fn lemma_boundary_after_ascii_run(bytes: Seq<u8>, i: int, n: int)
    requires
        valid_utf8(bytes),
        0 <= i,
        0 <= n,
        i + n <= bytes.len(),
        is_char_boundary(bytes, i),
        forall|k: int| i <= k < i + n ==> bytes[k] <= 0x7f,
    ensures
        is_char_boundary(bytes, i + n),
    decreases n,
{
    if n > 0 {
        lemma_boundary_after_ascii(bytes, i);
        lemma_boundary_after_ascii_run(bytes, i + 1, n - 1);
    }
}

/// In valid UTF-8, an ASCII byte starts a character.
pub proof fn lemma_ascii_is_boundary(bytes: Seq<u8>, i: int)
    requires
        valid_utf8(bytes),
        0 <= i < bytes.len(),
        bytes[i] <= 0x7f,
    ensures
        is_char_boundary(bytes, i),
{
    is_char_boundary_iff_not_is_continuation_byte(bytes, i);
    assert(!is_continuation_byte(bytes[i]));
}

} // verus!
