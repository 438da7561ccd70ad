//! Cutting the text of a match out of a haystack.
//!
//! Offsets count bytes, strings are made of characters.  A part of a
//! string is a string only between two character boundaries, so this module
//! proves that an occurrence of a non-empty pattern begins and ends on one.

use crate::occurrence::{bytes_agree, fold_ascii};
use vstd::prelude::*;
use vstd::utf8::{
    encode_utf8, encode_utf8_valid_utf8, is_char_boundary,
    is_char_boundary_iff_not_is_continuation_byte, is_char_boundary_start_end_of_seq,
    is_continuation_byte, length_of_first_scalar, pop_first_scalar, valid_utf8, valid_utf8_split,
};

verus! {

/// Bytes that agree are continuation bytes together or not at all:
/// folding the case of ASCII letters touches no byte of a longer character.
pub proof fn lemma_agreeing_bytes_continue_alike(left: u8, right: u8, fold: bool)
    requires
        if fold {
            fold_ascii(left) == fold_ascii(right)
        } else {
            left == right
        },
    ensures
        is_continuation_byte(left) == is_continuation_byte(right),
        left >= 0x80 || right >= 0x80 ==> left == right,
{
}

/// A boundary of a string is a boundary of each of its prefixes that ends
/// on a boundary at or behind it.
pub proof fn lemma_boundary_in_prefix(bytes: Seq<u8>, index: int, end: int)
    requires
        valid_utf8(bytes),
        0 <= index <= end <= bytes.len(),
        is_char_boundary(bytes, index),
        is_char_boundary(bytes, end),
    ensures
        valid_utf8(bytes.subrange(0, end)),
        is_char_boundary(bytes.subrange(0, end), index),
{
    let prefix = bytes.subrange(0, end);
    valid_utf8_split(bytes, end);
    if index == end {
        is_char_boundary_start_end_of_seq(prefix);
    } else {
        is_char_boundary_iff_not_is_continuation_byte(bytes, index);
        assert(prefix[index] == bytes[index]);
        is_char_boundary_iff_not_is_continuation_byte(prefix, index);
    }
}

/// The bytes between two character boundaries of a string form a string.
pub proof fn lemma_between_boundaries_valid(bytes: Seq<u8>, start: int, end: int)
    requires
        valid_utf8(bytes),
        0 <= start <= end <= bytes.len(),
        is_char_boundary(bytes, start),
        is_char_boundary(bytes, end),
    ensures
        valid_utf8(bytes.subrange(start, end)),
{
    lemma_boundary_in_prefix(bytes, start, end);
    let prefix = bytes.subrange(0, end);
    valid_utf8_split(prefix, start);
    assert(prefix.subrange(start, prefix.len() as int) =~= bytes.subrange(start, end));
}

/// Where a string begins with bytes that agree with a whole string, those
/// bytes end on a character boundary.
pub proof fn lemma_agreeing_prefix_ends_on_boundary(pattern: Seq<u8>, text: Seq<u8>, fold: bool)
    requires
        valid_utf8(pattern),
        valid_utf8(text),
        pattern.len() <= text.len(),
        bytes_agree(text.subrange(0, pattern.len() as int), pattern, fold),
    ensures
        is_char_boundary(text, pattern.len() as int),
    decreases pattern.len(),
{
    let covered = text.subrange(0, pattern.len() as int);
    if pattern.len() > 0 {
        assert(covered[0] == text[0]);
        lemma_agreeing_bytes_continue_alike(covered[0], pattern[0], fold);
        let width = length_of_first_scalar(pattern);
        assert(width == length_of_first_scalar(text));
        assert(width <= pattern.len());
        let pattern_rest = pop_first_scalar(pattern);
        let text_rest = pop_first_scalar(text);
        assert(bytes_agree(text_rest.subrange(0, pattern_rest.len() as int), pattern_rest, fold))
            by {
            assert forall|i: int| 0 <= i < pattern_rest.len() implies if fold {
                fold_ascii(
                    #[trigger] text_rest.subrange(0, pattern_rest.len() as int)[i],
                ) == fold_ascii(pattern_rest[i])
            } else {
                text_rest.subrange(0, pattern_rest.len() as int)[i] == pattern_rest[i]
            } by {
                assert(text_rest.subrange(0, pattern_rest.len() as int)[i] == covered[width + i]);
                assert(pattern_rest[i] == pattern[width + i]);
            }
        }
        lemma_agreeing_prefix_ends_on_boundary(pattern_rest, text_rest, fold);
    }
}

/// An occurrence of a non-empty string in a string begins and ends on a
/// character boundary, also where the case of ASCII letters is ignored.
pub proof fn lemma_occurrence_on_char_boundaries(
    pattern: Seq<u8>,
    haystack: Seq<u8>,
    start: int,
    end: int,
    fold: bool,
)
    requires
        valid_utf8(pattern),
        valid_utf8(haystack),
        0 <= start < end <= haystack.len(),
        bytes_agree(haystack.subrange(start, end), pattern, fold),
    ensures
        is_char_boundary(haystack, start),
        is_char_boundary(haystack, end),
{
    let covered = haystack.subrange(start, end);
    assert(covered[0] == haystack[start]);
    lemma_agreeing_bytes_continue_alike(covered[0], pattern[0], fold);
    is_char_boundary_iff_not_is_continuation_byte(pattern, 0);
    is_char_boundary_iff_not_is_continuation_byte(haystack, start);
    assert(is_char_boundary(haystack, start));
    let tail = haystack.subrange(start, haystack.len() as int);
    valid_utf8_split(haystack, start);
    assert(tail.subrange(0, pattern.len() as int) =~= covered);
    lemma_agreeing_prefix_ends_on_boundary(pattern, tail, fold);
    if end < haystack.len() {
        is_char_boundary_iff_not_is_continuation_byte(tail, end - start);
        assert(tail[end - start] == haystack[end]);
        is_char_boundary_iff_not_is_continuation_byte(haystack, end);
    } else {
        is_char_boundary_start_end_of_seq(haystack);
    }
}

/// The part of the haystack between two character boundaries.
pub fn slice<'a>(haystack: &'a str, start: usize, end: usize) -> (part: &'a str)
    requires
        start <= end <= encode_utf8(haystack@).len(),
        is_char_boundary(encode_utf8(haystack@), start as int),
        is_char_boundary(encode_utf8(haystack@), end as int),
    ensures
        encode_utf8(part@) == encode_utf8(haystack@).subrange(start as int, end as int),
{
    proof {
        encode_utf8_valid_utf8(haystack@);
        lemma_boundary_in_prefix(encode_utf8(haystack@), start as int, end as int);
    }
    let (head, _) = haystack.split_at(end);
    let (_, part) = head.split_at(start);
    assert(encode_utf8(part@) =~= encode_utf8(haystack@).subrange(start as int, end as int));
    part
}

/// The bytes `start..end` of the haystack as a string of their own.  An
/// empty range gives the empty string wherever it lies; any other has to
/// lie between two character boundaries.
pub fn text_between(haystack: &str, start: usize, end: usize) -> (text: String)
    requires
        start <= end <= encode_utf8(haystack@).len(),
        start < end ==> is_char_boundary(encode_utf8(haystack@), start as int)
            && is_char_boundary(encode_utf8(haystack@), end as int),
    ensures
        encode_utf8(text@) == encode_utf8(haystack@).subrange(start as int, end as int),
{
    if start == end {
        let text = String::new();
        assert(encode_utf8(text@) =~= encode_utf8(haystack@).subrange(start as int, end as int));
        text
    } else {
        slice(haystack, start, end).to_owned()
    }
}

} // verus!
