//! Texts on their way to the engine, which reads them as C strings.

use vstd::prelude::*;
use vstd::utf8::{encode_scalar, encode_utf8, is_scalar};

verus! {

/// Whether a text can be handed to the engine whole. The engine reads a text
/// up to its first zero byte, and in UTF-8 only the character U+0000 has one:
/// a text that holds it cannot cross.
pub open spec fn is_c_text(text: Seq<char>) -> bool {
    forall|i: int| 0 <= i < text.len() ==> text[i] != '\0'
}

/// Whether one of the bytes is zero.
pub open spec fn has_zero_byte(bytes: Seq<u8>) -> bool {
    exists|at: int| 0 <= at < bytes.len() && bytes[at] == 0
}

/// The UTF-8 bytes of a scalar hold a zero byte only where the scalar is
/// zero.
proof fn lemma_scalar_zero_byte(scalar: u32)
    requires
        is_scalar(scalar),
    ensures
        has_zero_byte(encode_scalar(scalar)) <==> scalar == 0,
{
    let bytes = encode_scalar(scalar);
    assert(scalar <= 0x7f ==> (((scalar & 0x7F) as u8 == 0) <==> scalar == 0)) by (bit_vector);
    assert(0xC0u8 | (((scalar >> 6) & 0x1F) as u8) != 0) by (bit_vector);
    assert(0xE0u8 | (((scalar >> 12) & 0x0F) as u8) != 0) by (bit_vector);
    assert(0xF0u8 | (((scalar >> 18) & 0x7) as u8) != 0) by (bit_vector);
    assert(0x80u8 | ((scalar & 0x3F) as u8) != 0) by (bit_vector);
    assert(0x80u8 | (((scalar >> 6) & 0x3F) as u8) != 0) by (bit_vector);
    assert(0x80u8 | (((scalar >> 12) & 0x3F) as u8) != 0) by (bit_vector);
    if scalar == 0 {
        assert(bytes[0] == 0);
    }
}

/// A text can cross exactly where its UTF-8 bytes hold no zero byte, which is
/// what makes a text a C string.
pub proof fn lemma_c_text_has_no_zero_byte(text: Seq<char>)
    ensures
        is_c_text(text) <==> !has_zero_byte(encode_utf8(text)),
    decreases text.len(),
{
    if text.len() > 0 {
        let first = encode_scalar(text[0] as u32);
        let rest = encode_utf8(text.drop_first());
        let bytes = encode_utf8(text);
        assert(bytes == first + rest);
        vstd::utf8::char_is_scalar(text[0]);
        lemma_scalar_zero_byte(text[0] as u32);
        lemma_c_text_has_no_zero_byte(text.drop_first());
        assert((text[0] as u32 == 0) <==> text[0] == '\0') by {
            vstd::utf8::char_u32_cast(text[0], text[0] as u32);
            vstd::utf8::char_u32_cast('\0', 0u32);
        }
        if has_zero_byte(bytes) {
            let at = choose|at: int| 0 <= at < bytes.len() && bytes[at] == 0;
            if at < first.len() {
                assert(first[at] == 0);
            } else {
                assert(rest[at - first.len()] == 0);
                let inner = choose|i: int|
                    0 <= i < text.drop_first().len() && text.drop_first()[i] == '\0';
                assert(text[inner + 1] == '\0');
            }
            assert(!is_c_text(text));
        }
        if !is_c_text(text) {
            let i = choose|i: int| 0 <= i < text.len() && text[i] == '\0';
            if i == 0 {
                let at = choose|at: int| 0 <= at < first.len() && first[at] == 0;
                assert(bytes[at] == 0);
            } else {
                assert(text.drop_first()[i - 1] == '\0');
                let at = choose|at: int| 0 <= at < rest.len() && rest[at] == 0;
                assert(bytes[first.len() + at] == 0);
            }
            assert(has_zero_byte(bytes));
        }
    }
}

/// Decides [`is_c_text`].
pub fn c_text(text: &str) -> (fit: bool)
    ensures
        fit == is_c_text(text@),
{
    let mut fit = true;
    for c in it: text.chars()
        invariant
            it.seq() == text@,
            fit == (forall|i: int| 0 <= i < it.index() ==> text@[i] != '\0'),
    {
        fit = fit && c != '\0';
    }
    fit
}

} // verus!

verus! {

/// Whether the separator `::` of a path stands at position `at`.
pub open spec fn separator_at(path: Seq<char>, at: int) -> bool {
    0 <= at && at + 1 < path.len() && path[at] == ':' && path[at + 1] == ':'
}

/// Whether the last segment of a path starts at `start`: right behind a
/// separator, or at the front, with no separator from there on.
pub open spec fn is_segment_start(path: Seq<char>, start: int) -> bool {
    &&& 0 <= start <= path.len()
    &&& start == 0 || separator_at(path, start - 2)
    &&& forall|at: int| start - 1 <= at ==> !separator_at(path, at)
}

/// The last segment of a path: what stands behind its last `::`, and the whole
/// path where it has none.
pub open spec fn last_segment(path: Seq<char>) -> Seq<char> {
    path.skip(choose|start: int| is_segment_start(path, start))
}

/// A path has one place where its last segment starts.
pub proof fn lemma_segment_start_unique(path: Seq<char>, first: int, second: int)
    requires
        is_segment_start(path, first),
        is_segment_start(path, second),
    ensures
        first == second,
{
    if first < second {
        assert(separator_at(path, second - 2));
    } else if second < first {
        assert(separator_at(path, first - 2));
    }
}

/// The last segment of a path, as a text of its own.
pub fn segment(path: &str) -> (name: String)
    ensures
        name@ == last_segment(path@),
{
    let length: usize = path.unicode_len();
    let mut start: usize = 0;
    let mut after_colon = false;
    let mut seen: usize = 0;
    for c in it: path.chars()
        invariant
            it.seq() == path@,
            length == path@.len(),
            seen == it.index(),
            0 <= start <= seen,
            after_colon == (seen > 0 && path@[seen - 1] == ':'),
            start == 0 || separator_at(path@, start - 2),
            forall|at: int| start - 1 <= at && at + 1 < seen ==> !separator_at(path@, at),
    {
        if c == ':' && after_colon {
            start = seen + 1;
        }
        after_colon = c == ':';
        seen = seen + 1;
    }
    proof {
        assert(is_segment_start(path@, start as int));
        let chosen = choose|at: int| is_segment_start(path@, at);
        lemma_segment_start_unique(path@, start as int, chosen);
    }
    path.substring_char(start, length).to_owned()
}

} // verus!
