//! Text as the bytes of its UTF-8 encoding: how long it is, and when two
//! texts are the same.

use vstd::prelude::*;
use vstd::utf8::*;

verus! {

/// Number of bytes that `text` takes on the wire, which is the length of its
/// UTF-8 encoding.
pub open spec fn byte_length(text: Seq<char>) -> nat {
    encode_utf8(text).len()
}

/// A text takes at least one byte and at most four for each of its
/// characters.
pub proof fn lemma_byte_length_bounds(text: Seq<char>)
    ensures
        text.len() <= byte_length(text) <= 4 * text.len(),
    decreases text.len(),
{
    if text.len() > 0 {
        char_is_scalar(text[0]);
        lemma_byte_length_bounds(text.drop_first());
    }
}

/// A character whose encoding is a single byte lies in the ASCII range.
proof fn lemma_one_byte_char_is_ascii(c: char)
    requires
        encode_scalar(c as u32).len() == 1,
    ensures
        '\0' <= c <= '\u{7f}',
{
}

/// The byte length of a text is its number of characters exactly when all of
/// them are ASCII: one character beyond ASCII makes the text longer in bytes
/// than in characters.
pub proof fn lemma_byte_length_of_ascii(text: Seq<char>)
    ensures
        byte_length(text) == text.len() <==> is_ascii_chars(text),
    decreases text.len(),
{
    if text.len() > 0 {
        let rest = text.drop_first();
        char_is_scalar(text[0]);
        lemma_byte_length_of_ascii(rest);
        lemma_byte_length_bounds(rest);
        if is_ascii_chars(text) {
            assert forall|i: int| 0 <= i < rest.len() implies '\0' <= #[trigger] rest[i]
                <= '\u{7f}' by {
                assert(rest[i] == text[i + 1]);
            }
        }
        if byte_length(text) == text.len() {
            assert(byte_length(text) == encode_scalar(text[0] as u32).len() + byte_length(rest));
            lemma_one_byte_char_is_ascii(text[0]);
            assert forall|i: int| 0 <= i < text.len() implies '\0' <= #[trigger] text[i]
                <= '\u{7f}' by {
                if i > 0 {
                    assert(text[i] == rest[i - 1]);
                }
            }
        }
    }
}

/// Two texts with the same UTF-8 encoding are the same text.
pub proof fn lemma_encoding_tells_texts_apart(a: Seq<char>, b: Seq<char>)
    requires
        encode_utf8(a) == encode_utf8(b),
    ensures
        a == b,
{
    encode_utf8_decode_utf8(a);
    encode_utf8_decode_utf8(b);
}

/// Whether `a` and `b` are the same text, decided on the bytes of their
/// encodings.
pub fn same_text(a: &str, b: &str) -> (same: bool)
    ensures
        same == (a@ == b@),
{
    let x = a.as_bytes();
    let y = b.as_bytes();
    if x.len() != y.len() {
        return false;
    }
    let mut i: usize = 0;
    while i < x.len()
        invariant
            i <= x@.len(),
            x@.len() == y@.len(),
            x@ == encode_utf8(a@),
            y@ == encode_utf8(b@),
            forall|j: int| 0 <= j < i ==> x@[j] == y@[j],
        decreases x@.len() - i,
    {
        if x[i] != y[i] {
            return false;
        }
        i += 1;
    }
    proof {
        assert(x@ =~= y@);
        lemma_encoding_tells_texts_apart(a@, b@);
    }
    true
}

} // verus!
