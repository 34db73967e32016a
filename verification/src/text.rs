use crate::error::WaymoError;
use vstd::prelude::*;
use vstd::slice::slice_to_vec;
use vstd::string::StringSliceAdditionalSpecFns;
use vstd::utf8::*;

verus! {

/// The byte that ends a native string. It cannot occur inside one.
pub const TERMINATOR: u8 = 0;

/// Whether a text holds the terminator character.
pub open spec fn has_terminator(text: Seq<char>) -> bool {
    text.contains('\0')
}

/// Whether a byte sequence can stand in front of a terminator unchanged: none
/// of its bytes is the terminator.
pub open spec fn terminator_free(bytes: Seq<u8>) -> bool {
    forall|i: int| 0 <= i < bytes.len() ==> bytes[i] != TERMINATOR
}

/// The UTF-8 encoding of one character holds a zero byte only when the
/// character is the terminator itself, and then it is that single byte.
proof fn lemma_scalar_terminator(c: char)
    ensures
        c == '\0' ==> encode_scalar(c as u32) =~= seq![TERMINATOR],
        c != '\0' ==> terminator_free(encode_scalar(c as u32)),
{
    let v = c as u32;
    char_is_scalar(c);
    if has_width_1_encoding(v) {
        assert((v & 0x7F) as u8 == 0 <==> v == 0) by (bit_vector)
            requires
                v <= 0x7F,
        ;
    } else if has_width_2_encoding(v) {
        assert((0xC0u8 | ((v >> 6) & 0x1F) as u8) != 0) by (bit_vector);
        assert((0x80u8 | (v & 0x3F) as u8) != 0) by (bit_vector);
    } else if has_width_3_encoding(v) {
        assert((0xE0u8 | ((v >> 12) & 0x0F) as u8) != 0) by (bit_vector);
        assert((0x80u8 | ((v >> 6) & 0x3F) as u8) != 0) by (bit_vector);
        assert((0x80u8 | (v & 0x3F) as u8) != 0) by (bit_vector);
    } else {
        assert((0xF0u8 | ((v >> 18) & 0x7) as u8) != 0) by (bit_vector);
        assert((0x80u8 | ((v >> 12) & 0x3F) as u8) != 0) by (bit_vector);
        assert((0x80u8 | ((v >> 6) & 0x3F) as u8) != 0) by (bit_vector);
        assert((0x80u8 | (v & 0x3F) as u8) != 0) by (bit_vector);
    }
}

/// A text holds the terminator character exactly when its UTF-8 encoding
/// holds the terminator byte: encoding neither hides a terminator nor
/// introduces one.
pub proof fn lemma_encoding_keeps_terminators(text: Seq<char>)
    ensures
        terminator_free(encode_utf8(text)) <==> !has_terminator(text),
    decreases text.len(),
{
    if text.len() == 0 {
    } else {
        let head = encode_scalar(text[0] as u32);
        let rest = text.drop_first();
        let tail = encode_utf8(rest);
        lemma_scalar_terminator(text[0]);
        lemma_encoding_keeps_terminators(rest);
        assert(encode_utf8(text) == head + tail);
        if has_terminator(text) {
            let k = choose|k: int| 0 <= k < text.len() && text[k] == '\0';
            if k == 0 {
                assert((head + tail)[0] == TERMINATOR);
            } else {
                assert(rest[k - 1] == '\0');
                assert(has_terminator(rest));
                let j = choose|j: int| 0 <= j < tail.len() && tail[j] == TERMINATOR;
                assert((head + tail)[head.len() + j] == TERMINATOR);
            }
        } else {
            assert(text[0] != '\0');
            assert forall|k: int| 0 <= k < rest.len() implies rest[k] != '\0' by {
                assert(rest[k] == text[k + 1]);
            }
            assert(!has_terminator(rest));
            assert forall|i: int| 0 <= i < (head + tail).len() implies (head + tail)[i]
                != TERMINATOR by {
                if i >= head.len() {
                    assert((head + tail)[i] == tail[i - head.len()]);
                }
            }
        }
    }
}

/// A text in the form the worker reads: its UTF-8 bytes, none of which is the
/// terminator, so that a terminator can be appended without cutting it short.
#[derive(Debug)]
pub struct NativeText {
    bytes: Vec<u8>,
}

impl View for NativeText {
    type V = Seq<u8>;

    closed spec fn view(&self) -> Seq<u8> {
        self.bytes@
    }
}

impl NativeText {
    #[verifier::type_invariant]
    spec fn terminated_nowhere(&self) -> bool {
        terminator_free(self.bytes@)
    }

    /// Converts a text to its native form. Fails, with
    /// `InvalidConfigurationText`, exactly when the text holds a terminator
    /// character; otherwise the result holds the text's UTF-8 encoding.
    pub fn new(text: &str) -> (result: Result<NativeText, WaymoError>)
        ensures
            has_terminator(text@) <==> result is Err,
            result matches Err(e) ==> e == WaymoError::InvalidConfigurationText,
            result matches Ok(native) ==> native@ == encode_utf8(text@) && terminator_free(
                native@,
            ),
    {
        let bytes = text.as_bytes();
        proof {
            lemma_encoding_keeps_terminators(text@);
        }
        let mut i: usize = 0;
        while i < bytes.len()
            invariant
                i <= bytes.len(),
                forall|j: int| 0 <= j < i ==> bytes@[j] != TERMINATOR,
                terminator_free(bytes@) <==> !has_terminator(text@),
            decreases bytes.len() - i,
        {
            if bytes[i] == TERMINATOR {
                assert(bytes@[i as int] == TERMINATOR);
                return Err(WaymoError::InvalidConfigurationText);
            }
            i += 1;
        }
        Ok(NativeText { bytes: slice_to_vec(bytes) })
    }

    /// The bytes to hand to the worker, without a terminator at the end.
    pub fn as_bytes(&self) -> (bytes: &[u8])
        ensures
            bytes@ == self@,
            terminator_free(bytes@),
    {
        proof {
            use_type_invariant(self);
        }
        self.bytes.as_slice()
    }

    /// The number of bytes, the terminator not counted.
    pub fn len(&self) -> (n: usize)
        ensures
            n == self@.len(),
    {
        self.bytes.len()
    }
}

} // verus!
