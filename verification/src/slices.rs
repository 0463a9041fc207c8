//! Taking the first word of a text: everything before its first space.

use vstd::prelude::*;
use vstd::string::StringSliceAdditionalSpecFns;
use vstd::utf8::*;

verus! {

/// The byte that encodes a space.
pub const SPACE: u8 = 0x20;

/// Whether `text` has a space at `at` and none before it.
pub open spec fn first_space_at(text: Seq<char>, at: int) -> bool {
    &&& 0 <= at < text.len()
    &&& text[at] == ' '
    &&& forall|before: int| 0 <= before < at ==> text[before] != ' '
}

/// Whether `bytes` has a space byte at `at` and none before it.
pub open spec fn first_space_byte_at(bytes: Seq<u8>, at: int) -> bool {
    &&& 0 <= at < bytes.len()
    &&& bytes[at] == SPACE
    &&& forall|before: int| 0 <= before < at ==> bytes[before] != SPACE
}

/// A space in a text shows as a space byte in its encoding.
proof fn lemma_space_is_encoded(text: Seq<char>, at: int)
    requires
        0 <= at < text.len(),
        text[at] == ' ',
    ensures
        encode_utf8(text).contains(SPACE),
    decreases at,
{
    let head = encode_scalar(text[0] as u32);
    let tail = encode_utf8(text.drop_first());
    if at == 0 {
        assert(leading_byte_width_1(0x20u32) == 0x20u8) by (bit_vector);
        assert((head + tail)[0] == SPACE);
    } else {
        lemma_space_is_encoded(text.drop_first(), at - 1);
        let inner = choose|i: int| 0 <= i < tail.len() && tail[i] == SPACE;
        assert((head + tail)[head.len() + inner] == SPACE);
    }
}

/// An encoding that starts with a space byte decodes to a text that starts
/// with a space.
proof fn lemma_space_is_decoded(bytes: Seq<u8>)
    requires
        valid_utf8(bytes),
        bytes.len() > 0,
        bytes[0] == SPACE,
    ensures
        decode_utf8(bytes).len() > 0,
        decode_utf8(bytes)[0] == ' ',
{
    assert(0x20u8 & 0x7f == 0x20u8) by (bit_vector);
}

/// The first word of `s`: the text before its first space, or all of `s` when
/// it has no space. The word is a view into `s`, not a copy.
///
/// The text is searched byte by byte, so the contract says where the word
/// ends both in characters and in bytes of the UTF-8 encoding.
pub fn first_world<'a>(s: &'a str) -> (word: &'a str)
    ensures
        !s@.contains(' ') ==> word@ == s@,
        forall|at: int| #[trigger] first_space_at(s@, at) ==> word@ == s@.take(at),
        !s.spec_bytes().contains(SPACE) ==> word.spec_bytes() == s.spec_bytes(),
        forall|at: int| #[trigger]
            first_space_byte_at(s.spec_bytes(), at) ==> word.spec_bytes() == s.spec_bytes().take(
                at,
            ),
{
    let bytes = s.as_bytes();
    let mut i: usize = 0;
    while i < bytes.len()
        invariant
            bytes@ == s.spec_bytes(),
            i <= bytes.len(),
            forall|before: int| 0 <= before < i ==> bytes@[before] != SPACE,
        decreases bytes.len() - i,
    {
        if bytes[i] == SPACE {
            let ghost all = s.spec_bytes();
            proof {
                encode_utf8_valid_utf8(s@);
                is_char_boundary_iff_not_is_continuation_byte(all, i as int);
            }
            let (word, rest) = s.split_at(i);
            proof {
                encode_utf8_decode_utf8(word@);
                encode_utf8_decode_utf8(rest@);
                encode_utf8_decode_utf8(s@);
                decode_utf8_split(all, i as int);
                encode_utf8_valid_utf8(rest@);
                lemma_space_is_decoded(rest.spec_bytes());
                assert(s@[word@.len() as int] == ' ');
                assert forall|at: int| 0 <= at < word@.len() implies word@[at] != ' ' by {
                    if word@[at] == ' ' {
                        lemma_space_is_encoded(word@, at);
                    }
                }
            }
            return word;
        }
        i += 1;
    }
    proof {
        assert forall|at: int| 0 <= at < s@.len() implies s@[at] != ' ' by {
            if s@[at] == ' ' {
                lemma_space_is_encoded(s@, at);
            }
        }
    }
    s
}

} // verus!
