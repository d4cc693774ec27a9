//! String slices: a slice borrows a contiguous part of a string.
//!
//! `first_word` searches the bytes of a string for the first space and
//! returns the slice that stands before it. Its contract is stated over the
//! characters of the string; the proof carries the byte search over to
//! them through the UTF-8 encoding.

use vstd::prelude::*;
use vstd::utf8::*;

verus! {

/// The byte that encodes a space.
pub const SPACE: u8 = 0x20;

/// The first word of `s`: the characters before its first space, and all
/// of `s` where it holds no space.
pub open spec fn first_word_of(s: Seq<char>) -> Seq<char> {
    match s.index_of_first(' ') {
        Some(i) => s.take(i),
        None => s,
    }
}

/// What makes `w` the first word of `s`: it is a prefix of `s`, it holds no
/// space, and a space follows it unless it is all of `s`.
pub open spec fn is_first_word(s: Seq<char>, w: Seq<char>) -> bool {
    &&& w.is_prefix_of(s)
    &&& !w.contains(' ')
    &&& w.len() < s.len() ==> s[w.len() as int] == ' '
}

/// `first_word_of(s)` is a first word of `s`.
pub proof fn lemma_first_word_of_is_first_word(s: Seq<char>)
    ensures
        is_first_word(s, first_word_of(s)),
{
    s.index_of_first_ensures(' ');
    if s.index_of_first(' ') is None {
        assert(s =~= s.subrange(0, s.len() as int));
    }
}

/// A string has one first word only.
pub proof fn lemma_first_word_unique(s: Seq<char>, w: Seq<char>)
    requires
        is_first_word(s, w),
    ensures
        w == first_word_of(s),
{
    s.index_of_first_ensures(' ');
    let k = w.len() as int;
    assert forall|j: int| 0 <= j < k implies s[j] != ' ' by {
        assert(s[j] == w[j]);
    }
    match s.index_of_first(' ') {
        Some(i) => {
            // Neither `i < k`, a space inside `w`, nor `k < i`, a space
            // at `k` before the first one.
            assert(i == k);
        },
        None => {
            assert(w =~= s);
        },
    }
}

/// Where a string holds a space at `m`, its encoding holds the byte `SPACE`
/// at the index returned.
proof fn lemma_space_has_space_byte(s: Seq<char>, m: int) -> (j: int)
    requires
        0 <= m < s.len(),
        s[m] == ' ',
    ensures
        0 <= j < encode_utf8(s).len(),
        encode_utf8(s)[j] == SPACE,
    decreases s.len(),
{
    let head = encode_scalar(s[0] as u32);
    let tail = encode_utf8(s.drop_first());
    assert(encode_utf8(s) == head + tail);
    if m == 0 {
        assert(leading_byte_width_1(0x20u32) == SPACE) by (bit_vector);
        assert(head =~= seq![SPACE]);
        0
    } else {
        let j = lemma_space_has_space_byte(s.drop_first(), m - 1);
        assert((head + tail)[head.len() + j] == tail[j]);
        head.len() + j
    }
}

/// A string whose encoding holds no byte `SPACE` is its own first word.
proof fn lemma_no_space_byte(s: Seq<char>)
    requires
        forall|j: int| 0 <= j < encode_utf8(s).len() ==> encode_utf8(s)[j] != SPACE,
    ensures
        first_word_of(s) == s,
{
    assert forall|m: int| 0 <= m < s.len() implies s[m] != ' ' by {
        if s[m] == ' ' {
            let j = lemma_space_has_space_byte(s, m);
        }
    }
    assert(s.is_prefix_of(s)) by {
        assert(s =~= s.subrange(0, s.len() as int));
    }
    lemma_first_word_unique(s, s);
}

/// The first byte `SPACE` of a string's encoding starts a character, and the
/// bytes before it encode the string's first word.
proof fn lemma_first_space_byte(s: Seq<char>, i: int)
    requires
        0 <= i < encode_utf8(s).len(),
        encode_utf8(s)[i] == SPACE,
        forall|j: int| 0 <= j < i ==> encode_utf8(s)[j] != SPACE,
    ensures
        is_char_boundary(encode_utf8(s), i),
        decode_utf8(encode_utf8(s).subrange(0, i)) == first_word_of(s),
{
    let bytes = encode_utf8(s);
    let front = bytes.subrange(0, i);
    let back = bytes.subrange(i, bytes.len() as int);
    let w = decode_utf8(front);
    let rest = decode_utf8(back);

    // `SPACE` is no continuation byte, so a character starts at `i`, and
    // `s` is what the bytes on the two sides of `i` decode to.
    encode_utf8_valid_utf8(s);
    is_char_boundary_iff_not_is_continuation_byte(bytes, i);
    valid_utf8_split(bytes, i);
    decode_utf8_split(bytes, i);
    encode_utf8_decode_utf8(s);
    assert(s =~= w + rest);

    // No character of `w` is a space: its encoding would hold a byte
    // `SPACE` before `i`.
    decode_utf8_encode_utf8(front);
    assert forall|m: int| 0 <= m < w.len() implies w[m] != ' ' by {
        if w[m] == ' ' {
            let j = lemma_space_has_space_byte(w, m);
            assert(front[j] == bytes[j]);
        }
    }

    // `rest` starts with the space that the byte at `i` encodes.
    assert(back[0] == SPACE);
    assert(codepoint_width_1(SPACE) == 0x20u32) by (bit_vector);
    assert(rest.len() > 0 && rest[0] == ' ');

    assert(w.is_prefix_of(s)) by {
        assert(w =~= s.subrange(0, w.len() as int));
    }
    lemma_first_word_unique(s, w);
}

/// Returns the first word of `rs`: the slice of `rs` that stands before its
/// first space, and all of `rs` where it holds no space.
///
/// Spaces are the only separators: a tab or a line break is part of a word.
/// A string that starts with a space has the empty string as its first word.
pub fn first_word(rs: &str) -> (word: &str)
    ensures
        word@ == first_word_of(rs@),
        is_first_word(rs@, word@),
{
    let bytes = rs.as_bytes();
    let mut i: usize = 0;
    while i < bytes.len()
        invariant
            bytes@ == encode_utf8(rs@),
            i <= bytes@.len(),
            forall|j: int| 0 <= j < i ==> bytes@[j] != SPACE,
        decreases bytes@.len() - i,
    {
        if bytes[i] == SPACE {
            proof {
                lemma_first_space_byte(rs@, i as int);
            }
            let (word, _) = rs.split_at(i);
            proof {
                // `word` is what its own bytes decode to.
                encode_utf8_decode_utf8(word@);
                lemma_first_word_of_is_first_word(rs@);
            }
            return word;
        }
        i += 1;
    }
    proof {
        lemma_no_space_byte(rs@);
        lemma_first_word_of_is_first_word(rs@);
    }
    rs
}

} // verus!
