//! Escaping of a version for the badge renderer's URL syntax.
//!
//! The renderer splits the badge's file name at single hyphens, and reads two
//! hyphens in a row as one hyphen of the text. A version is therefore written
//! with each of its hyphens doubled, and with nothing else changed.

use vstd::prelude::*;
use vstd::utf8::{
    encode_scalar, encode_utf8, has_width_1_encoding, last_continuation_byte,
    leading_byte_width_1, leading_byte_width_2, leading_byte_width_3, leading_byte_width_4,
    second_last_continuation_byte, third_last_continuation_byte,
};
use crate::text::push_char;

verus! {

/// The character that the renderer reserves as its separator.
pub open spec fn is_separator(c: char) -> bool {
    c == '-'
}

/// What one character of a version becomes: two hyphens for a hyphen, itself
/// otherwise.
pub open spec fn escaped_char(c: char) -> Seq<char> {
    if is_separator(c) {
        seq!['-', '-']
    } else {
        seq![c]
    }
}

/// The escaped form of `text`: the escaped forms of its characters, in order.
pub open spec fn escaped(text: Seq<char>) -> Seq<char>
    decreases text.len(),
{
    if text.len() == 0 {
        Seq::empty()
    } else {
        escaped(text.drop_last()) + escaped_char(text.last())
    }
}

/// The escaped form of a text in UTF-8: every byte that is a hyphen twice, and
/// every other byte as it is.
pub open spec fn escaped_bytes(bytes: Seq<u8>) -> Seq<u8>
    decreases bytes.len(),
{
    if bytes.len() == 0 {
        Seq::empty()
    } else if bytes.last() == 0x2d {
        escaped_bytes(bytes.drop_last()) + seq![0x2du8, 0x2du8]
    } else {
        escaped_bytes(bytes.drop_last()).push(bytes.last())
    }
}

/// How many hyphens `text` holds.
pub open spec fn hyphens(text: Seq<char>) -> nat
    decreases text.len(),
{
    if text.len() == 0 {
        0
    } else if is_separator(text.last()) {
        hyphens(text.drop_last()) + 1
    } else {
        hyphens(text.drop_last())
    }
}

/// The characters of `text` that are no hyphens, in order.
pub open spec fn without_hyphens(text: Seq<char>) -> Seq<char>
    decreases text.len(),
{
    if text.len() == 0 {
        Seq::empty()
    } else if is_separator(text.last()) {
        without_hyphens(text.drop_last())
    } else {
        without_hyphens(text.drop_last()).push(text.last())
    }
}

/// The length of the run of hyphens that ends just before position `end`.
pub open spec fn hyphen_run(text: Seq<char>, end: int) -> nat
    decreases end,
{
    if 0 < end <= text.len() && is_separator(text[end - 1]) {
        hyphen_run(text, end - 1) + 1
    } else {
        0
    }
}

/// Whether a run of hyphens can end at `end`: the text ends there, or goes on
/// with another character.
pub open spec fn run_ends_at(text: Seq<char>, end: int) -> bool {
    end == text.len() || (0 <= end < text.len() && !is_separator(text[end]))
}

/// A version, to be written out in escaped form.
pub struct ShieldEscape<'a>(pub &'a str);

impl<'a> ShieldEscape<'a> {
    /// The escaped form of the version: each hyphen twice and nothing else
    /// changed, which holds of its characters and of its bytes alike.
    pub fn to_string(&self) -> (out: String)
        ensures
            out@ == escaped(self.0@),
            encode_utf8(out@) == escaped_bytes(encode_utf8(self.0@)),
    {
        broadcast use vstd::string::axiom_spec_iter;

        let mut out = String::new();
        let walk = self.0.chars();
        for c in it: walk
            invariant
                it.seq() == self.0@,
                out@ == escaped(self.0@.take(it.index())),
        {
            proof {
                let seen = self.0@.take(it.index() + 1);
                assert(seen.drop_last() == self.0@.take(it.index()));
                assert(seen.last() == c);
            }
            if c == '-' {
                push_char(&mut out, '-');
                push_char(&mut out, '-');
            } else {
                push_char(&mut out, c);
            }
        }
        proof {
            assert(self.0@.take(self.0@.len() as int) == self.0@);
            law_escaped_bytewise(self.0@);
        }
        out
    }
}

/// Hyphens are counted part by part.
proof fn lemma_hyphens_add(a: Seq<char>, b: Seq<char>)
    ensures
        hyphens(a + b) == hyphens(a) + hyphens(b),
    decreases b.len(),
{
    if b.len() == 0 {
        assert(a + b == a);
    } else {
        assert((a + b).drop_last() == a + b.drop_last());
        lemma_hyphens_add(a, b.drop_last());
    }
}

/// The other characters are collected part by part.
proof fn lemma_without_hyphens_add(a: Seq<char>, b: Seq<char>)
    ensures
        without_hyphens(a + b) == without_hyphens(a) + without_hyphens(b),
    decreases b.len(),
{
    if b.len() == 0 {
        assert(a + b == a);
    } else {
        assert((a + b).drop_last() == a + b.drop_last());
        lemma_without_hyphens_add(a, b.drop_last());
    }
}

/// Every hyphen of a version stands as two hyphens in its escaped form, and
/// the escaped form holds no other hyphen.
pub proof fn law_hyphens_doubled(version: Seq<char>)
    ensures
        hyphens(escaped(version)) == 2 * hyphens(version),
    decreases version.len(),
{
    if version.len() > 0 {
        let piece = escaped_char(version.last());
        law_hyphens_doubled(version.drop_last());
        lemma_hyphens_add(escaped(version.drop_last()), piece);
        reveal_with_fuel(hyphens, 3);
    }
}

/// Escaping keeps the characters that are no hyphens, each of them and their
/// order; so their number does not change.
pub proof fn law_others_unchanged(version: Seq<char>)
    ensures
        without_hyphens(escaped(version)) == without_hyphens(version),
        without_hyphens(escaped(version)).len() == without_hyphens(version).len(),
    decreases version.len(),
{
    if version.len() > 0 {
        let piece = escaped_char(version.last());
        law_others_unchanged(version.drop_last());
        lemma_without_hyphens_add(escaped(version.drop_last()), piece);
        reveal_with_fuel(without_hyphens, 3);
    }
}

/// The escaped form is as long as the version and its hyphens together.
pub proof fn law_escaped_len(version: Seq<char>)
    ensures
        escaped(version).len() == version.len() + hyphens(version),
    decreases version.len(),
{
    if version.len() > 0 {
        law_escaped_len(version.drop_last());
    }
}

/// Where each character of a version stands in the escaped form: as far to
/// the right of its own place as there are hyphens before it. A hyphen stands
/// there twice, any other character once.
pub proof fn law_character_places(version: Seq<char>, at: int)
    requires
        0 <= at < version.len(),
    ensures
        ({
            let place = at + hyphens(version.take(at));
            let out = escaped(version);
            if is_separator(version[at]) {
                place + 1 < out.len() && out[place] == '-' && out[place + 1] == '-'
            } else {
                place < out.len() && out[place] == version[at]
            }
        }),
    decreases version.len(),
{
    let before = version.drop_last();
    let piece = escaped_char(version.last());
    law_escaped_len(before);
    if at < before.len() {
        law_character_places(before, at);
        assert(before.take(at) == version.take(at));
        let place = at + hyphens(version.take(at));
        assert(escaped(version)[place] == escaped(before)[place]);
        if is_separator(version[at]) {
            assert(escaped(version)[place + 1] == escaped(before)[place + 1]);
        }
    } else {
        assert(version.take(at) == before);
        let place = at + hyphens(before);
        assert(escaped(version)[place] == piece[0]);
        if is_separator(version[at]) {
            assert(escaped(version)[place + 1] == piece[1]);
        }
    }
}

/// A run of hyphens is the same in a text and in any longer text that begins
/// with it.
proof fn lemma_hyphen_run_prefix(a: Seq<char>, b: Seq<char>, end: int)
    requires
        end <= a.len(),
    ensures
        hyphen_run(a + b, end) == hyphen_run(a, end),
    decreases end,
{
    if 0 < end {
        assert((a + b)[end - 1] == a[end - 1]);
        lemma_hyphen_run_prefix(a, b, end - 1);
    }
}

/// In the escaped form no hyphen stands alone: every run of hyphens that
/// cannot be extended has an even length.
pub proof fn law_hyphens_paired(version: Seq<char>, end: int)
    requires
        run_ends_at(escaped(version), end),
    ensures
        hyphen_run(escaped(version), end) % 2 == 0,
    decreases version.len(),
{
    if version.len() > 0 {
        let before = escaped(version.drop_last());
        let piece = escaped_char(version.last());
        let whole = escaped(version);
        let n = before.len() as int;
        assert(whole == before + piece);
        if end < n {
            assert(whole[end] == before[end]);
            law_hyphens_paired(version.drop_last(), end);
            lemma_hyphen_run_prefix(before, piece, end);
        } else if is_separator(version.last()) {
            assert(whole[n] == piece[0] && whole[n + 1] == piece[1]);
            assert(end == n + 2);
            law_hyphens_paired(version.drop_last(), n);
            lemma_hyphen_run_prefix(before, piece, n);
            reveal_with_fuel(hyphen_run, 3);
        } else {
            assert(whole[n] == piece[0]);
            if end == n {
                law_hyphens_paired(version.drop_last(), n);
                lemma_hyphen_run_prefix(before, piece, n);
            }
        }
    }
}

/// The bytes of a text are the bytes of its parts.
proof fn lemma_encode_utf8_add(a: Seq<char>, b: Seq<char>)
    ensures
        encode_utf8(a + b) == encode_utf8(a) + encode_utf8(b),
    decreases a.len(),
{
    if a.len() == 0 {
        assert(a + b == b);
    } else {
        assert((a + b).drop_first() == a.drop_first() + b);
        lemma_encode_utf8_add(a.drop_first(), b);
    }
}

/// Bytes are escaped part by part.
proof fn lemma_escaped_bytes_add(a: Seq<u8>, b: Seq<u8>)
    ensures
        escaped_bytes(a + b) == escaped_bytes(a) + escaped_bytes(b),
    decreases b.len(),
{
    if b.len() == 0 {
        assert(a + b == a);
    } else {
        assert((a + b).drop_last() == a + b.drop_last());
        lemma_escaped_bytes_add(a, b.drop_last());
    }
}

/// In UTF-8 the byte of the hyphen stands for the hyphen only: a character
/// of several bytes has none below 0x80.
proof fn lemma_hyphen_byte(scalar: u32)
    by (bit_vector)
    ensures
        has_width_1_encoding(scalar) ==> leading_byte_width_1(scalar) == scalar,
        leading_byte_width_2(scalar) >= 0x80,
        leading_byte_width_3(scalar) >= 0x80,
        leading_byte_width_4(scalar) >= 0x80,
        last_continuation_byte(scalar) >= 0x80,
        second_last_continuation_byte(scalar) >= 0x80,
        third_last_continuation_byte(scalar) >= 0x80,
{
}

/// Escaping one character as text, or its bytes as bytes, comes to the same.
proof fn lemma_escaped_char_bytes(c: char)
    ensures
        encode_utf8(escaped_char(c)) == escaped_bytes(encode_utf8(seq![c])),
{
    let bytes = encode_scalar(c as u32);
    assert(encode_utf8(seq![c]) == bytes) by {
        assert(seq![c].drop_first() == Seq::<char>::empty());
        reveal_with_fuel(encode_utf8, 2);
    }
    lemma_hyphen_byte(c as u32);
    reveal_with_fuel(escaped_bytes, 5);
    if is_separator(c) {
        assert(bytes == seq![0x2du8]);
        assert(encode_utf8(seq!['-', '-']) == seq![0x2du8, 0x2du8]) by {
            lemma_encode_utf8_add(seq!['-'], seq!['-']);
            assert(seq!['-'] + seq!['-'] == seq!['-', '-']);
        }
        assert(escaped_bytes(bytes) == seq![0x2du8, 0x2du8]) by {
            assert(bytes.drop_last() == Seq::<u8>::empty());
        }
    } else {
        assert(forall|i: int| 0 <= i < bytes.len() ==> bytes[i] != 0x2d);
        lemma_escaped_bytes_plain(bytes);
    }
}

/// Bytes without a hyphen are their own escaped form.
proof fn lemma_escaped_bytes_plain(bytes: Seq<u8>)
    requires
        forall|i: int| 0 <= i < bytes.len() ==> bytes[i] != 0x2d,
    ensures
        escaped_bytes(bytes) == bytes,
    decreases bytes.len(),
{
    if bytes.len() > 0 {
        lemma_escaped_bytes_plain(bytes.drop_last());
        assert(bytes.drop_last().push(bytes.last()) == bytes);
    }
}

/// Escaping works on the bytes of a version: the UTF-8 form of the escaped
/// version is the UTF-8 form of the version with every hyphen byte doubled.
/// A character of several bytes is never taken apart.
pub proof fn law_escaped_bytewise(version: Seq<char>)
    ensures
        encode_utf8(escaped(version)) == escaped_bytes(encode_utf8(version)),
    decreases version.len(),
{
    if version.len() > 0 {
        let before = version.drop_last();
        let c = version.last();
        law_escaped_bytewise(before);
        lemma_escaped_char_bytes(c);
        lemma_encode_utf8_add(escaped(before), escaped_char(c));
        assert(version == before + seq![c]);
        lemma_encode_utf8_add(before, seq![c]);
        lemma_escaped_bytes_add(encode_utf8(before), encode_utf8(seq![c]));
    }
}

} // verus!
