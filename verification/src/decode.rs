use vstd::prelude::*;
use vstd::utf8::*;

verus! {

/// The value of an ASCII hexadecimal digit (either case), if `b` is one.
pub open spec fn hex_value(b: u8) -> Option<u8> {
    if 48 <= b <= 57 {
        Some((b - 48) as u8)
    } else if 65 <= b <= 70 {
        Some((b - 55) as u8)
    } else if 97 <= b <= 102 {
        Some((b - 87) as u8)
    } else {
        None
    }
}

/// Percent-decoding of bytes: each `%` followed by two hexadecimal digits
/// stands for the byte they spell; every other byte, a `%` that does not
/// start such an escape and `+` among them, stands for itself.
pub open spec fn percent_decode_bytes(b: Seq<u8>) -> Seq<u8>
    decreases b.len(),
{
    if b.len() == 0 {
        Seq::empty()
    } else if b[0] == 37 && b.len() >= 3 && hex_value(b[1]) is Some && hex_value(b[2]) is Some {
        seq![(hex_value(b[1]).unwrap() * 16 + hex_value(b[2]).unwrap()) as u8]
            + percent_decode_bytes(b.skip(3))
    } else {
        seq![b[0]] + percent_decode_bytes(b.skip(1))
    }
}

/// The text that a percent-encoded text stands for: its UTF-8 bytes,
/// percent-decoded and read back as UTF-8; nothing where those bytes are not
/// valid UTF-8.
pub open spec fn percent_decoded(s: Seq<char>) -> Option<Seq<char>> {
    let bytes = percent_decode_bytes(encode_utf8(s));
    if valid_utf8(bytes) {
        Some(decode_utf8(bytes))
    } else {
        None
    }
}

/// No byte of the UTF-8 encoding of a scalar other than `%` is the byte `%`.
proof fn lemma_scalar_bytes_not_percent(v: u32)
    by (bit_vector)
    requires
        v != 37,
    ensures
        has_width_1_encoding(v) ==> leading_byte_width_1(v) != 37,
        leading_byte_width_2(v) != 37,
        leading_byte_width_3(v) != 37,
        leading_byte_width_4(v) != 37,
        last_continuation_byte(v) != 37,
        second_last_continuation_byte(v) != 37,
        third_last_continuation_byte(v) != 37,
{
}

/// The UTF-8 encoding of a text without `%` holds no `%` byte.
proof fn lemma_encoding_without_percent(s: Seq<char>)
    requires
        forall|i: int| 0 <= i < s.len() ==> s[i] != '%',
    ensures
        forall|i: int| 0 <= i < encode_utf8(s).len() ==> encode_utf8(s)[i] != 37,
    decreases s.len(),
{
    if s.len() > 0 {
        lemma_encoding_without_percent(s.drop_first());
        let v = s[0] as u32;
        char_u32_cast(s[0], v);
        char_u32_cast('%', '%' as u32);
        char_is_scalar(s[0]);
        assert(v != 37);
        lemma_scalar_bytes_not_percent(v);
        let head = encode_scalar(v);
        let rest = encode_utf8(s.drop_first());
        assert forall|i: int| 0 <= i < encode_utf8(s).len() implies encode_utf8(s)[i] != 37 by {
            if i < head.len() {
                assert(encode_utf8(s)[i] == head[i]);
            } else {
                assert(encode_utf8(s)[i] == rest[i - head.len()]);
            }
        }
    }
}

/// Bytes without `%` decode to themselves.
proof fn lemma_decode_bytes_without_percent(b: Seq<u8>)
    requires
        forall|i: int| 0 <= i < b.len() ==> b[i] != 37,
    ensures
        percent_decode_bytes(b) == b,
    decreases b.len(),
{
    if b.len() > 0 {
        assert forall|i: int| 0 <= i < b.skip(1).len() implies b.skip(1)[i] != 37 by {
            assert(b.skip(1)[i] == b[i + 1]);
        }
        lemma_decode_bytes_without_percent(b.skip(1));
        assert(seq![b[0]] + b.skip(1) =~= b);
    }
}

/// A text without `%` percent-decodes to itself.
pub proof fn law_plain_text_decodes_to_itself(s: Seq<char>)
    requires
        forall|i: int| 0 <= i < s.len() ==> s[i] != '%',
    ensures
        percent_decoded(s) == Some(s),
{
    lemma_encoding_without_percent(s);
    lemma_decode_bytes_without_percent(encode_utf8(s));
    encode_utf8_valid_utf8(s);
    encode_utf8_decode_utf8(s);
}

/// Trusted: `urlencoding::decode`. The contract claims that it returns the
/// percent-decoded text exactly when the decoded bytes are valid UTF-8, and
/// fails otherwise, as its source shows.
#[verifier::external_body]
pub(crate) fn url_decode(s: &str) -> (r: Option<String>)
    ensures
        r.deep_view() == percent_decoded(s@),
{
    match urlencoding::decode(s) {
        Ok(text) => Some(text.into_owned()),
        Err(_) => None,
    }
}

} // verus!
