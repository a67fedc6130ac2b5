//! Base64 text of bytes, in the standard alphabet with padding.

use base64::engine::general_purpose;
use base64::Engine;
use vstd::prelude::*;

verus! {

/// The character that stands for the six bits `v`.
pub open spec fn base64_char(v: int) -> char
    recommends
        0 <= v < 64,
{
    if v < 26 {
        (v + 'A' as int) as char
    } else if v < 52 {
        (v - 26 + 'a' as int) as char
    } else if v < 62 {
        (v - 52 + '0' as int) as char
    } else if v == 62 {
        '+'
    } else {
        '/'
    }
}

/// The six bits that a character of the alphabet stands for.
pub open spec fn base64_value(c: char) -> Option<int> {
    if 'A' <= c <= 'Z' {
        Some(c as int - 'A' as int)
    } else if 'a' <= c <= 'z' {
        Some(c as int - 'a' as int + 26)
    } else if '0' <= c <= '9' {
        Some(c as int - '0' as int + 52)
    } else if c == '+' {
        Some(62)
    } else if c == '/' {
        Some(63)
    } else {
        None
    }
}

/// Four characters for every three bytes; the last group is padded with `=`.
pub open spec fn base64_of(bytes: Seq<u8>) -> Seq<char>
    decreases bytes.len(),
{
    if bytes.len() == 0 {
        seq![]
    } else {
        let b0 = bytes[0] as int;
        if bytes.len() == 1 {
            seq![base64_char(b0 / 4), base64_char(b0 % 4 * 16), '=', '=']
        } else {
            let b1 = bytes[1] as int;
            if bytes.len() == 2 {
                seq![
                    base64_char(b0 / 4),
                    base64_char(b0 % 4 * 16 + b1 / 16),
                    base64_char(b1 % 16 * 4),
                    '=',
                ]
            } else {
                let b2 = bytes[2] as int;
                seq![
                    base64_char(b0 / 4),
                    base64_char(b0 % 4 * 16 + b1 / 16),
                    base64_char(b1 % 16 * 4 + b2 / 64),
                    base64_char(b2 % 64),
                ] + base64_of(bytes.skip(3))
            }
        }
    }
}

/// The text of the error with which the standard engine refuses `text`.
pub uninterp spec fn base64_error(text: Seq<char>) -> Seq<char>;

/// What decoding `text` gives: the bytes that it is the base64 text of, if
/// there are any, or else the text of the error.
pub open spec fn base64_decoded(text: Seq<char>) -> Result<Seq<u8>, Seq<char>> {
    if exists|bytes: Seq<u8>| #[trigger] base64_of(bytes) == text {
        Ok(choose|bytes: Seq<u8>| #[trigger] base64_of(bytes) == text)
    } else {
        Err(base64_error(text))
    }
}

/// Calls `Engine::encode` of `base64::engine::general_purpose::STANDARD`,
/// trusted to write the standard alphabet with padding.
#[verifier::external_body]
pub(crate) fn base64_encode(bytes: &[u8]) -> (text: String)
    ensures
        text@ == base64_of(bytes@),
{
    general_purpose::STANDARD.encode(bytes)
}

/// Calls `Engine::decode` of `base64::engine::general_purpose::STANDARD`,
/// trusted to accept exactly the texts that encoding some bytes gives (so with
/// canonical padding and no stray trailing bits), to return those bytes, and to
/// refuse every other text with an error whose text depends on that text alone.
#[verifier::external_body]
fn base64_decode_text(text: &str) -> (r: Result<Vec<u8>, String>)
    ensures
        match r {
            Ok(bytes) => base64_of(bytes@) == text@,
            Err(e) => {
                &&& forall|bytes: Seq<u8>| #[trigger] base64_of(bytes) != text@
                &&& e@ == base64_error(text@)
            },
        },
{
    general_purpose::STANDARD.decode(text).map_err(|e| e.to_string())
}

/// Decodes base64 text.
pub(crate) fn base64_decode(text: &str) -> (r: Result<Vec<u8>, String>)
    ensures
        match r {
            Ok(bytes) => base64_decoded(text@) == Ok::<_, Seq<char>>(bytes@),
            Err(e) => base64_decoded(text@) == Err::<Seq<u8>, _>(e@),
        },
{
    let r = base64_decode_text(text);
    proof {
        if let Ok(bytes) = &r {
            base64_reads_back(bytes@);
        }
    }
    r
}

/// Different six bits have different characters, and none of them is the
/// padding.
proof fn base64_char_is_injective(v: int)
    requires
        0 <= v < 64,
    ensures
        base64_value(base64_char(v)) == Some(v),
        base64_char(v) != '=',
{
}

/// The characters of a group of three bytes, or of a shorter last group, in
/// which the missing bytes count as zero, determine the bytes of the group.
proof fn group_is_injective(a0: u8, a1: u8, a2: u8, b0: u8, b1: u8, b2: u8)
    requires
        base64_char(a0 as int / 4) == base64_char(b0 as int / 4),
        base64_char(a0 as int % 4 * 16 + a1 as int / 16) == base64_char(
            b0 as int % 4 * 16 + b1 as int / 16,
        ),
        base64_char(a1 as int % 16 * 4 + a2 as int / 64) == base64_char(
            b1 as int % 16 * 4 + b2 as int / 64,
        ),
        base64_char(a2 as int % 64) == base64_char(b2 as int % 64),
    ensures
        a0 == b0,
        a1 == b1,
        a2 == b2,
{
    base64_char_is_injective(a0 as int / 4);
    base64_char_is_injective(b0 as int / 4);
    base64_char_is_injective(a0 as int % 4 * 16 + a1 as int / 16);
    base64_char_is_injective(b0 as int % 4 * 16 + b1 as int / 16);
    base64_char_is_injective(a1 as int % 16 * 4 + a2 as int / 64);
    base64_char_is_injective(b1 as int % 16 * 4 + b2 as int / 64);
    base64_char_is_injective(a2 as int % 64);
    base64_char_is_injective(b2 as int % 64);
}

/// The bytes of the first group, with zeros for those that are missing.
spec fn group(bytes: Seq<u8>) -> (u8, u8, u8) {
    (
        if bytes.len() > 0 { bytes[0] } else { 0 },
        if bytes.len() > 1 { bytes[1] } else { 0 },
        if bytes.len() > 2 { bytes[2] } else { 0 },
    )
}

/// Different bytes have different base64 texts.
pub proof fn base64_is_injective(a: Seq<u8>, b: Seq<u8>)
    requires
        base64_of(a) == base64_of(b),
    ensures
        a == b,
    decreases a.len(),
{
    let ta = base64_of(a);
    let tb = base64_of(b);
    if a.len() > 0 && b.len() > 0 {
        let (a0, a1, a2) = group(a);
        let (b0, b1, b2) = group(b);
        base64_char_is_injective(a1 as int % 16 * 4 + a2 as int / 64);
        base64_char_is_injective(b1 as int % 16 * 4 + b2 as int / 64);
        base64_char_is_injective(a2 as int % 64);
        base64_char_is_injective(b2 as int % 64);
        assert(ta[0] == tb[0] && ta[1] == tb[1] && ta[2] == tb[2] && ta[3] == tb[3]);
        assert((a.len() == 1) == (ta[2] == '='));
        assert((b.len() == 1) == (tb[2] == '='));
        assert((a.len() <= 2) == (ta[3] == '='));
        assert((b.len() <= 2) == (tb[3] == '='));
        if a.len() >= 3 {
            group_is_injective(a0, a1, a2, b0, b1, b2);
            assert(ta.skip(4) =~= base64_of(a.skip(3)));
            assert(tb.skip(4) =~= base64_of(b.skip(3)));
            base64_is_injective(a.skip(3), b.skip(3));
            assert(a =~= seq![a0, a1, a2] + a.skip(3));
            assert(b =~= seq![b0, b1, b2] + b.skip(3));
        } else {
            group_is_injective(a0, a1, a2, b0, b1, b2);
            assert(a =~= b);
        }
    } else {
        assert(a.len() > 0 ==> ta.len() >= 4);
        assert(b.len() > 0 ==> tb.len() >= 4);
        assert(a =~= b);
    }
}

/// Decoding the base64 text of some bytes gives those bytes.
pub proof fn base64_reads_back(bytes: Seq<u8>)
    ensures
        base64_decoded(base64_of(bytes)) == Ok::<_, Seq<char>>(bytes),
{
    let text = base64_of(bytes);
    let found = choose|found: Seq<u8>| #[trigger] base64_of(found) == text;
    base64_is_injective(found, bytes);
}

} // verus!
