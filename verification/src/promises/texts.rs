//! The texts of bytes and numbers: hexadecimal, base64 and decimal.

use vstd::prelude::*;

use crate::base64_text::{base64_char, base64_of, base64_value};
use crate::cipher::is_salt;
use crate::decimal::{decimal_text, u8_to_decimal};
use crate::hexadecimal::{hex_bytes, hex_digit_value, hex_text, is_hex};

verus! {

/// Hexadecimal text has two lowercase digits for each byte, the high half first.
pub proof fn hex_text_is_two_digits_a_byte(bytes: Seq<u8>, i: int)
    requires
        0 <= i < bytes.len(),
    ensures
        hex_text(bytes).len() == 2 * bytes.len(),
        hex_text(bytes)[2 * i] == "0123456789abcdef"@[bytes[i] as int / 16],
        hex_text(bytes)[2 * i + 1] == "0123456789abcdef"@[bytes[i] as int % 16],
{
    reveal_strlit("0123456789abcdef");
    assert((2 * i) / 2 == i && (2 * i) % 2 == 0);
    assert((2 * i + 1) / 2 == i && (2 * i + 1) % 2 == 1);
    let b = bytes[i] as int;
    assert(0 <= b / 16 < 16 && 0 <= b % 16 < 16);
}

/// Hexadecimal is an even number of digits of either case.
pub proof fn hex_is_an_even_number_of_digits(text: Seq<char>)
    ensures
        is_hex(text) <==> text.len() % 2 == 0 && (forall|i: int|
            0 <= i < text.len() ==> "0123456789abcdefABCDEF"@.contains(#[trigger] text[i])),
{
    let digits = "0123456789abcdefABCDEF"@;
    reveal_strlit("0123456789abcdefABCDEF");
    assert forall|c: char| hex_digit_value(c) is Some <==> #[trigger] digits.contains(c) by {
        if digits.contains(c) {
            let k = choose|k: int| 0 <= k < digits.len() && digits[k] == c;
            assert(digits[k] == c);
        }
        if '0' <= c <= '9' {
            assert(digits[c as int - '0' as int] == c);
        } else if 'a' <= c <= 'f' {
            assert(digits[c as int - 'a' as int + 10] == c);
        } else if 'A' <= c <= 'F' {
            assert(digits[c as int - 'A' as int + 16] == c);
        }
    }
}

/// Writing the bytes of a hexadecimal text again gives that text in lowercase.
pub proof fn hex_bytes_are_written_the_same(text: Seq<char>, i: int)
    requires
        is_hex(text),
        0 <= i < text.len(),
    ensures
        hex_text(hex_bytes(text)).len() == text.len(),
        hex_text(hex_bytes(text))[i] == text[i] || hex_text(hex_bytes(text))[i] as int
            == text[i] as int + 32 && 'A' <= text[i] <= 'F',
{
    let bytes = hex_bytes(text);
    let k = i / 2;
    let (hi, lo) = (hex_digit_value(text[2 * k])->0, hex_digit_value(text[2 * k + 1])->0);
    assert(hex_digit_value(text[2 * k]) is Some && hex_digit_value(text[2 * k + 1]) is Some);
    assert(bytes[k] == 16 * hi + lo);
    assert(bytes[k] as int / 16 == hi && bytes[k] as int % 16 == lo);
    assert(i == 2 * k || i == 2 * k + 1);
}

/// Base64 text of a whole number of three-byte groups and more bytes is that of
/// the groups followed by that of the other bytes.
pub proof fn base64_goes_by_groups(a: Seq<u8>, b: Seq<u8>)
    requires
        a.len() % 3 == 0,
    ensures
        base64_of(a + b) == base64_of(a) + base64_of(b),
    decreases a.len(),
{
    if a.len() == 0 {
        assert(a + b =~= b);
        assert(base64_of(a) + base64_of(b) =~= base64_of(b));
    } else {
        let rest = a.skip(3);
        base64_goes_by_groups(rest, b);
        assert((a + b).skip(3) =~= rest + b);
        assert(base64_of(a + b) =~= base64_of(a) + base64_of(b));
    }
}

/// The six-bit groups of three bytes.
proof fn bits_of_a_group(x: int, y: int, z: int)
    requires
        0 <= x < 256,
        0 <= y < 256,
        0 <= z < 256,
    ensures
        ({
            let bits = 0x1_0000 * x + 0x100 * y + z;
            &&& 0 <= bits / 0x4_0000 < 64
            &&& bits / 0x4_0000 == x / 4
            &&& bits / 0x1000 % 64 == x % 4 * 16 + y / 16
            &&& bits / 64 % 64 == y % 16 * 4 + z / 64
            &&& bits % 64 == z % 64
        }),
{
    let bits = 0x1_0000 * x + 0x100 * y + z;
    let (a, b, c, d) = (x / 4, x % 4 * 16 + y / 16, y % 16 * 4 + z / 64, z % 64);
    assert(bits == 0x4_0000 * a + 0x1000 * b + 64 * c + d);
    digits_of_base_64(a, b, c, d);
}

/// The digits of a number to the base 64.
proof fn digits_of_base_64(a: int, b: int, c: int, d: int)
    requires
        0 <= a < 64,
        0 <= b < 64,
        0 <= c < 64,
        0 <= d < 64,
    ensures
        ({
            let n = 0x4_0000 * a + 0x1000 * b + 64 * c + d;
            n / 0x4_0000 == a && n / 0x1000 % 64 == b && n / 64 % 64 == c && n % 64 == d
        }),
{
    let n = 0x4_0000 * a + 0x1000 * b + 64 * c + d;
    assert(n / 64 == 0x1000 * a + 64 * b + c);
    assert(n / 0x1000 == 64 * a + b);
}

/// The character of six bits stands at their place in the alphabet.
proof fn char_is_in_the_alphabet(v: int)
    requires
        0 <= v < 64,
    ensures
        base64_char(v)
            == "ABCDEFGHIJKLMNOPQRSTUVWXYZabcdefghijklmnopqrstuvwxyz0123456789+/"@[v],
{
    reveal_strlit("ABCDEFGHIJKLMNOPQRSTUVWXYZabcdefghijklmnopqrstuvwxyz0123456789+/");
}

/// A group of three bytes is written as the characters of its four groups of six
/// bits; one or two bytes at the end are filled with zero bits, and with `=` to
/// four characters.
pub proof fn base64_of_a_group(x: u8, y: u8, z: u8)
    ensures
        ({
            let alphabet = "ABCDEFGHIJKLMNOPQRSTUVWXYZabcdefghijklmnopqrstuvwxyz0123456789+/"@;
            let bits = 0x1_0000 * x + 0x100 * y + z;
            &&& base64_of(seq![]) == Seq::<char>::empty()
            &&& base64_of(seq![x, y, z]) == seq![
                alphabet[bits / 0x4_0000],
                alphabet[bits / 0x1000 % 64],
                alphabet[bits / 64 % 64],
                alphabet[bits % 64],
            ]
            &&& z == 0 ==> base64_of(seq![x, y]) == base64_of(seq![x, y, z]).take(3).push('=')
            &&& z == 0 && y == 0 ==> base64_of(seq![x]) == base64_of(seq![x, y, z]).take(2).push(
                '=',
            ).push('=')
        }),
{
    let alphabet = "ABCDEFGHIJKLMNOPQRSTUVWXYZabcdefghijklmnopqrstuvwxyz0123456789+/"@;
    let bits = 0x1_0000 * x + 0x100 * y + z;
    let group = seq![x, y, z];
    assert(group.skip(3) =~= seq![]);
    assert(base64_of(group.skip(3)) =~= seq![]);
    bits_of_a_group(x as int, y as int, z as int);
    char_is_in_the_alphabet(bits / 0x4_0000);
    char_is_in_the_alphabet(bits / 0x1000 % 64);
    char_is_in_the_alphabet(bits / 64 % 64);
    char_is_in_the_alphabet(bits % 64);
    assert(base64_of(group) =~= seq![
        alphabet[bits / 0x4_0000],
        alphabet[bits / 0x1000 % 64],
        alphabet[bits / 64 % 64],
        alphabet[bits % 64],
    ]);
    assert(base64_of(seq![x, y]) =~= seq![
        base64_char(x as int / 4),
        base64_char(x as int % 4 * 16 + y as int / 16),
        base64_char(y as int % 16 * 4),
        '=',
    ]);
    assert(base64_of(seq![x]) =~= seq![
        base64_char(x as int / 4),
        base64_char(x as int % 4 * 16),
        '=',
        '=',
    ]);
    if z == 0 {
        assert(base64_of(seq![x, y]) =~= base64_of(group).take(3).push('='));
    }
    if z == 0 && y == 0 {
        assert(base64_of(seq![x]) =~= base64_of(group).take(2).push('=').push('='));
    }
}

/// Whether `padded` is `text` filled with `=` to a whole number of four
/// characters.
pub open spec fn is_padded(text: Seq<char>, padded: Seq<char>) -> bool {
    &&& padded.len() % 4 == 0
    &&& text.len() <= padded.len() < text.len() + 4
    &&& padded.take(text.len() as int) == text
    &&& forall|i: int| text.len() <= i < padded.len() ==> #[trigger] padded[i] == '='
}

/// Whether a text has base64 characters only, as many as a whole number of bytes
/// takes, and no bits behind the last byte.
spec fn is_unpadded(text: Seq<char>) -> bool {
    &&& forall|i: int| 0 <= i < text.len() ==> base64_value(#[trigger] text[i]) is Some
    &&& text.len() % 4 != 1
    &&& text.len() % 4 == 2 ==> base64_value(text.last())->0 % 16 == 0
    &&& text.len() % 4 == 3 ==> base64_value(text.last())->0 % 4 == 0
}

/// A character is that of its value.
proof fn char_of_value(c: char)
    requires
        base64_value(c) is Some,
    ensures
        0 <= base64_value(c)->0 < 64,
        base64_char(base64_value(c)->0) == c,
{
}

/// A text without padding is the base64 text of some bytes without its padding.
proof fn unpadded_has_bytes(text: Seq<char>) -> (bytes: Seq<u8>)
    requires
        is_unpadded(text),
    ensures
        is_padded(text, base64_of(bytes)),
    decreases text.len(),
{
    if text.len() == 0 {
        let bytes = Seq::<u8>::empty();
        assert(base64_of(bytes).take(0) =~= text);
        bytes
    } else {
        char_of_value(text[0]);
        char_of_value(text[1]);
        let (v0, v1) = (base64_value(text[0])->0, base64_value(text[1])->0);
        let x = (v0 * 4 + v1 / 16) as u8;
        if text.len() == 2 {
            let bytes = seq![x];
            assert(x as int / 4 == v0 && x as int % 4 * 16 == v1);
            assert(base64_of(bytes).take(2) =~= text);
            bytes
        } else {
            char_of_value(text[2]);
            let v2 = base64_value(text[2])->0;
            let y = (v1 % 16 * 16 + v2 / 4) as u8;
            assert(x as int / 4 == v0 && x as int % 4 * 16 + y as int / 16 == v1);
            if text.len() == 3 {
                let bytes = seq![x, y];
                assert(y as int % 16 * 4 == v2);
                assert(base64_of(bytes).take(3) =~= text);
                bytes
            } else {
                char_of_value(text[3]);
                let v3 = base64_value(text[3])->0;
                let z = (v2 % 4 * 64 + v3) as u8;
                assert(y as int % 16 * 4 + z as int / 64 == v2 && z as int % 64 == v3);
                let rest = text.skip(4);
                assert(rest.len() > 0 ==> rest.last() == text.last());
                let tail = unpadded_has_bytes(rest);
                let bytes = seq![x, y, z] + tail;
                assert(bytes.skip(3) =~= tail);
                let padded = base64_of(bytes);
                assert(padded =~= text.take(4) + base64_of(tail));
                assert(padded.take(text.len() as int) =~= text.take(4) + base64_of(tail).take(
                    rest.len() as int,
                ));
                assert(text =~= text.take(4) + rest);
                assert forall|i: int| text.len() <= i < padded.len() implies #[trigger] padded[i]
                    == '=' by {
                    assert(padded[i] == base64_of(tail)[i - 4]);
                }
                bytes
            }
        }
    }
}

/// The base64 text of some bytes is, without its padding, a text without padding.
proof fn bytes_have_unpadded(bytes: Seq<u8>, text: Seq<char>)
    requires
        is_padded(text, base64_of(bytes)),
        !text.contains('='),
    ensures
        is_unpadded(text),
    decreases bytes.len(),
{
    let padded = base64_of(bytes);
    assert forall|i: int| 0 <= i < text.len() implies #[trigger] text[i] == padded[i] && text[i]
        != '=' by {
        assert(text[i] == padded.take(text.len() as int)[i]);
        assert(text.contains(text[i]));
    }
    if bytes.len() >= 3 {
        let rest = text.skip(4);
        let tail = bytes.skip(3);
        assert(padded.skip(4) =~= base64_of(tail));
        assert(padded[0] != '=' && padded[1] != '=' && padded[2] != '=' && padded[3] != '=');
        assert(text.len() >= 4);
        assert(base64_of(tail).take(rest.len() as int) =~= rest);
        assert forall|i: int| rest.len() <= i < base64_of(tail).len() implies #[trigger]
        base64_of(tail)[i] == '=' by {
            assert(base64_of(tail)[i] == padded[i + 4]);
        }
        assert(!rest.contains('=')) by {
            assert forall|i: int| 0 <= i < rest.len() implies #[trigger] rest[i] != '=' by {
                assert(rest[i] == text[i + 4]);
            }
        }
        bytes_have_unpadded(tail, rest);
        assert(rest.len() > 0 ==> rest.last() == text.last());
        assert forall|i: int| 0 <= i < text.len() implies base64_value(
            #[trigger] text[i],
        ) is Some by {
            if i >= 4 {
                assert(text[i] == rest[i - 4]);
            }
        }
    } else if bytes.len() == 2 {
        assert(padded[3] == '=' && padded[2] != '=');
        assert(text.len() == 3);
        let y = bytes[1] as int;
        assert(base64_value(base64_char(y % 16 * 4)) == Some(y % 16 * 4));
    } else if bytes.len() == 1 {
        assert(padded[2] == '=' && padded[1] != '=');
        assert(text.len() == 2);
        let x = bytes[0] as int;
        assert(base64_value(base64_char(x % 4 * 16)) == Some(x % 4 * 16));
    }
}

/// A text can be a salt exactly if it has 4 to 64 characters and is the base64
/// text of some bytes without its padding.
pub proof fn salts_are_base64_without_padding(text: Seq<char>)
    ensures
        is_salt(text) <==> {
            &&& 4 <= text.len() <= 64
            &&& !text.contains('=')
            &&& exists|bytes: Seq<u8>| is_padded(text, #[trigger] base64_of(bytes))
        },
{
    if is_salt(text) {
        let bytes = unpadded_has_bytes(text);
        assert(is_padded(text, base64_of(bytes)));
        assert forall|i: int| 0 <= i < text.len() implies #[trigger] text[i] != '=' by {
            assert(base64_value(text[i]) is Some);
        }
    }
    if 4 <= text.len() <= 64 && !text.contains('=') && (exists|bytes: Seq<u8>|
        is_padded(text, #[trigger] base64_of(bytes))) {
        let bytes = choose|bytes: Seq<u8>| is_padded(text, #[trigger] base64_of(bytes));
        bytes_have_unpadded(bytes, text);
    }
}

/// The decimal text of a byte is its digits, the most significant first and
/// without leading zeros.
pub proof fn decimal_is_the_digits_of_the_number(n: u8, text: String)
    requires
        call_ensures(u8_to_decimal, (n,), text),
    ensures
        ({
            let digits = "0123456789"@;
            &&& n < 10 ==> text@ == seq![digits[n as int]]
            &&& 10 <= n < 100 ==> text@ == seq![digits[n as int / 10], digits[n as int % 10]]
            &&& 100 <= n ==> text@ == seq![
                digits[n as int / 100],
                digits[n as int / 10 % 10],
                digits[n as int % 10],
            ]
        }),
{
    reveal_strlit("0123456789");
    reveal_with_fuel(decimal_text, 3);
    let m = n as nat;
    assert(m >= 100 ==> (m / 10) / 10 == m / 100 && m / 100 < 10);
    assert(n < 10 ==> text@ =~= seq!["0123456789"@[n as int]]);
    assert(10 <= n < 100 ==> text@ =~= seq!["0123456789"@[n as int / 10], "0123456789"@[n as int
        % 10]]);
    assert(100 <= n ==> text@ =~= seq![
        "0123456789"@[n as int / 100],
        "0123456789"@[n as int / 10 % 10],
        "0123456789"@[n as int % 10],
    ]);
}

} // verus!
