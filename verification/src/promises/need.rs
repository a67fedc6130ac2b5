//! Whether the wallet needs a backup.

use vstd::prelude::*;
use vstd::utf8::{encode_utf8, encode_utf8_decode_utf8, is_ascii_chars_encode_utf8};

use crate::error::Error;
use crate::info::{
    is_backup_required, precedes, precedes_at, precedes_is_asymmetric, precedes_is_total,
    BackupInfo,
};
use crate::promises::errors::same_error;
use crate::wallet::Wallet;

verus! {

/// The wallet says of its stored times what the times themselves say, and hands
/// on the error where they cannot be read. It can be asked at any time.
pub proof fn wallet_answers_by_the_stored_times<C>(
    wallet: Wallet<C>,
    stored: Result<Option<BackupInfo>, Error>,
    r: Result<bool, Error>,
    required: bool,
)
    requires
        call_ensures(Wallet::<C>::backup_info, (&wallet, stored), r),
        stored is Ok ==> call_ensures(is_backup_required, (&stored->Ok_0,), required),
    ensures
        stored is Ok ==> r == Ok::<bool, Error>(required),
        stored is Err ==> r is Err && same_error(r->Err_0, stored->Err_0),
        call_requires(Wallet::<C>::backup_info, (&wallet, stored)),
        stored is Ok ==> call_requires(is_backup_required, (&stored->Ok_0,)),
{
}

/// A wallet that was never backed up needs a backup.
pub proof fn never_backed_up<C>(
    wallet: Wallet<C>,
    info: Option<BackupInfo>,
    r: Result<bool, Error>,
)
    requires
        call_ensures(Wallet::<C>::backup_info, (&wallet, Ok(info)), r),
        info is None || info->0.last_backup_timestamp@.len() == 0,
    ensures
        r == Ok::<bool, Error>(true),
{
}

/// A wallet whose times first differ in the bytes `x` of the last backup and `y`
/// of the last operation needs a backup exactly if `y` is the greater.
pub proof fn first_difference_decides<C>(
    wallet: Wallet<C>,
    info: BackupInfo,
    r: Result<bool, Error>,
    common: Seq<u8>,
    x: u8,
    y: u8,
    s: Seq<u8>,
    t: Seq<u8>,
)
    requires
        call_ensures(Wallet::<C>::backup_info, (&wallet, Ok(Some(info))), r),
        encode_utf8(info.last_backup_timestamp@) == common + seq![x] + s,
        encode_utf8(info.last_operation_timestamp@) == common + seq![y] + t,
        x != y,
    ensures
        r == Ok::<bool, Error>(x < y),
{
    let b = encode_utf8(info.last_backup_timestamp@);
    let o = encode_utf8(info.last_operation_timestamp@);
    let k = common.len() as int;
    assert(b[k] == x && o[k] == y);
    assert(b.take(k) =~= common);
    assert(o.take(k) =~= common);
    assert(info.last_backup_timestamp@.len() == 0 ==> b.len() == 0);
    if x < y {
        assert(precedes_at(b, o, k));
    } else {
        assert(precedes_at(o, b, k));
        precedes_is_asymmetric(o, b);
    }
}

/// A wallet whose last operation has the time of the last backup with something
/// behind it needs a backup; with nothing behind it, that is at the same time,
/// it needs none.
pub proof fn longer_operation_time_is_later<C>(
    wallet: Wallet<C>,
    info: BackupInfo,
    r: Result<bool, Error>,
    rest: Seq<u8>,
)
    requires
        call_ensures(Wallet::<C>::backup_info, (&wallet, Ok(Some(info))), r),
        info.last_backup_timestamp@.len() > 0,
        encode_utf8(info.last_operation_timestamp@) == encode_utf8(info.last_backup_timestamp@)
            + rest,
    ensures
        r == Ok::<bool, Error>(rest.len() > 0),
{
    let b = encode_utf8(info.last_backup_timestamp@);
    let o = encode_utf8(info.last_operation_timestamp@);
    if rest.len() > 0 {
        assert(b.take(b.len() as int) =~= o.take(b.len() as int));
        assert(precedes_at(b, o, b.len() as int));
    } else {
        assert(b =~= o);
        if precedes(b, o) {
            precedes_is_asymmetric(b, o);
        }
    }
}

/// A wallet whose last backup has the time of the last operation with something
/// behind it needs none.
pub proof fn longer_backup_time_is_later<C>(
    wallet: Wallet<C>,
    info: BackupInfo,
    r: Result<bool, Error>,
    rest: Seq<u8>,
)
    requires
        call_ensures(Wallet::<C>::backup_info, (&wallet, Ok(Some(info))), r),
        info.last_backup_timestamp@.len() > 0,
        rest.len() > 0,
        encode_utf8(info.last_backup_timestamp@) == encode_utf8(info.last_operation_timestamp@)
            + rest,
    ensures
        r == Ok::<bool, Error>(false),
{
    let b = encode_utf8(info.last_backup_timestamp@);
    let o = encode_utf8(info.last_operation_timestamp@);
    assert(b.take(o.len() as int) =~= o.take(o.len() as int));
    assert(precedes_at(o, b, o.len() as int));
    precedes_is_asymmetric(o, b);
}

/// Whether a text is made of decimal digits.
pub open spec fn is_digits(text: Seq<char>) -> bool {
    forall|i: int| 0 <= i < text.len() ==> '0' <= #[trigger] text[i] <= '9'
}

/// The number that the digits of a text make up.
pub open spec fn number(text: Seq<char>) -> int
    decreases text.len(),
{
    if text.len() == 0 {
        0
    } else {
        10 * number(text.drop_last()) + (text.last() as int - '0' as int)
    }
}

/// Of two numbers with as many digits, the one with the smaller digit where they
/// first differ is the smaller.
proof fn first_digit_decides(a: Seq<char>, b: Seq<char>, k: int)
    requires
        is_digits(a),
        is_digits(b),
        a.len() == b.len(),
        0 <= k < a.len(),
        a.take(k) == b.take(k),
        a[k] < b[k],
    ensures
        number(a) < number(b),
    decreases a.len(),
{
    let (x, y) = (a.drop_last(), b.drop_last());
    if k == a.len() - 1 {
        assert(x =~= a.take(k));
        assert(y =~= b.take(k));
    } else {
        assert(x.take(k) =~= a.take(k));
        assert(y.take(k) =~= b.take(k));
        assert(a.last() == a[a.len() - 1] && b.last() == b[b.len() - 1]);
        first_digit_decides(x, y, k);
    }
}

/// Digits that precede others of the same number make up a smaller number.
proof fn preceding_digits_are_smaller(a: Seq<char>, b: Seq<char>)
    requires
        is_digits(a),
        is_digits(b),
        a.len() == b.len(),
        precedes(encode_utf8(a), encode_utf8(b)),
    ensures
        number(a) < number(b),
{
    is_ascii_chars_encode_utf8(a);
    is_ascii_chars_encode_utf8(b);
    let (s, t) = (encode_utf8(a), encode_utf8(b));
    let k = choose|k: int| precedes_at(s, t, k);
    assert forall|i: int| 0 <= i < k implies a.take(k)[i] == b.take(k)[i] by {
        assert(s.take(k)[i] == t.take(k)[i]);
        assert(a[i] as u8 == s[i] && b[i] as u8 == t[i]);
        assert('0' <= a[i] <= '9' && '0' <= b[i] <= '9');
    }
    assert(a.take(k) =~= b.take(k));
    assert(a[k] as u8 == s[k] && b[k] as u8 == t[k]);
    first_digit_decides(a, b, k);
}

/// Where both times are numbers with as many digits, such as Unix times in
/// seconds, the wallet needs a backup exactly if the last operation has the
/// greater number.
pub proof fn later_numbers_are_later<C>(
    wallet: Wallet<C>,
    info: BackupInfo,
    r: Result<bool, Error>,
)
    requires
        call_ensures(Wallet::<C>::backup_info, (&wallet, Ok(Some(info))), r),
        is_digits(info.last_backup_timestamp@),
        is_digits(info.last_operation_timestamp@),
        info.last_backup_timestamp@.len() == info.last_operation_timestamp@.len(),
        info.last_backup_timestamp@.len() > 0,
    ensures
        r == Ok::<bool, Error>(
            number(info.last_operation_timestamp@) > number(info.last_backup_timestamp@),
        ),
{
    let (b, o) = (info.last_backup_timestamp@, info.last_operation_timestamp@);
    precedes_is_total(encode_utf8(b), encode_utf8(o));
    encode_utf8_decode_utf8(b);
    encode_utf8_decode_utf8(o);
    if precedes(encode_utf8(b), encode_utf8(o)) {
        preceding_digits_are_smaller(b, o);
    } else if precedes(encode_utf8(o), encode_utf8(b)) {
        preceding_digits_are_smaller(o, b);
    }
}

} // verus!
