//! Restoring backups and downloads.

use vstd::prelude::*;

use crate::base64_text::{base64_error, base64_of};
use crate::cipher::{
    decrypted, fits_cipher, is_salt, salt_error, scrypt_key, xchacha_opened, BackupPubData,
};
use crate::decimal::decimal_text;
use crate::envelope::{decodes, opened};
use crate::error::{result_view, Error, ErrorView};
use crate::hexadecimal::{hex_bytes, hex_error, is_hex};
use crate::payload::{snapshot_of, WalletBackupPayload, WalletSnapshot};
use crate::promises::envelope::{contents_are_unique, holds, opened_is_held};
use crate::promises::errors::{
    is_base64_error, is_hex_error, is_internal, is_password_hash_error, is_stock_error, same_error,
};
use crate::promises::stock::is_first_snapshot;
use crate::stock::{index_read, stash_read, state_read, stock_parts, RgbStock};
use crate::wallet::{
    can_restore_json, restores_backup, restores_json, restores_payload, Wallet,
};

verus! {

/// Whether `text` is the base64 text of some bytes.
pub open spec fn is_base64(text: Seq<char>) -> bool {
    exists|bytes: Seq<u8>| #[trigger] base64_of(bytes) == text
}

/// Whether the parts of `stock` were read from the texts of `payload`, each from
/// its own.
pub open spec fn is_stock_in<S>(payload: WalletBackupPayload<S>, stock: RgbStock) -> bool {
    exists|a: Seq<u8>, b: Seq<u8>, c: Seq<u8>|
        #![trigger base64_of(a), base64_of(b), base64_of(c)]
        {
            &&& base64_of(a) == payload.stock_stash_b64@
            &&& base64_of(b) == payload.stock_state_b64@
            &&& base64_of(c) == payload.stock_index_b64@
            &&& stash_read(a) == Ok::<_, Seq<char>>(stock_parts(stock).0)
            &&& state_read(b) == Ok::<_, Seq<char>>(stock_parts(stock).1)
            &&& index_read(c) == Ok::<_, Seq<char>>(stock_parts(stock).2)
        }
}

/// Whether the stock cannot be read from the texts of `payload`, and `e` tells
/// why: the first text that is not base64, or else the first part that cannot be
/// read.
pub open spec fn is_read_failure<S>(payload: WalletBackupPayload<S>, e: Error) -> bool {
    let (x, y, z) = (
        payload.stock_stash_b64@,
        payload.stock_state_b64@,
        payload.stock_index_b64@,
    );
    ||| !is_base64(x) && is_base64_error(e, base64_error(x))
    ||| is_base64(x) && !is_base64(y) && is_base64_error(e, base64_error(y))
    ||| is_base64(x) && is_base64(y) && !is_base64(z) && is_base64_error(e, base64_error(z))
    ||| exists|a: Seq<u8>, b: Seq<u8>, c: Seq<u8>|
        #![trigger base64_of(a), base64_of(b), base64_of(c)]
        {
            &&& base64_of(a) == x
            &&& base64_of(b) == y
            &&& base64_of(c) == z
            &&& {
                ||| stash_read(a) is Err && is_stock_error(e, stash_read(a)->Err_0)
                ||| stash_read(a) is Ok && state_read(b) is Err && is_stock_error(
                    e,
                    state_read(b)->Err_0,
                )
                ||| stash_read(a) is Ok && state_read(b) is Ok && index_read(c) is Err
                    && is_stock_error(e, index_read(c)->Err_0)
            }
        }
}

/// Whether two wallets are the same but for their stock.
pub open spec fn same_but_for_the_stock<C>(a: Wallet<C>, b: Wallet<C>) -> bool {
    &&& a.vss_client == b.vss_client
    &&& a.last_vss_backup_error == b.last_vss_backup_error
    &&& a.master_fingerprint == b.master_fingerprint
}

/// Whether restoring the payload in `json` was a success: a payload was read
/// from it, the first snapshot of its state was restored, and the wallet has its
/// stock.
pub open spec fn is_restored<C, S, P, R>(
    before: Wallet<C>,
    json: Seq<u8>,
    read_payload: P,
    restore_from_snapshot: R,
    after: Wallet<C>,
) -> bool where
    P: FnOnce(&[u8]) -> Option<WalletBackupPayload<S>>,
    R: FnOnce(WalletSnapshot<S>) -> Result<(), Error>,
 {
    exists|bytes: &[u8], read: Option<WalletBackupPayload<S>>|
        {
            &&& #[trigger] read_payload.ensures((bytes,), read)
            &&& bytes@ == json
            &&& read is Some
            &&& is_snapshot_restored(read->0.state, restore_from_snapshot)
            &&& after.rgb_stock is Some
            &&& is_stock_in(read->0, after.rgb_stock->0)
            &&& same_but_for_the_stock(before, after)
        }
}

/// Whether the first snapshot of a state was restored.
pub open spec fn is_snapshot_restored<S, R>(state: S, restore_from_snapshot: R) -> bool where
    R: FnOnce(WalletSnapshot<S>) -> Result<(), Error>,
 {
    exists|snapshot: WalletSnapshot<S>, restored: Result<(), Error>| #[trigger]
        restore_from_snapshot.ensures((snapshot,), restored) && restored is Ok
            && is_first_snapshot(snapshot, state)
}

/// Whether restoring the payload in `json` failed, with the wallet as it was, and
/// `e` tells why: no payload could be read from it, the snapshot of its state
/// could not be restored, or its stock could not be read.
pub open spec fn is_restore_failure<S, P, R>(
    json: Seq<u8>,
    read_payload: P,
    restore_from_snapshot: R,
    e: Error,
) -> bool where
    P: FnOnce(&[u8]) -> Option<WalletBackupPayload<S>>,
    R: FnOnce(WalletSnapshot<S>) -> Result<(), Error>,
 {
    exists|bytes: &[u8], read: Option<WalletBackupPayload<S>>|
        {
            &&& #[trigger] read_payload.ensures((bytes,), read)
            &&& bytes@ == json
            &&& {
                ||| read is None && e is InvalidBackup
                ||| read is Some && exists|
                    snapshot: WalletSnapshot<S>,
                    restored: Result<(), Error>,
                | #[trigger]
                    restore_from_snapshot.ensures((snapshot,), restored) && is_first_snapshot(
                        snapshot,
                        read->0.state,
                    ) && restored is Err && same_error(e, restored->Err_0)
                ||| read is Some && is_snapshot_restored(read->0.state, restore_from_snapshot)
                    && is_read_failure(read->0, e)
            }
        }
}

/// What the contract of restoring a payload comes to.
proof fn restoring_payload<C, S, R>(
    before: Wallet<C>,
    payload: WalletBackupPayload<S>,
    restore_from_snapshot: R,
    after: Wallet<C>,
    r: Result<(), Error>,
) where R: FnOnce(WalletSnapshot<S>) -> Result<(), Error>
    requires
        restores_payload(before, payload, restore_from_snapshot, after, result_view(r)),
    ensures
        r is Ok ==> {
            &&& is_snapshot_restored(payload.state, restore_from_snapshot)
            &&& after.rgb_stock is Some
            &&& is_stock_in(payload, after.rgb_stock->0)
            &&& same_but_for_the_stock(before, after)
        },
        r is Err ==> after == before && {
            ||| exists|snapshot: WalletSnapshot<S>, restored: Result<(), Error>| #[trigger]
                restore_from_snapshot.ensures((snapshot,), restored) && is_first_snapshot(
                    snapshot,
                    payload.state,
                ) && restored is Err && same_error(r->Err_0, restored->Err_0)
            ||| is_snapshot_restored(payload.state, restore_from_snapshot) && is_read_failure(
                payload,
                r->Err_0,
            )
        },
{
    let snapshot = snapshot_of(payload.state);
    assert(is_first_snapshot(snapshot, payload.state));
}

/// What the contract of restoring some JSON comes to.
proof fn restoring_json<C, S, P, R>(
    before: Wallet<C>,
    json: Seq<u8>,
    read_payload: P,
    restore_from_snapshot: R,
    after: Wallet<C>,
    r: Result<(), Error>,
) where
    P: FnOnce(&[u8]) -> Option<WalletBackupPayload<S>>,
    R: FnOnce(WalletSnapshot<S>) -> Result<(), Error>,

    requires
        restores_json(before, json, read_payload, restore_from_snapshot, after, result_view(r)),
    ensures
        r is Ok ==> is_restored(before, json, read_payload, restore_from_snapshot, after),
        r is Err ==> after == before && is_restore_failure(
            json,
            read_payload,
            restore_from_snapshot,
            r->Err_0,
        ),
{
    let (bytes, read) = choose|bytes: &[u8], read: Option<WalletBackupPayload<S>>|
        bytes@ == json && #[trigger] read_payload.ensures((bytes,), read) && match read {
            None => result_view(r) == Err::<(), _>(ErrorView::InvalidBackup) && after == before,
            Some(payload) => restores_payload(
                before,
                payload,
                restore_from_snapshot,
                after,
                result_view(r),
            ),
        };
    if read is Some {
        restoring_payload(before, read->0, restore_from_snapshot, after, r);
    }
}

/// Restoring JSON that could not be had hands on why, changes nothing, and reads
/// and restores nothing: the call is allowed whatever the callbacks require.
pub proof fn nothing_is_restored_without_json<C, S, P, R>(
    wallet: &mut Wallet<C>,
    e: Error,
    read_payload: P,
    restore_from_snapshot: R,
    r: Result<(), Error>,
) where
    P: FnOnce(&[u8]) -> Option<WalletBackupPayload<S>>,
    R: FnOnce(WalletSnapshot<S>) -> Result<(), Error>,

    requires
        call_ensures(
            Wallet::<C>::restore_json::<S, P, R>,
            (wallet, Err(e), read_payload, restore_from_snapshot),
            r,
        ),
    ensures
        r is Err && same_error(r->Err_0, e),
        *final(wallet) == *old(wallet),
        call_requires(
            Wallet::<C>::restore_json::<S, P, R>,
            (wallet, Err(e), read_payload, restore_from_snapshot),
        ),
{
}

/// Restoring JSON reads a payload from it, restores the first snapshot of the
/// payload's state and then sets the payload's stock. It succeeds only where all
/// of that does, and where it fails the wallet is as it was.
pub proof fn json_is_restored_whole_or_not_at_all<C, S, P, R>(
    wallet: &mut Wallet<C>,
    json: Vec<u8>,
    read_payload: P,
    restore_from_snapshot: R,
    r: Result<(), Error>,
) where
    P: FnOnce(&[u8]) -> Option<WalletBackupPayload<S>>,
    R: FnOnce(WalletSnapshot<S>) -> Result<(), Error>,

    requires
        call_ensures(
            Wallet::<C>::restore_json::<S, P, R>,
            (wallet, Ok(json), read_payload, restore_from_snapshot),
            r,
        ),
    ensures
        r is Ok ==> is_restored(
            *old(wallet),
            json@,
            read_payload,
            restore_from_snapshot,
            *final(wallet),
        ),
        r is Err ==> *final(wallet) == *old(wallet) && is_restore_failure(
            json@,
            read_payload,
            restore_from_snapshot,
            r->Err_0,
        ),
{
    restoring_json(
        *old(wallet),
        json@,
        read_payload,
        restore_from_snapshot,
        *final(wallet),
        r,
    );
}

/// Restoring JSON reads nothing but that JSON and restores nothing but the first
/// snapshot of a payload that was read from it.
pub proof fn only_what_was_read_is_restored<C, S, P, R>(
    wallet: &mut Wallet<C>,
    json: Vec<u8>,
    read_payload: P,
    restore_from_snapshot: R,
) where
    P: FnOnce(&[u8]) -> Option<WalletBackupPayload<S>>,
    R: FnOnce(WalletSnapshot<S>) -> Result<(), Error>,

    requires
        may_restore(json@, read_payload, restore_from_snapshot),
    ensures
        call_requires(
            Wallet::<C>::restore_json::<S, P, R>,
            (wallet, Ok(json), read_payload, restore_from_snapshot),
        ),
        call_requires(
            Wallet::<C>::vss_restore_backup::<S, P, R>,
            (wallet, Ok(json), read_payload, restore_from_snapshot),
        ),
{
    may_restore_suffices(json@, read_payload, restore_from_snapshot);
}

/// Whether `json` may be read, and the first snapshot of what is read from it may
/// be restored.
pub open spec fn may_restore<S, P, R>(
    json: Seq<u8>,
    read_payload: P,
    restore_from_snapshot: R,
) -> bool where
    P: FnOnce(&[u8]) -> Option<WalletBackupPayload<S>>,
    R: FnOnce(WalletSnapshot<S>) -> Result<(), Error>,
 {
    &&& forall|bytes: &[u8]| bytes@ == json ==> #[trigger] read_payload.requires((bytes,))
    &&& forall|
        bytes: &[u8],
        read: Option<WalletBackupPayload<S>>,
        snapshot: WalletSnapshot<S>,
    |
        #![trigger
            read_payload.ensures((bytes,), read),
            restore_from_snapshot.requires((snapshot,))
        ]
        bytes@ == json && read_payload.ensures((bytes,), read) && read is Some
            && is_first_snapshot(snapshot, read->0.state) ==> restore_from_snapshot.requires(
            (snapshot,),
        )
}

/// What may be restored can be restored by the contracts.
proof fn may_restore_suffices<S, P, R>(
    json: Seq<u8>,
    read_payload: P,
    restore_from_snapshot: R,
) where
    P: FnOnce(&[u8]) -> Option<WalletBackupPayload<S>>,
    R: FnOnce(WalletSnapshot<S>) -> Result<(), Error>,

    requires
        may_restore(json, read_payload, restore_from_snapshot),
    ensures
        can_restore_json(json, read_payload, restore_from_snapshot),
{
    assert forall|bytes: &[u8], payload: Option<WalletBackupPayload<S>>|
        bytes@ == json && #[trigger] read_payload.ensures((bytes,), payload)
            && payload is Some implies restore_from_snapshot.requires(
        (snapshot_of(payload->0.state),),
    ) by {
        assert(is_first_snapshot(snapshot_of(payload->0.state), payload->0.state));
    }
}

/// Restoring from the server is refused without one, and then nothing is read or
/// restored: the call is allowed whatever the callbacks require.
pub proof fn nothing_is_restored_without_a_server<C, S, P, R>(
    wallet: &mut Wallet<C>,
    downloaded: Result<Vec<u8>, Error>,
    read_payload: P,
    restore_from_snapshot: R,
    r: Result<(), Error>,
) where
    P: FnOnce(&[u8]) -> Option<WalletBackupPayload<S>>,
    R: FnOnce(WalletSnapshot<S>) -> Result<(), Error>,

    requires
        old(wallet).vss_client is None,
        call_ensures(
            Wallet::<C>::vss_restore_backup::<S, P, R>,
            (wallet, downloaded, read_payload, restore_from_snapshot),
            r,
        ),
    ensures
        r is Err && is_internal(r->Err_0, "VSS backup not configured"@),
        *final(wallet) == *old(wallet),
        call_requires(
            Wallet::<C>::vss_restore_backup::<S, P, R>,
            (wallet, downloaded, read_payload, restore_from_snapshot),
        ),
{
}

/// With a server, a download is restored whole or not at all, and a failed
/// download is handed on, with nothing read, restored or changed.
pub proof fn download_is_restored_whole_or_not_at_all<C, S, P, R>(
    wallet: &mut Wallet<C>,
    downloaded: Result<Vec<u8>, Error>,
    read_payload: P,
    restore_from_snapshot: R,
    r: Result<(), Error>,
) where
    P: FnOnce(&[u8]) -> Option<WalletBackupPayload<S>>,
    R: FnOnce(WalletSnapshot<S>) -> Result<(), Error>,

    requires
        old(wallet).vss_client is Some,
        call_ensures(
            Wallet::<C>::vss_restore_backup::<S, P, R>,
            (wallet, downloaded, read_payload, restore_from_snapshot),
            r,
        ),
    ensures
        downloaded is Err ==> r is Err && same_error(r->Err_0, downloaded->Err_0)
            && *final(wallet) == *old(wallet) && call_requires(
            Wallet::<C>::vss_restore_backup::<S, P, R>,
            (wallet, downloaded, read_payload, restore_from_snapshot),
        ),
        r is Ok ==> downloaded is Ok && is_restored(
            *old(wallet),
            downloaded->Ok_0@,
            read_payload,
            restore_from_snapshot,
            *final(wallet),
        ),
        downloaded is Ok && r is Err ==> *final(wallet) == *old(wallet) && is_restore_failure(
            downloaded->Ok_0@,
            read_payload,
            restore_from_snapshot,
            r->Err_0,
        ),
{
    if downloaded is Ok {
        restoring_json(
            *old(wallet),
            downloaded->Ok_0@,
            read_payload,
            restore_from_snapshot,
            *final(wallet),
            r,
        );
    }
}

/// Whether a ciphertext opens to `json` under the key of the password, with the
/// salt and the nonce that the public data tell.
pub open spec fn opens_to(
    ciphertext: Seq<u8>,
    password: Seq<char>,
    pub_data: BackupPubData,
    json: Seq<u8>,
) -> bool {
    &&& pub_data.version == 1
    &&& is_salt(pub_data.salt@)
    &&& is_hex(pub_data.nonce@)
    &&& xchacha_opened(
        scrypt_key(password, pub_data.salt@, 17u8),
        hex_bytes(pub_data.nonce@),
        ciphertext,
    ) == Some(json)
}

/// Whether a ciphertext does not open, and `e` tells why: another format version,
/// a salt that is none, a nonce that is not hexadecimal, or else a wrong
/// password.
pub open spec fn is_opening_failure(
    ciphertext: Seq<u8>,
    password: Seq<char>,
    pub_data: BackupPubData,
    e: Error,
) -> bool {
    let salt = pub_data.salt@;
    let nonce = pub_data.nonce@;
    if pub_data.version != 1 {
        e matches Error::UnsupportedBackupVersion { version } && version@ == decimal_text(
            pub_data.version as nat,
        )
    } else if !is_salt(salt) {
        is_password_hash_error(e, salt_error(salt))
    } else if !is_hex(nonce) {
        is_hex_error(e, hex_error(nonce))
    } else {
        &&& xchacha_opened(scrypt_key(password, salt, 17u8), hex_bytes(nonce), ciphertext) is None
        &&& e is WrongPassword
    }
}

/// The decoding behind the contract of restoring a backup.
proof fn decoding_of<C, S, H, P, R>(
    before: Wallet<C>,
    data: Seq<u8>,
    password: Seq<char>,
    read_pub_data: H,
    read_payload: P,
    restore_from_snapshot: R,
    after: Wallet<C>,
    r: Result<(), ErrorView>,
) -> (decoded: Result<(BackupPubData, Seq<u8>), ErrorView>) where
    H: FnOnce(&[u8]) -> Option<BackupPubData>,
    P: FnOnce(&[u8]) -> Option<WalletBackupPayload<S>>,
    R: FnOnce(WalletSnapshot<S>) -> Result<(), Error>,

    requires
        restores_backup(
            before,
            data,
            password,
            read_pub_data,
            read_payload,
            restore_from_snapshot,
            after,
            r,
        ),
    ensures
        decodes(data, read_pub_data, decoded),
        decoded is Err ==> r == Err::<(), _>(decoded->Err_0) && after == before,
        decoded is Ok ==> match decrypted(decoded->Ok_0.1, password, decoded->Ok_0.0@) {
            Err(e) => r == Err::<(), _>(e) && after == before,
            Ok(json) => restores_json(
                before,
                json,
                read_payload,
                restore_from_snapshot,
                after,
                r,
            ),
        },
{
    choose|decoded: Result<(BackupPubData, Seq<u8>), ErrorView>| #[trigger]
        decodes(data, read_pub_data, decoded) && match decoded {
            Err(e) => r == Err::<(), _>(e) && after == before,
            Ok((pub_data, ciphertext)) => match decrypted(ciphertext, password, pub_data@) {
                Err(e) => r == Err::<(), _>(e) && after == before,
                Ok(json) => restores_json(
                    before,
                    json,
                    read_payload,
                    restore_from_snapshot,
                    after,
                    r,
                ),
            },
        }
}

/// The reading of the header behind a decoding.
proof fn reading_of<'a, H>(
    data: Seq<u8>,
    read_pub_data: H,
    decoded: Result<(BackupPubData, Seq<u8>), ErrorView>,
) -> (reading: (&'a [u8], Option<BackupPubData>)) where H: FnOnce(&[u8]) -> Option<BackupPubData>
    requires
        decodes(data, read_pub_data, decoded),
        opened(data) is Ok,
    ensures
        read_pub_data.ensures((reading.0,), reading.1),
        holds(data, reading.0@, opened(data)->Ok_0.1),
        reading.1 is Some ==> decoded == Ok::<_, ErrorView>(
            (reading.1->0, opened(data)->Ok_0.1),
        ),
        reading.1 is None ==> decoded == Err::<(BackupPubData, Seq<u8>), _>(
            ErrorView::InvalidBackup,
        ),
{
    opened_is_held(data);
    choose|header: &[u8], read: Option<BackupPubData>|
        header@ == opened(data)->Ok_0.0 && #[trigger] read_pub_data.ensures((header,), read)
            && decoded == match read {
            Some(pub_data) => Ok((pub_data, opened(data)->Ok_0.1)),
            None => Err(ErrorView::InvalidBackup),
        }
}

/// Restoring a backup succeeds only if its header can be read, its ciphertext
/// opens under the password, and the payload in it is restored as a whole.
pub proof fn only_what_opens_is_restored<C, S, H, P, R>(
    wallet: &mut Wallet<C>,
    data: &[u8],
    password: &str,
    read_pub_data: H,
    read_payload: P,
    restore_from_snapshot: R,
    r: Result<(), Error>,
) where
    H: FnOnce(&[u8]) -> Option<BackupPubData>,
    P: FnOnce(&[u8]) -> Option<WalletBackupPayload<S>>,
    R: FnOnce(WalletSnapshot<S>) -> Result<(), Error>,

    requires
        call_ensures(
            Wallet::<C>::restore_backup::<S, H, P, R>,
            (wallet, data, password, read_pub_data, read_payload, restore_from_snapshot),
            r,
        ),
        r is Ok,
    ensures
        exists|header: &[u8], read: Option<BackupPubData>, ciphertext: Seq<u8>, json: Seq<u8>|
            #![trigger
                read_pub_data.ensures((header,), read),
                holds(data@, header@, ciphertext),
                opens_to(ciphertext, password@, read->0, json)
            ]
            {
                &&& holds(data@, header@, ciphertext)
                &&& read_pub_data.ensures((header,), read)
                &&& read is Some
                &&& opens_to(ciphertext, password@, read->0, json)
                &&& is_restored(
                    *old(wallet),
                    json,
                    read_payload,
                    restore_from_snapshot,
                    *final(wallet),
                )
            },
{
    let decoded = decoding_of(
        *old(wallet),
        data@,
        password@,
        read_pub_data,
        read_payload,
        restore_from_snapshot,
        *final(wallet),
        result_view(r),
    );
    let (pub_data, ciphertext) = decoded->Ok_0;
    let json = decrypted(ciphertext, password@, pub_data@)->Ok_0;
    restoring_json(
        *old(wallet),
        json,
        read_payload,
        restore_from_snapshot,
        *final(wallet),
        r,
    );
    let (header, read) = reading_of(data@, read_pub_data, decoded);
    assert(opens_to(ciphertext, password@, read->0, json));
}

/// Restoring a backup fails only where the bytes hold nothing, the header cannot
/// be read, the ciphertext does not open, or the payload in it cannot be
/// restored. The reason is told, and the wallet is as it was.
pub proof fn restore_fails_only_with_a_reason<C, S, H, P, R>(
    wallet: &mut Wallet<C>,
    data: &[u8],
    password: &str,
    read_pub_data: H,
    read_payload: P,
    restore_from_snapshot: R,
    r: Result<(), Error>,
) where
    H: FnOnce(&[u8]) -> Option<BackupPubData>,
    P: FnOnce(&[u8]) -> Option<WalletBackupPayload<S>>,
    R: FnOnce(WalletSnapshot<S>) -> Result<(), Error>,

    requires
        call_ensures(
            Wallet::<C>::restore_backup::<S, H, P, R>,
            (wallet, data, password, read_pub_data, read_payload, restore_from_snapshot),
            r,
        ),
        r is Err,
    ensures
        *final(wallet) == *old(wallet),
        ({
            ||| r->Err_0 is InvalidBackup && forall|header: Seq<u8>, ciphertext: Seq<u8>|
                !#[trigger] holds(data@, header, ciphertext)
            ||| exists|header: &[u8], read: Option<BackupPubData>, ciphertext: Seq<u8>|
                #![trigger
                    read_pub_data.ensures((header,), read),
                    holds(data@, header@, ciphertext)
                ]
                {
                    &&& holds(data@, header@, ciphertext)
                    &&& read_pub_data.ensures((header,), read)
                    &&& {
                        ||| read is None && r->Err_0 is InvalidBackup
                        ||| read is Some && is_opening_failure(
                            ciphertext,
                            password@,
                            read->0,
                            r->Err_0,
                        )
                        ||| read is Some && exists|json: Seq<u8>| #[trigger]
                            opens_to(ciphertext, password@, read->0, json) && is_restore_failure(
                                json,
                                read_payload,
                                restore_from_snapshot,
                                r->Err_0,
                            )
                    }
                }
        }),
{
    let decoded = decoding_of(
        *old(wallet),
        data@,
        password@,
        read_pub_data,
        read_payload,
        restore_from_snapshot,
        *final(wallet),
        result_view(r),
    );
    if opened(data@) is Ok {
        let ciphertext = opened(data@)->Ok_0.1;
        let (header, read) = reading_of(data@, read_pub_data, decoded);
        if read is Some && decrypted(ciphertext, password@, read->0@) is Ok {
            let json = decrypted(ciphertext, password@, read->0@)->Ok_0;
            assert(opens_to(ciphertext, password@, read->0, json));
            restoring_json(
                *old(wallet),
                json,
                read_payload,
                restore_from_snapshot,
                *final(wallet),
                r,
            );
        }
    }
}

/// A backup whose ciphertext does not open under the key of the password, however
/// its header is read, is refused as such. Nothing of it is read or restored, and
/// the wallet is as it was.
pub proof fn wrong_passwords_are_refused<C, S, H, P, R>(
    wallet: &mut Wallet<C>,
    data: &[u8],
    password: &str,
    read_pub_data: H,
    read_payload: P,
    restore_from_snapshot: R,
    r: Result<(), Error>,
    header: Seq<u8>,
    ciphertext: Seq<u8>,
) where
    H: FnOnce(&[u8]) -> Option<BackupPubData>,
    P: FnOnce(&[u8]) -> Option<WalletBackupPayload<S>>,
    R: FnOnce(WalletSnapshot<S>) -> Result<(), Error>,

    requires
        call_ensures(
            Wallet::<C>::restore_backup::<S, H, P, R>,
            (wallet, data, password, read_pub_data, read_payload, restore_from_snapshot),
            r,
        ),
        holds(data@, header, ciphertext),
        forall|bytes: &[u8], read: Option<BackupPubData>|
            bytes@ == header && #[trigger] read_pub_data.ensures((bytes,), read) ==> {
                &&& read is Some
                &&& read->0.version == 1
                &&& is_salt(read->0.salt@)
                &&& is_hex(read->0.nonce@)
                &&& xchacha_opened(
                    scrypt_key(password@, read->0.salt@, 17u8),
                    hex_bytes(read->0.nonce@),
                    ciphertext,
                ) is None
            },
    ensures
        r is Err,
        r->Err_0 is WrongPassword,
        *final(wallet) == *old(wallet),
{
    assert forall|h: Seq<u8>, c: Seq<u8>| #[trigger] holds(data@, h, c) implies h == header && c
        == ciphertext by {
        contents_are_unique(data@, h, c, header, ciphertext);
    }
    if r is Ok {
        only_what_opens_is_restored(
            wallet,
            data,
            password,
            read_pub_data,
            read_payload,
            restore_from_snapshot,
            r,
        );
    } else {
        restore_fails_only_with_a_reason(
            wallet,
            data,
            password,
            read_pub_data,
            read_payload,
            restore_from_snapshot,
            r,
        );
    }
}

/// Restoring a backup reads the header that the bytes hold and, only where the
/// ciphertext opens, what it opens to: the call is allowed wherever that may be
/// done, whatever else the callbacks require.
pub proof fn restore_touches_only_what_opens<C, S, H, P, R>(
    wallet: &mut Wallet<C>,
    data: &[u8],
    password: &str,
    read_pub_data: H,
    read_payload: P,
    restore_from_snapshot: R,
) where
    H: FnOnce(&[u8]) -> Option<BackupPubData>,
    P: FnOnce(&[u8]) -> Option<WalletBackupPayload<S>>,
    R: FnOnce(WalletSnapshot<S>) -> Result<(), Error>,

    requires
        forall|header: &[u8], ciphertext: Seq<u8>| #[trigger]
            holds(data@, header@, ciphertext) ==> read_pub_data.requires((header,)),
        forall|header: &[u8], read: Option<BackupPubData>, ciphertext: Seq<u8>|
            #![trigger read_pub_data.ensures((header,), read), holds(data@, header@, ciphertext)]
            holds(data@, header@, ciphertext) && read_pub_data.ensures((header,), read)
                && read is Some && read->0.version == 1 && is_salt(read->0.salt@) && is_hex(
                read->0.nonce@,
            ) ==> read->0.nonce@.len() == 48 && ciphertext.len() <= 274_877_906_832,
        forall|
            header: &[u8],
            read: Option<BackupPubData>,
            ciphertext: Seq<u8>,
            json: Seq<u8>,
        |
            #![trigger
                read_pub_data.ensures((header,), read),
                holds(data@, header@, ciphertext),
                opens_to(ciphertext, password@, read->0, json)
            ]
            holds(data@, header@, ciphertext) && read_pub_data.ensures((header,), read)
                && read is Some && opens_to(ciphertext, password@, read->0, json) ==> may_restore(
                json,
                read_payload,
                restore_from_snapshot,
            ),
    ensures
        call_requires(
            Wallet::<C>::restore_backup::<S, H, P, R>,
            (wallet, data, password, read_pub_data, read_payload, restore_from_snapshot),
        ),
{
    assert forall|json: &[u8]|
        opened(data@) is Ok && json@
            == opened(data@)->Ok_0.0 implies #[trigger] read_pub_data.requires((json,)) by {
        opened_is_held(data@);
        assert(holds(data@, json@, opened(data@)->Ok_0.1));
    }
    assert forall|pub_data: BackupPubData, ciphertext: Seq<u8>| #[trigger]
        decodes(data@, read_pub_data, Ok((pub_data, ciphertext))) implies fits_cipher(
        ciphertext,
        pub_data@,
    ) && (decrypted(ciphertext, password@, pub_data@) is Ok ==> can_restore_json(
        decrypted(ciphertext, password@, pub_data@)->Ok_0,
        read_payload,
        restore_from_snapshot,
    )) by {
        let (header, read) = reading_of(data@, read_pub_data, Ok((pub_data, ciphertext)));
        if decrypted(ciphertext, password@, pub_data@) is Ok {
            let json = decrypted(ciphertext, password@, pub_data@)->Ok_0;
            assert(opens_to(ciphertext, password@, read->0, json));
            may_restore_suffices(json, read_payload, restore_from_snapshot);
        }
    }
}

} // verus!
