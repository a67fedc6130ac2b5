//! Making local backups.

use vstd::prelude::*;

use crate::cipher::{is_drawn_nonce, is_drawn_salt, seals, BackupPubData};
use crate::envelope::envelope;
use crate::error::{bytes_result, Error, ErrorView};
use crate::payload::WalletBackupPayload;
use crate::promises::cipher::is_fresh_sealing;
use crate::promises::envelope::{envelope_is_an_envelope, is_envelope};
use crate::promises::errors::{is_aead_error, is_internal, is_json_error, same_error};
use crate::promises::stock::{holds_stock, is_write_failure};
use crate::wallet::{
    backs_up_json, can_back_up_json, finish_backup, finishes, serializes, Wallet,
};

verus! {

/// The payload of a wallet carries the given state and the wallet's stock, each
/// part in its place. There is none while the stock is taken, or where a part of
/// the stock cannot be written.
pub proof fn wallet_payload_carries_state_and_stock<C, S>(
    wallet: Wallet<C>,
    state: S,
    r: Result<WalletBackupPayload<S>, Error>,
)
    requires
        call_ensures(Wallet::<C>::backup_payload::<S>, (&wallet, state), r),
    ensures
        wallet.rgb_stock is None ==> r is Err && is_internal(
            r->Err_0,
            "RGB stock is currently in use (runtime active)"@,
        ),
        wallet.rgb_stock is Some && r is Err ==> is_write_failure(wallet.rgb_stock->0, r->Err_0),
        r is Ok ==> wallet.rgb_stock is Some && r->Ok_0.state == state && holds_stock(
            r->Ok_0,
            wallet.rgb_stock->0,
        ),
        call_requires(Wallet::<C>::backup_payload::<S>, (&wallet, state)),
{
}

/// Serializing a wallet gives the JSON that was written for its state and its
/// stock. It fails only while the stock is taken, or where the stock or the JSON
/// cannot be written.
pub proof fn serializing_writes_state_and_stock<C, S, W>(
    wallet: Wallet<C>,
    state: S,
    write_payload: W,
    r: Result<Vec<u8>, Error>,
) where W: FnOnce(WalletBackupPayload<S>) -> Result<Vec<u8>, String>
    requires
        call_ensures(
            Wallet::<C>::serialize_backup_payload::<S, W>,
            (&wallet, state, write_payload),
            r,
        ),
    ensures
        wallet.rgb_stock is None ==> r is Err && is_internal(
            r->Err_0,
            "RGB stock is currently in use (runtime active)"@,
        ),
        r is Ok ==> wallet.rgb_stock is Some && exists|
            payload: WalletBackupPayload<S>,
            json: Result<Vec<u8>, String>,
        | #[trigger]
            write_payload.ensures((payload,), json) && json is Ok && json->Ok_0@ == r->Ok_0@
                && payload.state == state && holds_stock(payload, wallet.rgb_stock->0),
        wallet.rgb_stock is Some && r is Err ==> {
            ||| is_write_failure(wallet.rgb_stock->0, r->Err_0)
            ||| exists|payload: WalletBackupPayload<S>, json: Result<Vec<u8>, String>| #[trigger]
                write_payload.ensures((payload,), json) && json is Err && payload.state == state
                    && holds_stock(payload, wallet.rgb_stock->0) && is_json_error(
                    r->Err_0,
                    json->Err_0@,
                )
        },
{
}

/// Serializing asks for the JSON of the wallet's own payload only, and so of
/// nothing while the stock is taken.
pub proof fn serializing_writes_nothing_else<C, S, W>(
    wallet: Wallet<C>,
    state: S,
    write_payload: W,
) where W: FnOnce(WalletBackupPayload<S>) -> Result<Vec<u8>, String>
    requires
        forall|payload: WalletBackupPayload<S>|
            wallet.rgb_stock is Some && payload.state == state && holds_stock(
                payload,
                wallet.rgb_stock->0,
            ) ==> #[trigger] write_payload.requires((payload,)),
    ensures
        call_requires(
            Wallet::<C>::serialize_backup_payload::<S, W>,
            (&wallet, state, write_payload),
        ),
{
}

/// Finishing a backup puts the ciphertext and the JSON of the public data
/// together and then records the backup. A failure of the encryption, of the
/// writing or of the recording is handed on.
pub proof fn finishing_puts_together_and_records<H, U>(
    sealed: Result<(Vec<u8>, BackupPubData), Error>,
    write_pub_data: H,
    update_backup_info: U,
    r: Result<Vec<u8>, Error>,
) where
    H: FnOnce(&BackupPubData) -> Result<Vec<u8>, String>,
    U: FnOnce(bool) -> Result<(), Error>,

    requires
        call_ensures(finish_backup::<H, U>, (sealed, write_pub_data, update_backup_info), r),
    ensures
        sealed is Err ==> r is Err && same_error(r->Err_0, sealed->Err_0),
        r is Ok ==> sealed is Ok && is_finished(
            sealed->Ok_0.0@,
            sealed->Ok_0.1,
            write_pub_data,
            update_backup_info,
            r->Ok_0@,
        ),
        sealed is Ok && r is Err ==> is_finish_failure(
            sealed->Ok_0.1,
            write_pub_data,
            update_backup_info,
            r->Err_0,
        ),
{
    if sealed is Ok {
        finishing(
            sealed->Ok_0.0@,
            sealed->Ok_0.1,
            write_pub_data,
            update_backup_info,
            r,
        );
    }
}

/// Whether `backup` is the envelope of the ciphertext and of JSON that was
/// written for the public data, and the backup was recorded.
pub open spec fn is_finished<H, U>(
    ciphertext: Seq<u8>,
    pub_data: BackupPubData,
    write_pub_data: H,
    update_backup_info: U,
    backup: Seq<u8>,
) -> bool where
    H: FnOnce(&BackupPubData) -> Result<Vec<u8>, String>,
    U: FnOnce(bool) -> Result<(), Error>,
 {
    &&& exists|json: Result<Vec<u8>, String>| #[trigger]
        write_pub_data.ensures((&pub_data,), json) && json is Ok && is_envelope(
            backup,
            json->Ok_0@,
            ciphertext,
        )
    &&& exists|updated: Result<(), Error>| #[trigger]
        update_backup_info.ensures((true,), updated) && updated is Ok
}

/// Whether `e` tells why public data could not be written or a backup not be
/// recorded.
pub open spec fn is_finish_failure<H, U>(
    pub_data: BackupPubData,
    write_pub_data: H,
    update_backup_info: U,
    e: Error,
) -> bool where
    H: FnOnce(&BackupPubData) -> Result<Vec<u8>, String>,
    U: FnOnce(bool) -> Result<(), Error>,
 {
    ||| exists|json: Result<Vec<u8>, String>| #[trigger]
        write_pub_data.ensures((&pub_data,), json) && json is Err && is_json_error(
            e,
            json->Err_0@,
        )
    ||| exists|updated: Result<(), Error>| #[trigger]
        update_backup_info.ensures((true,), updated) && updated is Err && same_error(
            e,
            updated->Err_0,
        )
}

/// What the contract of finishing a backup comes to.
proof fn finishing<H, U>(
    ciphertext: Seq<u8>,
    pub_data: BackupPubData,
    write_pub_data: H,
    update_backup_info: U,
    r: Result<Vec<u8>, Error>,
) where
    H: FnOnce(&BackupPubData) -> Result<Vec<u8>, String>,
    U: FnOnce(bool) -> Result<(), Error>,

    requires
        finishes(
            ciphertext,
            &pub_data,
            write_pub_data,
            update_backup_info,
            bytes_result(r),
        ),
    ensures
        r is Ok ==> is_finished(
            ciphertext,
            pub_data,
            write_pub_data,
            update_backup_info,
            r->Ok_0@,
        ),
        r is Err ==> is_finish_failure(pub_data, write_pub_data, update_backup_info, r->Err_0),
{
    assert forall|json: Seq<u8>|
        is_envelope(#[trigger] envelope(json, ciphertext), json, ciphertext) by {
        envelope_is_an_envelope(json, ciphertext);
    }
}

/// Where the encryption failed, nothing is written or recorded, and where the
/// public data cannot be written, nothing is recorded: finishing is allowed
/// whatever the callbacks require that are not to be called.
pub proof fn finishing_records_only_backups<H, U>(
    sealed: Result<(Vec<u8>, BackupPubData), Error>,
    write_pub_data: H,
    update_backup_info: U,
) where
    H: FnOnce(&BackupPubData) -> Result<Vec<u8>, String>,
    U: FnOnce(bool) -> Result<(), Error>,

    requires
        sealed is Ok ==> write_pub_data.requires((&sealed->Ok_0.1,)),
        sealed is Ok && !update_backup_info.requires((true,)) ==> forall|
            json: Result<Vec<u8>, String>,
        | #[trigger] write_pub_data.ensures((&sealed->Ok_0.1,), json) ==> json is Err,
    ensures
        call_requires(finish_backup::<H, U>, (sealed, write_pub_data, update_backup_info)),
{
}

/// A backup is refused while the stock is taken, and then nothing is written or
/// recorded: the call is allowed whatever the callbacks require of theirs.
pub proof fn backup_needs_the_stock<C, S, W, H, U>(
    wallet: Wallet<C>,
    password: &str,
    state: S,
    write_payload: W,
    write_pub_data: H,
    update_backup_info: U,
    r: Result<Vec<u8>, Error>,
) where
    W: FnOnce(WalletBackupPayload<S>) -> Result<Vec<u8>, String>,
    H: FnOnce(&BackupPubData) -> Result<Vec<u8>, String>,
    U: FnOnce(bool) -> Result<(), Error>,

    requires
        wallet.rgb_stock is None,
        call_ensures(
            Wallet::<C>::backup::<S, W, H, U>,
            (&wallet, password, state, write_payload, write_pub_data, update_backup_info),
            r,
        ),
    ensures
        r is Err && is_internal(r->Err_0, "RGB stock is currently in use (runtime active)"@),
        call_requires(
            Wallet::<C>::backup::<S, W, H, U>,
            (&wallet, password, state, write_payload, write_pub_data, update_backup_info),
        ),
{
}

/// Whether `json` was written for the wallet's stock and the given state.
pub open spec fn is_json_of_wallet<C, S, W>(
    wallet: Wallet<C>,
    state: S,
    write_payload: W,
    json: Seq<u8>,
) -> bool where W: FnOnce(WalletBackupPayload<S>) -> Result<Vec<u8>, String> {
    wallet.rgb_stock is Some && exists|
        payload: WalletBackupPayload<S>,
        written: Result<Vec<u8>, String>,
    | #[trigger]
        write_payload.ensures((payload,), written) && written is Ok && written->Ok_0@ == json
            && payload.state == state && holds_stock(payload, wallet.rgb_stock->0)
}

/// Whether `backup` is the envelope of the encryption of `json` under the
/// password, at full cost and with a salt and a nonce that were drawn and are
/// told in the public data, and was recorded.
pub open spec fn is_backup_of<H, U>(
    json: Seq<u8>,
    password: Seq<char>,
    write_pub_data: H,
    update_backup_info: U,
    backup: Seq<u8>,
) -> bool where
    H: FnOnce(&BackupPubData) -> Result<Vec<u8>, String>,
    U: FnOnce(bool) -> Result<(), Error>,
 {
    exists|
        ciphertext: Seq<u8>,
        pub_data: BackupPubData,
        salt: String,
        nonce: Result<[u8; 24], String>,
    | #[trigger]
        is_fresh_sealing(json, password, 17u8, ciphertext, pub_data, salt, nonce) && is_finished(
            ciphertext,
            pub_data,
            write_pub_data,
            update_backup_info,
            backup,
        )
}

/// Whether `e` tells why `json` could not be backed up: no nonce could be drawn,
/// it is beyond the cipher's limit, or the backup could not be finished.
pub open spec fn is_backup_failure<H, U>(
    json: Seq<u8>,
    password: Seq<char>,
    write_pub_data: H,
    update_backup_info: U,
    e: Error,
) -> bool where
    H: FnOnce(&BackupPubData) -> Result<Vec<u8>, String>,
    U: FnOnce(bool) -> Result<(), Error>,
 {
    ||| exists|nonce: Result<[u8; 24], String>| #[trigger]
        is_drawn_nonce(nonce) && nonce is Err && is_internal(
            e,
            "RNG unavailable: "@ + nonce->Err_0@,
        )
    ||| json.len() > 274_877_906_816 && is_aead_error(e, "aead::Error"@)
    ||| exists|
        ciphertext: Seq<u8>,
        pub_data: BackupPubData,
        salt: String,
        nonce: Result<[u8; 24], String>,
    | #[trigger]
        is_fresh_sealing(json, password, 17u8, ciphertext, pub_data, salt, nonce)
            && is_finish_failure(pub_data, write_pub_data, update_backup_info, e)
}

/// What a backup returns is the encryption of the JSON written for the wallet's
/// state and stock, under the password and put into an envelope; and it was
/// recorded.
pub proof fn backup_holds_the_encrypted_wallet<C, S, W, H, U>(
    wallet: Wallet<C>,
    password: &str,
    state: S,
    write_payload: W,
    write_pub_data: H,
    update_backup_info: U,
    r: Result<Vec<u8>, Error>,
) where
    W: FnOnce(WalletBackupPayload<S>) -> Result<Vec<u8>, String>,
    H: FnOnce(&BackupPubData) -> Result<Vec<u8>, String>,
    U: FnOnce(bool) -> Result<(), Error>,

    requires
        call_ensures(
            Wallet::<C>::backup::<S, W, H, U>,
            (&wallet, password, state, write_payload, write_pub_data, update_backup_info),
            r,
        ),
        r is Ok,
    ensures
        exists|json: Seq<u8>| #[trigger]
            is_json_of_wallet(wallet, state, write_payload, json) && is_backup_of(
                json,
                password@,
                write_pub_data,
                update_backup_info,
                r->Ok_0@,
            ),
{
    let json = choose|json: Result<Seq<u8>, ErrorView>| #[trigger]
        serializes(wallet.rgb_stock, state, write_payload, json) && match json {
            Err(e) => bytes_result(r) == Err::<Seq<u8>, _>(e),
            Ok(json) => backs_up_json(
                json,
                password@,
                write_pub_data,
                update_backup_info,
                bytes_result(r),
            ),
        };
    let json = json->Ok_0;
    assert(is_json_of_wallet(wallet, state, write_payload, json));
    backing_up(json, password@, write_pub_data, update_backup_info, r);
}

/// A backup fails only while the stock is taken, where the stock or its JSON
/// cannot be written, or where the JSON cannot be encrypted, put together or
/// recorded. So a payload within the cipher's limit that can be written is backed
/// up, unless no nonce can be drawn, the public data cannot be written or the
/// backup cannot be recorded.
pub proof fn backup_fails_only_with_a_reason<C, S, W, H, U>(
    wallet: Wallet<C>,
    password: &str,
    state: S,
    write_payload: W,
    write_pub_data: H,
    update_backup_info: U,
    r: Result<Vec<u8>, Error>,
) where
    W: FnOnce(WalletBackupPayload<S>) -> Result<Vec<u8>, String>,
    H: FnOnce(&BackupPubData) -> Result<Vec<u8>, String>,
    U: FnOnce(bool) -> Result<(), Error>,

    requires
        call_ensures(
            Wallet::<C>::backup::<S, W, H, U>,
            (&wallet, password, state, write_payload, write_pub_data, update_backup_info),
            r,
        ),
        r is Err,
        wallet.rgb_stock is Some,
    ensures
        ({
            ||| is_write_failure(wallet.rgb_stock->0, r->Err_0)
            ||| exists|payload: WalletBackupPayload<S>, json: Result<Vec<u8>, String>| #[trigger]
                write_payload.ensures((payload,), json) && json is Err && payload.state == state
                    && holds_stock(payload, wallet.rgb_stock->0) && is_json_error(
                    r->Err_0,
                    json->Err_0@,
                )
            ||| exists|json: Seq<u8>| #[trigger]
                is_json_of_wallet(wallet, state, write_payload, json) && is_backup_failure(
                    json,
                    password@,
                    write_pub_data,
                    update_backup_info,
                    r->Err_0,
                )
        }),
{
    let json = choose|json: Result<Seq<u8>, ErrorView>| #[trigger]
        serializes(wallet.rgb_stock, state, write_payload, json) && match json {
            Err(e) => bytes_result(r) == Err::<Seq<u8>, _>(e),
            Ok(json) => backs_up_json(
                json,
                password@,
                write_pub_data,
                update_backup_info,
                bytes_result(r),
            ),
        };
    if json is Ok {
        assert(is_json_of_wallet(wallet, state, write_payload, json->Ok_0));
        backing_up(json->Ok_0, password@, write_pub_data, update_backup_info, r);
    }
}

/// What the contract of backing up some JSON comes to.
proof fn backing_up<H, U>(
    json: Seq<u8>,
    password: Seq<char>,
    write_pub_data: H,
    update_backup_info: U,
    r: Result<Vec<u8>, Error>,
) where
    H: FnOnce(&BackupPubData) -> Result<Vec<u8>, String>,
    U: FnOnce(bool) -> Result<(), Error>,

    requires
        backs_up_json(json, password, write_pub_data, update_backup_info, bytes_result(r)),
    ensures
        r is Ok ==> is_backup_of(
            json,
            password,
            write_pub_data,
            update_backup_info,
            r->Ok_0@,
        ),
        r is Err ==> is_backup_failure(
            json,
            password,
            write_pub_data,
            update_backup_info,
            r->Err_0,
        ),
{
    if !(r is Err && seals(json, password, Err(r->Err_0@))) {
        let (ciphertext, pub_data) = choose|ciphertext: Seq<u8>, pub_data: BackupPubData|
            seals(json, password, Ok((ciphertext, pub_data@))) && #[trigger] finishes(
                ciphertext,
                &pub_data,
                write_pub_data,
                update_backup_info,
                bytes_result(r),
            );
        finishing(ciphertext, pub_data, write_pub_data, update_backup_info, r);
        let (salt, nonce) = choose|salt: String, nonce: Result<[u8; 24], String>|
            #![trigger is_drawn_salt(salt), is_drawn_nonce(nonce)]
            is_fresh_sealing(json, password, 17u8, ciphertext, pub_data, salt, nonce);
        assert(is_fresh_sealing(json, password, 17u8, ciphertext, pub_data, salt, nonce));
    }
}

/// A backup that can be made is allowed: where the JSON of the wallet may be
/// asked for and comes out within the cipher's limit, all public data may be
/// written, and a backup may be recorded.
pub proof fn backup_is_allowed<C, S, W, H, U>(
    wallet: Wallet<C>,
    password: &str,
    state: S,
    write_payload: W,
    write_pub_data: H,
    update_backup_info: U,
) where
    W: FnOnce(WalletBackupPayload<S>) -> Result<Vec<u8>, String>,
    H: FnOnce(&BackupPubData) -> Result<Vec<u8>, String>,
    U: FnOnce(bool) -> Result<(), Error>,

    requires
        forall|payload: WalletBackupPayload<S>|
            wallet.rgb_stock is Some && payload.state == state && holds_stock(
                payload,
                wallet.rgb_stock->0,
            ) ==> #[trigger] write_payload.requires((payload,)),
        forall|json: Seq<u8>| #[trigger]
            is_json_of_wallet(wallet, state, write_payload, json) ==> json.len()
                <= 274_877_906_816,
        forall|pub_data: &BackupPubData| #[trigger] write_pub_data.requires((pub_data,)),
        update_backup_info.requires((true,)),
    ensures
        call_requires(
            Wallet::<C>::backup::<S, W, H, U>,
            (&wallet, password, state, write_payload, write_pub_data, update_backup_info),
        ),
{
    assert forall|json: Seq<u8>| #[trigger]
        serializes(wallet.rgb_stock, state, write_payload, Ok(json)) implies can_back_up_json(
        json,
        password@,
        write_pub_data,
        update_backup_info,
    ) by {
        assert(is_json_of_wallet(wallet, state, write_payload, json));
    }
}

/// Where the JSON of the wallet cannot be written, nothing else is asked for:
/// the call is allowed whatever the other callbacks require of theirs.
pub proof fn backup_without_json_records_nothing<C, S, W, H, U>(
    wallet: Wallet<C>,
    password: &str,
    state: S,
    write_payload: W,
    write_pub_data: H,
    update_backup_info: U,
) where
    W: FnOnce(WalletBackupPayload<S>) -> Result<Vec<u8>, String>,
    H: FnOnce(&BackupPubData) -> Result<Vec<u8>, String>,
    U: FnOnce(bool) -> Result<(), Error>,

    requires
        forall|payload: WalletBackupPayload<S>| #[trigger] write_payload.requires((payload,)),
        forall|payload: WalletBackupPayload<S>, json: Result<Vec<u8>, String>| #[trigger]
            write_payload.ensures((payload,), json) ==> json is Err,
    ensures
        call_requires(
            Wallet::<C>::backup::<S, W, H, U>,
            (&wallet, password, state, write_payload, write_pub_data, update_backup_info),
        ),
{
}

/// Where no public data can be written, nothing is recorded: the call is allowed
/// whatever `update_backup_info` requires of its calls.
pub proof fn backup_without_public_data_records_nothing<C, S, W, H, U>(
    wallet: Wallet<C>,
    password: &str,
    state: S,
    write_payload: W,
    write_pub_data: H,
    update_backup_info: U,
) where
    W: FnOnce(WalletBackupPayload<S>) -> Result<Vec<u8>, String>,
    H: FnOnce(&BackupPubData) -> Result<Vec<u8>, String>,
    U: FnOnce(bool) -> Result<(), Error>,

    requires
        forall|payload: WalletBackupPayload<S>| #[trigger] write_payload.requires((payload,)),
        forall|json: Seq<u8>| #[trigger]
            is_json_of_wallet(wallet, state, write_payload, json) ==> json.len()
                <= 274_877_906_816,
        forall|pub_data: &BackupPubData| #[trigger] write_pub_data.requires((pub_data,)),
        forall|pub_data: &BackupPubData, json: Result<Vec<u8>, String>| #[trigger]
            write_pub_data.ensures((pub_data,), json) ==> json is Err,
    ensures
        call_requires(
            Wallet::<C>::backup::<S, W, H, U>,
            (&wallet, password, state, write_payload, write_pub_data, update_backup_info),
        ),
{
    assert forall|json: Seq<u8>| #[trigger]
        serializes(wallet.rgb_stock, state, write_payload, Ok(json)) implies can_back_up_json(
        json,
        password@,
        write_pub_data,
        update_backup_info,
    ) by {
        assert(is_json_of_wallet(wallet, state, write_payload, json));
    }
}

} // verus!
