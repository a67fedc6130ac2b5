//! What holds of backup and restore as a whole.

use vstd::prelude::*;

use crate::cipher::{decrypted, fits_cipher, seals, BackupPubData, BACKUP_VERSION};
use crate::decimal::decimal_text;
use crate::envelope::{
    decodes, decoding_inverts_encoding, encodes, json_written, opened, pub_data_reads_back,
};
use crate::error::{result_view, Error, ErrorView};
use crate::info::{
    backup_is_required_after_an_operation, required_by, text_precedes, BackupInfo,
};
use crate::payload::{
    payload_restores, reads_back, restored_stock_has_the_same_payload, snapshot_of,
    WalletBackupPayload, WalletSnapshot,
};
use crate::stock::{stock_parts, RgbStock};
use crate::wallet::{
    answered, backs_up_json, finishes, initial_backup, initial_backup_version, restores_backup,
    restores_json, restores_payload, serializes, vss_info, vss_not_configured, wallet_payload,
    UploadFailure, Wallet,
};

verus! {

/// Whether `read_payload` reads a payload back from every JSON text that
/// `write_payload` writes for it.
pub open spec fn payload_reads_back<S, W, P>(write_payload: W, read_payload: P) -> bool where
    W: FnOnce(WalletBackupPayload<S>) -> Result<Vec<u8>, String>,
    P: FnOnce(&[u8]) -> Option<WalletBackupPayload<S>>,
 {
    forall|
        payload: WalletBackupPayload<S>,
        json: Vec<u8>,
        bytes: &[u8],
        again: Option<WalletBackupPayload<S>>,
    |
        #[trigger] write_payload.ensures((payload,), Ok(json)) && bytes@ == json@
            && #[trigger] read_payload.ensures((bytes,), again) ==> again is Some && again->0@
            == payload@
}

/// Restoring the JSON of a wallet's payload, which is what is uploaded to the
/// backup server and downloaded from it, restores that payload, where the JSON
/// of payloads reads back.
pub proof fn serialized_payload_is_restored<S, C, W, P, R>(
    stock: Option<RgbStock>,
    state: S,
    write_payload: W,
    json: Seq<u8>,
    read_payload: P,
    restore_from_snapshot: R,
    before: Wallet<C>,
    after: Wallet<C>,
    r: Result<(), ErrorView>,
) -> (payload: WalletBackupPayload<S>) where
    W: FnOnce(WalletBackupPayload<S>) -> Result<Vec<u8>, String>,
    P: FnOnce(&[u8]) -> Option<WalletBackupPayload<S>>,
    R: FnOnce(WalletSnapshot<S>) -> Result<(), Error>,

    requires
        payload_reads_back(write_payload, read_payload),
        serializes(stock, state, write_payload, Ok(json)),
        restores_json(before, json, read_payload, restore_from_snapshot, after, r),
    ensures
        wallet_payload(stock, state) == Ok::<_, ErrorView>(payload@),
        restores_payload(before, payload, restore_from_snapshot, after, r),
{
    let view = wallet_payload(stock, state)->Ok_0;
    let (p, written) = choose|p: WalletBackupPayload<S>, written: Result<Vec<u8>, String>|
        p@ == view && #[trigger] write_payload.ensures((p,), written) && Ok::<_, ErrorView>(json)
            == json_written(written);
    assert(written is Ok);
    assert(write_payload.ensures((p,), Ok(written->Ok_0)));
    let (bytes, again) = choose|bytes: &[u8], again: Option<WalletBackupPayload<S>>|
        bytes@ == json && #[trigger] read_payload.ensures((bytes,), again) && match again {
            None => r == Err::<(), _>(ErrorView::InvalidBackup) && after == before,
            Some(payload) => restores_payload(before, payload, restore_from_snapshot, after, r),
        };
    again->0
}

/// A sealed payload that was put into a backup comes out of it again: the
/// backup is of the present format version, the cipher takes it, and it
/// decrypts, with the same password, to the payload. It is supposed that the
/// JSON of public data reads back.
pub proof fn sealed_backup_holds_the_payload<H, D>(
    json: Seq<u8>,
    password: Seq<char>,
    ciphertext: Seq<u8>,
    pub_data: BackupPubData,
    write_pub_data: H,
    backup: Seq<u8>,
    read_pub_data: D,
    decoded: Result<(BackupPubData, Seq<u8>), ErrorView>,
) where
    H: FnOnce(&BackupPubData) -> Result<Vec<u8>, String>,
    D: FnOnce(&[u8]) -> Option<BackupPubData>,

    requires
        pub_data_reads_back(write_pub_data, read_pub_data),
        seals(json, password, Ok((ciphertext, pub_data@))),
        encodes(ciphertext, &pub_data, write_pub_data, Ok(backup)),
        decodes(backup, read_pub_data, decoded),
    ensures
        decoded matches Ok((pub_data, ciphertext)) && pub_data.version == BACKUP_VERSION
            && fits_cipher(ciphertext, pub_data@) && decrypted(ciphertext, password, pub_data@)
            == Ok::<_, ErrorView>(json),
{
    assert(pub_data@.version == BACKUP_VERSION);
    decoding_inverts_encoding(
        ciphertext,
        &pub_data,
        write_pub_data,
        read_pub_data,
        backup,
        decoded,
    );
}

/// A successful backup was made by sealing the payload and putting the sealed
/// payload into a backup.
pub proof fn backup_is_sealed<H, U>(
    json: Seq<u8>,
    password: Seq<char>,
    write_pub_data: H,
    update_backup_info: U,
    backup: Seq<u8>,
) -> (sealed: (Seq<u8>, BackupPubData)) where
    H: FnOnce(&BackupPubData) -> Result<Vec<u8>, String>,
    U: FnOnce(bool) -> Result<(), Error>,

    requires
        backs_up_json(json, password, write_pub_data, update_backup_info, Ok(backup)),
    ensures
        seals(json, password, Ok((sealed.0, sealed.1@))),
        encodes(sealed.0, &sealed.1, write_pub_data, Ok(backup)),
{
    choose|ciphertext: Seq<u8>, pub_data: BackupPubData|
        seals(json, password, Ok((ciphertext, pub_data@))) && #[trigger] finishes(
            ciphertext,
            &pub_data,
            write_pub_data,
            update_backup_info,
            Ok(backup),
        )
}

/// What a successful backup returns is a backup of the present format version
/// that the cipher takes and that decrypts, with the same password, to the
/// payload as it was before the backup was recorded, where the JSON of public
/// data reads back.
pub proof fn backup_holds_the_payload<H, U, D>(
    json: Seq<u8>,
    password: Seq<char>,
    write_pub_data: H,
    update_backup_info: U,
    backup: Seq<u8>,
    read_pub_data: D,
    decoded: Result<(BackupPubData, Seq<u8>), ErrorView>,
) where
    H: FnOnce(&BackupPubData) -> Result<Vec<u8>, String>,
    U: FnOnce(bool) -> Result<(), Error>,
    D: FnOnce(&[u8]) -> Option<BackupPubData>,

    requires
        pub_data_reads_back(write_pub_data, read_pub_data),
        backs_up_json(json, password, write_pub_data, update_backup_info, Ok(backup)),
        decodes(backup, read_pub_data, decoded),
    ensures
        decoded matches Ok((pub_data, ciphertext)) && pub_data.version == BACKUP_VERSION
            && fits_cipher(ciphertext, pub_data@) && decrypted(ciphertext, password, pub_data@)
            == Ok::<_, ErrorView>(json),
{
    let (ciphertext, pub_data) = backup_is_sealed(
        json,
        password,
        write_pub_data,
        update_backup_info,
        backup,
    );
    sealed_backup_holds_the_payload(
        json,
        password,
        ciphertext,
        pub_data,
        write_pub_data,
        backup,
        read_pub_data,
        decoded,
    );
}

/// Restoring a backup of a sealed payload, with the password that it was sealed
/// with, comes to the same as restoring the JSON in it, which is how a download
/// from the backup server is restored. It is supposed that the JSON of public
/// data reads back.
pub proof fn sealed_backup_restores_as_its_json<S, C, H, D, P, R>(
    json: Seq<u8>,
    password: Seq<char>,
    ciphertext: Seq<u8>,
    pub_data: BackupPubData,
    write_pub_data: H,
    backup: Seq<u8>,
    read_pub_data: D,
    read_payload: P,
    restore_from_snapshot: R,
    before: Wallet<C>,
    after: Wallet<C>,
    r: Result<(), ErrorView>,
) where
    H: FnOnce(&BackupPubData) -> Result<Vec<u8>, String>,
    D: FnOnce(&[u8]) -> Option<BackupPubData>,
    P: FnOnce(&[u8]) -> Option<WalletBackupPayload<S>>,
    R: FnOnce(WalletSnapshot<S>) -> Result<(), Error>,

    requires
        pub_data_reads_back(write_pub_data, read_pub_data),
        seals(json, password, Ok((ciphertext, pub_data@))),
        encodes(ciphertext, &pub_data, write_pub_data, Ok(backup)),
        restores_backup(
            before,
            backup,
            password,
            read_pub_data,
            read_payload,
            restore_from_snapshot,
            after,
            r,
        ),
    ensures
        restores_json(before, json, read_payload, restore_from_snapshot, after, r),
{
    let decoded = choose|decoded: Result<(BackupPubData, Seq<u8>), ErrorView>| #[trigger]
        decodes(backup, read_pub_data, decoded) && match decoded {
            Err(e) => r == Err::<(), _>(e) && after == before,
            Ok((pub_data, ciphertext)) => match decrypted(ciphertext, password, pub_data@) {
                Err(e) => r == Err::<(), _>(e) && after == before,
                Ok(json) => restores_json(
                    before,
                    json,
                    read_payload,
                    restore_from_snapshot,
                    after,
                    r,
                ),
            },
        };
    sealed_backup_holds_the_payload(
        json,
        password,
        ciphertext,
        pub_data,
        write_pub_data,
        backup,
        read_pub_data,
        decoded,
    );
}

/// Whether `read_payload` reads the same from the same JSON.
pub open spec fn reads_the_same<S, P>(read_payload: P) -> bool where
    P: FnOnce(&[u8]) -> Option<WalletBackupPayload<S>>,
 {
    forall|
        a: &[u8],
        b: &[u8],
        p: Option<WalletBackupPayload<S>>,
        q: Option<WalletBackupPayload<S>>,
    |
        a@ == b@ && #[trigger] read_payload.ensures((a,), p) && #[trigger] read_payload.ensures(
            (b,),
            q,
        ) ==> {
            &&& p is Some <==> q is Some
            &&& p is Some ==> p->0@ == q->0@
        }
}

/// Whether `restore_from_snapshot` comes to the same on the same snapshot.
pub open spec fn restores_the_same<S, R>(restore_from_snapshot: R) -> bool where
    R: FnOnce(WalletSnapshot<S>) -> Result<(), Error>,
 {
    forall|snapshot: WalletSnapshot<S>, x: Result<(), Error>, y: Result<(), Error>| #[trigger]
        restore_from_snapshot.ensures((snapshot,), x) && #[trigger] restore_from_snapshot.ensures(
            (snapshot,),
            y,
        ) ==> result_view(x) == result_view(y)
}

/// Whether two wallets are the same, their stocks being compared by their parts.
pub open spec fn same_wallet<C>(a: Wallet<C>, b: Wallet<C>) -> bool {
    &&& b == Wallet { rgb_stock: b.rgb_stock, ..a }
    &&& match (a.rgb_stock, b.rgb_stock) {
        (Some(s), Some(t)) => stock_parts(s) == stock_parts(t),
        (None, None) => true,
        _ => false,
    }
}

/// Restoring equal payloads into the same wallet has the same result and leaves
/// the same wallet, where restoring a snapshot depends on the snapshot alone.
proof fn payload_restores_agree<S, C, R>(
    p: WalletBackupPayload<S>,
    q: WalletBackupPayload<S>,
    restore_from_snapshot: R,
    before: Wallet<C>,
    after: Wallet<C>,
    r: Result<(), ErrorView>,
    after_again: Wallet<C>,
    again: Result<(), ErrorView>,
) where R: FnOnce(WalletSnapshot<S>) -> Result<(), Error>
    requires
        p@ == q@,
        restores_the_same(restore_from_snapshot),
        restores_payload(before, p, restore_from_snapshot, after, r),
        restores_payload(before, q, restore_from_snapshot, after_again, again),
    ensures
        r == again,
        same_wallet(after, after_again),
{
    assert(snapshot_of(p.state) == snapshot_of(q.state));
}

/// Restoring the same JSON into the same wallet has the same result and leaves
/// the same wallet, where reading payloads and restoring snapshots depend on
/// nothing but their arguments.
pub proof fn json_restores_agree<S, C, P, R>(
    json: Seq<u8>,
    read_payload: P,
    restore_from_snapshot: R,
    before: Wallet<C>,
    after: Wallet<C>,
    r: Result<(), ErrorView>,
    after_again: Wallet<C>,
    again: Result<(), ErrorView>,
) where
    P: FnOnce(&[u8]) -> Option<WalletBackupPayload<S>>,
    R: FnOnce(WalletSnapshot<S>) -> Result<(), Error>,

    requires
        reads_the_same(read_payload),
        restores_the_same(restore_from_snapshot),
        restores_json(before, json, read_payload, restore_from_snapshot, after, r),
        restores_json(before, json, read_payload, restore_from_snapshot, after_again, again),
    ensures
        r == again,
        same_wallet(after, after_again),
{
    let (a, p) = choose|a: &[u8], p: Option<WalletBackupPayload<S>>|
        a@ == json && #[trigger] read_payload.ensures((a,), p) && match p {
            None => r == Err::<(), _>(ErrorView::InvalidBackup) && after == before,
            Some(p) => restores_payload(before, p, restore_from_snapshot, after, r),
        };
    let (b, q) = choose|b: &[u8], q: Option<WalletBackupPayload<S>>|
        b@ == json && #[trigger] read_payload.ensures((b,), q) && match q {
            None => again == Err::<(), _>(ErrorView::InvalidBackup) && after_again == before,
            Some(q) => restores_payload(before, q, restore_from_snapshot, after_again, again),
        };
    if p is Some {
        payload_restores_agree(
            p->0,
            q->0,
            restore_from_snapshot,
            before,
            after,
            r,
            after_again,
            again,
        );
    }
}

/// Restoring a download and restoring a local backup of the same JSON, into the
/// same wallet, have the same result and leave the same wallet, whether or not
/// the local backup was recorded. It is supposed that the JSON of public data
/// reads back, and that reading payloads and restoring snapshots depend on
/// nothing but their arguments.
pub proof fn local_and_server_restores_agree<S, C, H, D, P, R>(
    json: Seq<u8>,
    password: Seq<char>,
    ciphertext: Seq<u8>,
    pub_data: BackupPubData,
    write_pub_data: H,
    backup: Seq<u8>,
    read_pub_data: D,
    read_payload: P,
    restore_from_snapshot: R,
    before: Wallet<C>,
    after_local: Wallet<C>,
    local: Result<(), ErrorView>,
    after_server: Wallet<C>,
    server: Result<(), ErrorView>,
) where
    H: FnOnce(&BackupPubData) -> Result<Vec<u8>, String>,
    D: FnOnce(&[u8]) -> Option<BackupPubData>,
    P: FnOnce(&[u8]) -> Option<WalletBackupPayload<S>>,
    R: FnOnce(WalletSnapshot<S>) -> Result<(), Error>,

    requires
        pub_data_reads_back(write_pub_data, read_pub_data),
        reads_the_same(read_payload),
        restores_the_same(restore_from_snapshot),
        seals(json, password, Ok((ciphertext, pub_data@))),
        encodes(ciphertext, &pub_data, write_pub_data, Ok(backup)),
        restores_backup(
            before,
            backup,
            password,
            read_pub_data,
            read_payload,
            restore_from_snapshot,
            after_local,
            local,
        ),
        restores_json(
            before,
            json,
            read_payload,
            restore_from_snapshot,
            after_server,
            server,
        ),
    ensures
        local == server,
        same_wallet(after_local, after_server),
{
    sealed_backup_restores_as_its_json(
        json,
        password,
        ciphertext,
        pub_data,
        write_pub_data,
        backup,
        read_pub_data,
        read_payload,
        restore_from_snapshot,
        before,
        after_local,
        local,
    );
    json_restores_agree(
        json,
        read_payload,
        restore_from_snapshot,
        before,
        after_local,
        local,
        after_server,
        server,
    );
}

/// Restoring a backup with the password that it was made with restores the
/// payload that was backed up, where the JSON of public data and of payloads
/// reads back.
pub proof fn backup_is_restored<S, C, W, H, U, D, P, R>(
    stock: Option<RgbStock>,
    state: S,
    password: Seq<char>,
    write_payload: W,
    write_pub_data: H,
    update_backup_info: U,
    json: Seq<u8>,
    backup: Seq<u8>,
    read_pub_data: D,
    read_payload: P,
    restore_from_snapshot: R,
    before: Wallet<C>,
    after: Wallet<C>,
    r: Result<(), ErrorView>,
) -> (payload: WalletBackupPayload<S>) where
    W: FnOnce(WalletBackupPayload<S>) -> Result<Vec<u8>, String>,
    H: FnOnce(&BackupPubData) -> Result<Vec<u8>, String>,
    U: FnOnce(bool) -> Result<(), Error>,
    D: FnOnce(&[u8]) -> Option<BackupPubData>,
    P: FnOnce(&[u8]) -> Option<WalletBackupPayload<S>>,
    R: FnOnce(WalletSnapshot<S>) -> Result<(), Error>,

    requires
        pub_data_reads_back(write_pub_data, read_pub_data),
        payload_reads_back(write_payload, read_payload),
        serializes(stock, state, write_payload, Ok(json)),
        backs_up_json(json, password, write_pub_data, update_backup_info, Ok(backup)),
        restores_backup(
            before,
            backup,
            password,
            read_pub_data,
            read_payload,
            restore_from_snapshot,
            after,
            r,
        ),
    ensures
        wallet_payload(stock, state) == Ok::<_, ErrorView>(payload@),
        restores_payload(before, payload, restore_from_snapshot, after, r),
{
    let (ciphertext, pub_data) = backup_is_sealed(
        json,
        password,
        write_pub_data,
        update_backup_info,
        backup,
    );
    sealed_backup_restores_as_its_json(
        json,
        password,
        ciphertext,
        pub_data,
        write_pub_data,
        backup,
        read_pub_data,
        read_payload,
        restore_from_snapshot,
        before,
        after,
        r,
    );
    serialized_payload_is_restored(
        stock,
        state,
        write_payload,
        json,
        read_payload,
        restore_from_snapshot,
        before,
        after,
        r,
    )
}

/// Restoring the payload of a stock whose parts read back, with a snapshot
/// mechanism that does not fail, succeeds: the backed-up state is handed to the
/// snapshot mechanism, and backing up again gives the same payload.
pub proof fn restored_wallet_backs_up_the_same<S, C, R>(
    stock: RgbStock,
    payload: WalletBackupPayload<S>,
    restore_from_snapshot: R,
    before: Wallet<C>,
    after: Wallet<C>,
    r: Result<(), ErrorView>,
) where R: FnOnce(WalletSnapshot<S>) -> Result<(), Error>
    requires
        reads_back(stock),
        wallet_payload(Some(stock), payload.state) == Ok::<_, ErrorView>(payload@),
        forall|snapshot: WalletSnapshot<S>, restored: Result<(), Error>| #[trigger]
            restore_from_snapshot.ensures((snapshot,), restored) ==> restored is Ok,
        restores_payload(before, payload, restore_from_snapshot, after, r),
    ensures
        r is Ok,
        exists|restored: Result<(), Error>| #[trigger]
            restore_from_snapshot.ensures((snapshot_of(payload.state),), restored),
        wallet_payload(after.rgb_stock, payload.state) == wallet_payload(
            Some(stock),
            payload.state,
        ),
{
    payload_restores(stock, payload.state);
    restored_stock_has_the_same_payload(stock, payload.state, after.rgb_stock->0);
}

/// Backing up a wallet and restoring the backup with the same password, into
/// any wallet, succeeds and hands over the whole of what was backed up: the
/// snapshot mechanism gets the state, and the restored stock has the payload of
/// the stock that was backed up. It is supposed that the JSON of public data and
/// of payloads and the parts of the stock read back, and that the snapshot
/// mechanism does not fail.
pub proof fn backup_and_restore_round_trip<S, C, W, H, U, D, P, R>(
    stock: RgbStock,
    state: S,
    password: Seq<char>,
    write_payload: W,
    write_pub_data: H,
    update_backup_info: U,
    json: Seq<u8>,
    backup: Seq<u8>,
    read_pub_data: D,
    read_payload: P,
    restore_from_snapshot: R,
    before: Wallet<C>,
    after: Wallet<C>,
    r: Result<(), ErrorView>,
) where
    W: FnOnce(WalletBackupPayload<S>) -> Result<Vec<u8>, String>,
    H: FnOnce(&BackupPubData) -> Result<Vec<u8>, String>,
    U: FnOnce(bool) -> Result<(), Error>,
    D: FnOnce(&[u8]) -> Option<BackupPubData>,
    P: FnOnce(&[u8]) -> Option<WalletBackupPayload<S>>,
    R: FnOnce(WalletSnapshot<S>) -> Result<(), Error>,

    requires
        pub_data_reads_back(write_pub_data, read_pub_data),
        payload_reads_back(write_payload, read_payload),
        reads_back(stock),
        forall|snapshot: WalletSnapshot<S>, restored: Result<(), Error>| #[trigger]
            restore_from_snapshot.ensures((snapshot,), restored) ==> restored is Ok,
        serializes(Some(stock), state, write_payload, Ok(json)),
        backs_up_json(json, password, write_pub_data, update_backup_info, Ok(backup)),
        restores_backup(
            before,
            backup,
            password,
            read_pub_data,
            read_payload,
            restore_from_snapshot,
            after,
            r,
        ),
    ensures
        r is Ok,
        exists|restored: Result<(), Error>| #[trigger]
            restore_from_snapshot.ensures((snapshot_of(state),), restored),
        wallet_payload(after.rgb_stock, state) == wallet_payload(Some(stock), state),
{
    let payload = backup_is_restored(
        Some(stock),
        state,
        password,
        write_payload,
        write_pub_data,
        update_backup_info,
        json,
        backup,
        read_pub_data,
        read_payload,
        restore_from_snapshot,
        before,
        after,
        r,
    );
    assert(payload.state == state);
    restored_wallet_backs_up_the_same(stock, payload, restore_from_snapshot, before, after, r);
}

/// Restoring a payload changes nothing but the stock of the wallet, and where
/// it fails not even that.
pub proof fn restoring_a_payload_changes_only_the_stock<S, C, R>(
    before: Wallet<C>,
    payload: WalletBackupPayload<S>,
    restore_from_snapshot: R,
    after: Wallet<C>,
    r: Result<(), ErrorView>,
) where R: FnOnce(WalletSnapshot<S>) -> Result<(), Error>
    requires
        restores_payload(before, payload, restore_from_snapshot, after, r),
    ensures
        r is Err ==> after == before,
        r is Ok ==> after.rgb_stock is Some,
        after == (Wallet { rgb_stock: after.rgb_stock, ..before }),
{
}

/// Restoring a backup changes nothing but the stock of the wallet, and where it
/// fails not even that.
pub proof fn restoring_changes_only_the_stock<S, C, D, P, R>(
    before: Wallet<C>,
    backup: Seq<u8>,
    password: Seq<char>,
    read_pub_data: D,
    read_payload: P,
    restore_from_snapshot: R,
    after: Wallet<C>,
    r: Result<(), ErrorView>,
) where
    D: FnOnce(&[u8]) -> Option<BackupPubData>,
    P: FnOnce(&[u8]) -> Option<WalletBackupPayload<S>>,
    R: FnOnce(WalletSnapshot<S>) -> Result<(), Error>,

    requires
        restores_backup(
            before,
            backup,
            password,
            read_pub_data,
            read_payload,
            restore_from_snapshot,
            after,
            r,
        ),
    ensures
        r is Err ==> after == before,
        r is Ok ==> after.rgb_stock is Some,
        after == (Wallet { rgb_stock: after.rgb_stock, ..before }),
{
}

/// Bytes that do not have the form of a backup are refused as such, under every
/// password, and the wallet stays as it was.
pub proof fn malformed_backups_are_refused<S, C, D, P, R>(
    before: Wallet<C>,
    backup: Seq<u8>,
    password: Seq<char>,
    read_pub_data: D,
    read_payload: P,
    restore_from_snapshot: R,
    after: Wallet<C>,
    r: Result<(), ErrorView>,
) where
    D: FnOnce(&[u8]) -> Option<BackupPubData>,
    P: FnOnce(&[u8]) -> Option<WalletBackupPayload<S>>,
    R: FnOnce(WalletSnapshot<S>) -> Result<(), Error>,

    requires
        opened(backup) is Err,
        restores_backup(
            before,
            backup,
            password,
            read_pub_data,
            read_payload,
            restore_from_snapshot,
            after,
            r,
        ),
    ensures
        r == Err::<(), _>(ErrorView::InvalidBackup),
        after == before,
{
}

/// A backup of another format version is refused, under every password, with
/// an error that tells the version.
pub proof fn other_versions_are_refused(
    ciphertext: Seq<u8>,
    password: Seq<char>,
    pub_data: BackupPubData<Seq<char>>,
)
    requires
        pub_data.version != BACKUP_VERSION,
    ensures
        decrypted(ciphertext, password, pub_data) == Err::<Seq<u8>, _>(
            ErrorView::UnsupportedBackupVersion { version: decimal_text(pub_data.version as nat) },
        ),
{
}

/// A failed upload is reported until an upload succeeds.
pub proof fn upload_failures_are_reported<C>(
    wallet: Wallet<C>,
    failure: UploadFailure,
    version: i64,
    server_version: Option<i64>,
    stored: Result<Option<BackupInfo>, Error>,
)
    requires
        wallet.vss_client is Some,
        required_by(stored) is Ok,
    ensures
        ({
            let failed = answered(wallet, Err(failure));
            let succeeded = answered(failed, Ok(version));
            &&& vss_info(failed, Ok(server_version), stored) matches Ok(info)
                && info.last_backup_error == Some(failure.text@)
            &&& vss_info(succeeded, Ok(server_version), stored) matches Ok(info)
                && info.last_backup_error is None
        }),
{
}

/// Without a configured server every question about the backup on it is
/// refused in the same way.
pub proof fn no_server_no_answers<C>(
    wallet: Wallet<C>,
    server_version: Result<Option<i64>, Error>,
    stored: Result<Option<BackupInfo>, Error>,
)
    requires
        wallet.vss_client is None,
    ensures
        initial_backup(wallet, stored, server_version) == Err::<bool, _>(vss_not_configured()),
        vss_info(wallet, server_version, stored) is Err,
        vss_info(wallet, server_version, stored)->Err_0 == vss_not_configured(),
{
}

/// The first upload is made exactly where the state of the backup on the server
/// says that a backup is required or that none exists.
pub proof fn initial_backup_is_made_where_required<C>(
    wallet: Wallet<C>,
    server_version: Option<i64>,
    stored: Result<Option<BackupInfo>, Error>,
)
    requires
        wallet.vss_client is Some,
        required_by(stored) is Ok,
    ensures
        vss_info(wallet, Ok(server_version), stored) matches Ok(info) && initial_backup(
            wallet,
            stored,
            Ok(server_version),
        ) == Ok::<_, ErrorView>(info.backup_required || !info.backup_exists),
{
}

/// Enabling backups never leaves an empty store: where the server holds no
/// backup, the wallet is to be uploaded whatever the stored times, and only
/// where the server holds one is it ever not.
pub proof fn empty_store_gets_a_backup<C>(
    wallet: Wallet<C>,
    stored: Result<Option<BackupInfo>, Error>,
    server_version: Result<Option<i64>, Error>,
)
    requires
        wallet.vss_client is Some,
        required_by(stored) is Ok,
    ensures
        server_version == Ok::<Option<i64>, Error>(None) ==> initial_backup(
            wallet,
            stored,
            server_version,
        ) == Ok::<_, ErrorView>(true),
        initial_backup(wallet, stored, server_version) == Ok::<_, ErrorView>(false) ==> (
        server_version is Ok && server_version->Ok_0 is Some),
{
}

/// Where a backup is on record at a time no earlier than the last operation, no
/// backup is required, and none is made on a server that holds one. So a backup
/// that is recorded with the time at which it was made leaves nothing to back
/// up.
pub proof fn backup_leaves_nothing_to_back_up<C>(
    wallet: Wallet<C>,
    info: BackupInfo,
    server_version: Option<i64>,
)
    requires
        info.last_backup_timestamp@.len() > 0,
        info.last_operation_timestamp@ == info.last_backup_timestamp@ || text_precedes(
            info.last_operation_timestamp@,
            info.last_backup_timestamp@,
        ),
    ensures
        required_by(Ok(Some(info))) == Ok::<_, ErrorView>(false),
        wallet.vss_client is Some ==> {
            &&& initial_backup(wallet, Ok(Some(info)), Ok(server_version)) == Ok::<_, ErrorView>(
                server_version is None,
            )
            &&& vss_info(wallet, Ok(server_version), Ok(Some(info))) is Ok
            &&& !vss_info(wallet, Ok(server_version), Ok(Some(info)))->Ok_0.backup_required
        },
{
    backup_is_required_after_an_operation(
        info.last_backup_timestamp@,
        info.last_operation_timestamp@,
    );
}

/// Ensuring an initial backup comes to one upload where a backup is required or
/// the server holds none, and hands on the version or the error of the upload;
/// elsewhere it comes to no upload and no version.
pub proof fn initial_backup_is_one_upload<C>(
    wallet: Wallet<C>,
    stored: Result<Option<BackupInfo>, Error>,
    server_version: Option<i64>,
    decision: Result<bool, Error>,
    uploaded: Result<i64, Error>,
)
    requires
        wallet.vss_client is Some,
        required_by(stored) is Ok,
        result_view(decision) == initial_backup(wallet, stored, Ok(server_version)),
    ensures
        required_by(stored)->Ok_0 || server_version is None ==> initial_backup_version(
            decision,
            Some(uploaded),
        ) == match uploaded {
            Ok(version) => Ok(Some(version)),
            Err(e) => Err(e@),
        },
        !required_by(stored)->Ok_0 && server_version is Some ==> initial_backup_version(
            decision,
            None,
        ) == Ok::<Option<i64>, ErrorView>(None),
{
}

} // verus!
