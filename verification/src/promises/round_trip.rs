//! Restoring what was backed up.

use vstd::prelude::*;

use crate::base64_text::base64_is_injective;
use crate::cipher::BackupPubData;
use crate::envelope::pub_data_reads_back;
use crate::error::{bytes_result, result_view, Error, ErrorView};
use crate::laws::{backup_and_restore_round_trip, payload_reads_back};
use crate::payload::{reads_back, snapshot_of, WalletBackupPayload, WalletSnapshot};
use crate::promises::restore::is_snapshot_restored;
use crate::promises::stock::is_first_snapshot;
use crate::stock::{index_written, stash_written, state_written, stock_parts};
use crate::wallet::{backs_up_json, serializes, Wallet};

verus! {

/// A backup of one wallet, restored into another with the same password, hands
/// the first wallet's state to the snapshots and gives the second a stock whose
/// parts are written as those of the first.
///
/// It is supposed that the JSON of public data and of payloads and the parts of
/// the stock read back, and that restoring snapshots does not fail.
pub proof fn restored_wallet_is_the_one_backed_up<B, C, S, W, H, U, D, P, R>(
    source: Wallet<B>,
    password: &str,
    state: S,
    write_payload: W,
    write_pub_data: H,
    update_backup_info: U,
    backup: Vec<u8>,
    target: &mut Wallet<C>,
    data: &[u8],
    read_pub_data: D,
    read_payload: P,
    restore_from_snapshot: R,
    r: Result<(), Error>,
) where
    W: FnOnce(WalletBackupPayload<S>) -> Result<Vec<u8>, String>,
    H: FnOnce(&BackupPubData) -> Result<Vec<u8>, String>,
    U: FnOnce(bool) -> Result<(), Error>,
    D: FnOnce(&[u8]) -> Option<BackupPubData>,
    P: FnOnce(&[u8]) -> Option<WalletBackupPayload<S>>,
    R: FnOnce(WalletSnapshot<S>) -> Result<(), Error>,

    requires
        call_ensures(
            Wallet::<B>::backup::<S, W, H, U>,
            (&source, password, state, write_payload, write_pub_data, update_backup_info),
            Ok(backup),
        ),
        data@ == backup@,
        call_ensures(
            Wallet::<C>::restore_backup::<S, D, P, R>,
            (target, data, password, read_pub_data, read_payload, restore_from_snapshot),
            r,
        ),
        pub_data_reads_back(write_pub_data, read_pub_data),
        payload_reads_back(write_payload, read_payload),
        source.rgb_stock is Some,
        reads_back(source.rgb_stock->0),
        forall|snapshot: WalletSnapshot<S>, restored: Result<(), Error>| #[trigger]
            restore_from_snapshot.ensures((snapshot,), restored) ==> restored is Ok,
    ensures
        r is Ok,
        is_snapshot_restored(state, restore_from_snapshot),
        final(target).rgb_stock is Some,
        ({
            let (stash, stock_state, index) = stock_parts(source.rgb_stock->0);
            let (stash2, stock_state2, index2) = stock_parts(final(target).rgb_stock->0);
            &&& stash_written(stash2) == stash_written(stash)
            &&& state_written(stock_state2) == state_written(stock_state)
            &&& index_written(index2) == index_written(index)
        }),
        final(target).vss_client == old(target).vss_client,
        final(target).last_vss_backup_error == old(target).last_vss_backup_error,
        final(target).master_fingerprint == old(target).master_fingerprint,
{
    let json = choose|json: Result<Seq<u8>, ErrorView>| #[trigger]
        serializes(source.rgb_stock, state, write_payload, json) && match json {
            Err(e) => Ok::<_, ErrorView>(backup@) == Err::<Seq<u8>, _>(e),
            Ok(json) => backs_up_json(
                json,
                password@,
                write_pub_data,
                update_backup_info,
                Ok(backup@),
            ),
        };
    let stock = source.rgb_stock->0;
    backup_and_restore_round_trip(
        stock,
        state,
        password@,
        write_payload,
        write_pub_data,
        update_backup_info,
        json->Ok_0,
        backup@,
        read_pub_data,
        read_payload,
        restore_from_snapshot,
        *old(target),
        *final(target),
        result_view(r),
    );
    assert(is_first_snapshot(snapshot_of(state), state));
    let (stash, stock_state, index) = stock_parts(stock);
    let (stash2, stock_state2, index2) = stock_parts(final(target).rgb_stock->0);
    base64_is_injective(stash_written(stash2)->Ok_0, stash_written(stash)->Ok_0);
    base64_is_injective(state_written(stock_state2)->Ok_0, state_written(stock_state)->Ok_0);
    base64_is_injective(index_written(index2)->Ok_0, index_written(index)->Ok_0);
}

} // verus!
