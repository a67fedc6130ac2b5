//! What a backup holds: the wallet's state and the three parts of the RGB
//! stock, each in strict encoding and base64.

use rgbstd::persistence::{MemIndex, MemStash, MemState};
use vstd::prelude::*;

use crate::base64_text::{
    base64_decode, base64_decoded, base64_encode, base64_of, base64_reads_back,
};
use crate::error::{Error, ErrorView, InternalError};
use crate::stock::{
    index_read, index_written, read_index, read_stash, read_state, stash_read, stash_written,
    state_read, state_written, stock_parts, RgbStock,
};

verus! {

/// The wallet's state as it is backed up.
///
/// `S` is the part of the state that a backup carries as it is: the database,
/// the changes of the on-chain wallet, the pinned address indexes, the pending
/// transfers and the received consignments. `T` is the type of the texts:
/// `String` in code, `Seq<char>` in contracts.
#[derive(Debug)]
pub struct WalletBackupPayload<S, T = String> {
    /// The state that is carried as it is.
    pub state: S,
    /// The stash in strict encoding, in base64.
    pub stock_stash_b64: T,
    /// The state of the stock in strict encoding, in base64.
    pub stock_state_b64: T,
    /// The index in strict encoding, in base64.
    pub stock_index_b64: T,
}

impl<S> View for WalletBackupPayload<S, String> {
    type V = WalletBackupPayload<S, Seq<char>>;

    open spec fn view(&self) -> WalletBackupPayload<S, Seq<char>> {
        WalletBackupPayload {
            state: self.state,
            stock_stash_b64: self.stock_stash_b64@,
            stock_state_b64: self.stock_state_b64@,
            stock_index_b64: self.stock_index_b64@,
        }
    }
}

/// A snapshot of the wallet, as the snapshot mechanism takes it.
#[derive(Debug)]
pub struct WalletSnapshot<S> {
    /// The number of the snapshot.
    pub sequence: u64,
    /// The state that is carried as it is.
    pub state: S,
    /// The stash, if the snapshot holds it.
    pub stock_stash_b64: Option<String>,
    /// The state of the stock, if the snapshot holds it.
    pub stock_state_b64: Option<String>,
    /// The index, if the snapshot holds it.
    pub stock_index_b64: Option<String>,
}

/// The snapshot by which a backup is restored: the first one, without the
/// stock, which is restored apart.
pub open spec fn snapshot_of<S>(state: S) -> WalletSnapshot<S> {
    WalletSnapshot {
        sequence: 0,
        state,
        stock_stash_b64: None,
        stock_state_b64: None,
        stock_index_b64: None,
    }
}

/// Makes the snapshot by which a backup is restored.
pub fn restored_snapshot<S>(state: S) -> (snapshot: WalletSnapshot<S>)
    ensures
        snapshot == snapshot_of(state),
{
    WalletSnapshot {
        sequence: 0,
        state,
        stock_stash_b64: None,
        stock_state_b64: None,
        stock_index_b64: None,
    }
}

/// The error of a part of the stock that cannot be written or read.
pub open spec fn stock_error(text: Seq<char>) -> ErrorView {
    ErrorView::Component(InternalError::StockError(text))
}

/// The payload of a stock and a state. The stash, the state of the stock and
/// the index are written in this order, and the first failure counts.
pub open spec fn payload_of<S>(stock: RgbStock, state: S) -> Result<
    WalletBackupPayload<S, Seq<char>>,
    ErrorView,
> {
    let (stash, stock_state, index) = stock_parts(stock);
    match (stash_written(stash), state_written(stock_state), index_written(index)) {
        (Err(e), _, _) => Err(stock_error(e)),
        (_, Err(e), _) => Err(stock_error(e)),
        (_, _, Err(e)) => Err(stock_error(e)),
        (Ok(stash), Ok(stock_state), Ok(index)) => Ok(
            WalletBackupPayload {
                state,
                stock_stash_b64: base64_of(stash),
                stock_state_b64: base64_of(stock_state),
                stock_index_b64: base64_of(index),
            },
        ),
    }
}

/// The parts of the stock that three base64 texts hold. All three are decoded
/// from base64 before the first one is read, and the first failure counts.
pub open spec fn parts_of(
    stash_b64: Seq<char>,
    state_b64: Seq<char>,
    index_b64: Seq<char>,
) -> Result<(MemStash, MemState, MemIndex), ErrorView> {
    match (base64_decoded(stash_b64), base64_decoded(state_b64), base64_decoded(index_b64)) {
        (Err(e), _, _) => Err(ErrorView::Component(InternalError::Base64Error(e))),
        (_, Err(e), _) => Err(ErrorView::Component(InternalError::Base64Error(e))),
        (_, _, Err(e)) => Err(ErrorView::Component(InternalError::Base64Error(e))),
        (Ok(stash), Ok(state), Ok(index)) => match (
            stash_read(stash),
            state_read(state),
            index_read(index),
        ) {
            (Err(e), _, _) => Err(stock_error(e)),
            (_, Err(e), _) => Err(stock_error(e)),
            (_, _, Err(e)) => Err(stock_error(e)),
            (Ok(stash), Ok(state), Ok(index)) => Ok((stash, state, index)),
        },
    }
}

impl<S> WalletBackupPayload<S, Seq<char>> {
    /// The parts of the stock that the payload holds.
    pub open spec fn parts(self) -> Result<(MemStash, MemState, MemIndex), ErrorView> {
        parts_of(self.stock_stash_b64, self.stock_state_b64, self.stock_index_b64)
    }
}

/// Makes the payload of a stock and a state.
pub fn payload_from<S>(stock: &RgbStock, state: S) -> (r: Result<WalletBackupPayload<S>, Error>)
    ensures
        match r {
            Ok(payload) => payload_of(*stock, state) == Ok::<_, ErrorView>(payload@),
            Err(e) => payload_of(*stock, state) == Err::<
                WalletBackupPayload<S, Seq<char>>,
                _,
            >(e@),
        },
{
    let stash = match stock.stash_bytes() {
        Ok(bytes) => bytes,
        Err(e) => {
            return Err(Error::Component(InternalError::StockError(e)));
        },
    };
    let stock_state = match stock.state_bytes() {
        Ok(bytes) => bytes,
        Err(e) => {
            return Err(Error::Component(InternalError::StockError(e)));
        },
    };
    let index = match stock.index_bytes() {
        Ok(bytes) => bytes,
        Err(e) => {
            return Err(Error::Component(InternalError::StockError(e)));
        },
    };
    Ok(
        WalletBackupPayload {
            state,
            stock_stash_b64: base64_encode(stash.as_slice()),
            stock_state_b64: base64_encode(stock_state.as_slice()),
            stock_index_b64: base64_encode(index.as_slice()),
        },
    )
}

/// Reads the stock from the three base64 texts of a payload.
pub fn stock_from(stash_b64: &str, state_b64: &str, index_b64: &str) -> (r: Result<RgbStock, Error>)
    ensures
        match r {
            Ok(stock) => parts_of(stash_b64@, state_b64@, index_b64@) == Ok::<_, ErrorView>(
                stock_parts(stock),
            ),
            Err(e) => parts_of(stash_b64@, state_b64@, index_b64@) == Err::<
                (MemStash, MemState, MemIndex),
                _,
            >(e@),
        },
{
    let stash = match base64_decode(stash_b64) {
        Ok(bytes) => bytes,
        Err(e) => {
            return Err(Error::Component(InternalError::Base64Error(e)));
        },
    };
    let state = match base64_decode(state_b64) {
        Ok(bytes) => bytes,
        Err(e) => {
            return Err(Error::Component(InternalError::Base64Error(e)));
        },
    };
    let index = match base64_decode(index_b64) {
        Ok(bytes) => bytes,
        Err(e) => {
            return Err(Error::Component(InternalError::Base64Error(e)));
        },
    };
    let stash = match read_stash(stash) {
        Ok(stash) => stash,
        Err(e) => {
            return Err(Error::Component(InternalError::StockError(e)));
        },
    };
    let state = match read_state(state) {
        Ok(state) => state,
        Err(e) => {
            return Err(Error::Component(InternalError::StockError(e)));
        },
    };
    let index = match read_index(index) {
        Ok(index) => index,
        Err(e) => {
            return Err(Error::Component(InternalError::StockError(e)));
        },
    };
    Ok(RgbStock::new(stash, state, index))
}

/// The stock in the payload of a stock is read from the very bytes to which
/// the parts of that stock were written.
pub proof fn payload_holds_what_was_written<S>(stock: RgbStock, state: S)
    requires
        payload_of(stock, state) is Ok,
    ensures
        ({
            let payload = payload_of(stock, state)->Ok_0;
            let (stash, stock_state, index) = stock_parts(stock);
            &&& base64_decoded(payload.stock_stash_b64) == stash_written(stash)
            &&& base64_decoded(payload.stock_state_b64) == state_written(stock_state)
            &&& base64_decoded(payload.stock_index_b64) == index_written(index)
        }),
{
    let (stash, stock_state, index) = stock_parts(stock);
    base64_reads_back(stash_written(stash)->Ok_0);
    base64_reads_back(state_written(stock_state)->Ok_0);
    base64_reads_back(index_written(index)->Ok_0);
}

/// Whether the parts of a stock can be read from what they are written to, and
/// what is read is written in the same way again.
pub open spec fn reads_back(stock: RgbStock) -> bool {
    let (stash, state, index) = stock_parts(stock);
    &&& stash_written(stash) matches Ok(bytes) && stash_read(bytes) matches Ok(again)
        && stash_written(again) == stash_written(stash)
    &&& state_written(state) matches Ok(bytes) && state_read(bytes) matches Ok(again)
        && state_written(again) == state_written(state)
    &&& index_written(index) matches Ok(bytes) && index_read(bytes) matches Ok(again)
        && index_written(again) == index_written(index)
}

/// Restoring a stock from its payload gives a stock with the same payload, for
/// every stock whose parts read back.
pub proof fn restored_stock_has_the_same_payload<S>(stock: RgbStock, state: S, restored: RgbStock)
    requires
        reads_back(stock),
        payload_of(stock, state) matches Ok(payload) && payload.parts() == Ok::<_, ErrorView>(
            stock_parts(restored),
        ),
    ensures
        payload_of(restored, state) == payload_of(stock, state),
        reads_back(restored),
{
    payload_holds_what_was_written(stock, state);
}

/// A stock whose parts read back has a payload, and the stock can be restored
/// from it.
pub proof fn payload_restores<S>(stock: RgbStock, state: S)
    requires
        reads_back(stock),
    ensures
        payload_of(stock, state) matches Ok(payload) && payload.parts() is Ok && payload.state
            == state,
{
    payload_holds_what_was_written(stock, state);
}

} // verus!
