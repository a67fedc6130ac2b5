//! The stock in a payload.

use rgbstd::persistence::{MemIndex, MemStash, MemState};
use vstd::prelude::*;

use crate::base64_text::{base64_error, base64_of, base64_reads_back};
use crate::error::Error;
use crate::payload::{
    payload_from, restored_snapshot, stock_from, WalletBackupPayload, WalletSnapshot,
};
use crate::promises::errors::{is_base64_error, is_stock_error};
use crate::stock::{
    index_read, index_written, stash_read, stash_written, state_read, state_written, stock_parts,
    RgbStock,
};

verus! {

/// Whether `text` is the base64 text of what a part was written to.
pub open spec fn is_text_of(text: Seq<char>, written: Result<Seq<u8>, Seq<char>>) -> bool {
    written is Ok && text == base64_of(written->Ok_0)
}

/// Whether the texts of a payload are those of the parts of a stock, each in its
/// place.
pub open spec fn holds_stock<S>(payload: WalletBackupPayload<S>, stock: RgbStock) -> bool {
    &&& is_text_of(payload.stock_stash_b64@, stash_written(stock_parts(stock).0))
    &&& is_text_of(payload.stock_state_b64@, state_written(stock_parts(stock).1))
    &&& is_text_of(payload.stock_index_b64@, index_written(stock_parts(stock).2))
}

/// Whether some part of a stock cannot be written, and `e` tells why the first
/// such part cannot.
pub open spec fn is_write_failure(stock: RgbStock, e: Error) -> bool {
    let (stash, state, index) = stock_parts(stock);
    ||| stash_written(stash) is Err && is_stock_error(e, stash_written(stash)->Err_0)
    ||| stash_written(stash) is Ok && state_written(state) is Err && is_stock_error(
        e,
        state_written(state)->Err_0,
    )
    ||| stash_written(stash) is Ok && state_written(state) is Ok && index_written(index) is Err
        && is_stock_error(e, index_written(index)->Err_0)
}

/// A stock holds the parts that it is made of, and gives the bytes to which they
/// are written, or the text of the failure.
pub proof fn stock_holds_its_parts(
    stash: MemStash,
    state: MemState,
    index: MemIndex,
    stock: RgbStock,
    a: Result<Vec<u8>, String>,
    b: Result<Vec<u8>, String>,
    c: Result<Vec<u8>, String>,
)
    requires
        call_ensures(RgbStock::new, (stash, state, index), stock),
        call_ensures(RgbStock::stash_bytes, (&stock,), a),
        call_ensures(RgbStock::state_bytes, (&stock,), b),
        call_ensures(RgbStock::index_bytes, (&stock,), c),
    ensures
        a is Ok <==> stash_written(stash) is Ok,
        a is Ok ==> a->Ok_0@ == stash_written(stash)->Ok_0,
        a is Err ==> a->Err_0@ == stash_written(stash)->Err_0,
        b is Ok <==> state_written(state) is Ok,
        b is Ok ==> b->Ok_0@ == state_written(state)->Ok_0,
        b is Err ==> b->Err_0@ == state_written(state)->Err_0,
        c is Ok <==> index_written(index) is Ok,
        c is Ok ==> c->Ok_0@ == index_written(index)->Ok_0,
        c is Err ==> c->Err_0@ == index_written(index)->Err_0,
{
}

/// The payload of a stock carries the state as it is and each part of the stock
/// in its place, and there is one exactly if all parts can be written.
pub proof fn payload_carries_state_and_stock<S>(
    stock: RgbStock,
    state: S,
    r: Result<WalletBackupPayload<S>, Error>,
)
    requires
        call_ensures(payload_from::<S>, (&stock, state), r),
    ensures
        r is Ok ==> r->Ok_0.state == state && holds_stock(r->Ok_0, stock),
        r is Err ==> is_write_failure(stock, r->Err_0),
        call_requires(payload_from::<S>, (&stock, state)),
{
}

/// Reading a stock from the base64 texts of three byte sequences reads each part
/// from its own bytes, and fails for the first part that cannot be read.
pub proof fn stock_is_read_from_its_texts(
    stash_b64: &str,
    state_b64: &str,
    index_b64: &str,
    a: Seq<u8>,
    b: Seq<u8>,
    c: Seq<u8>,
    r: Result<RgbStock, Error>,
)
    requires
        call_ensures(stock_from, (stash_b64, state_b64, index_b64), r),
        stash_b64@ == base64_of(a),
        state_b64@ == base64_of(b),
        index_b64@ == base64_of(c),
    ensures
        r is Ok <==> stash_read(a) is Ok && state_read(b) is Ok && index_read(c) is Ok,
        r is Ok ==> stock_parts(r->Ok_0).0 == stash_read(a)->Ok_0 && stock_parts(r->Ok_0).1
            == state_read(b)->Ok_0 && stock_parts(r->Ok_0).2 == index_read(c)->Ok_0,
        stash_read(a) is Err ==> is_stock_error(r->Err_0, stash_read(a)->Err_0),
        stash_read(a) is Ok && state_read(b) is Err ==> is_stock_error(
            r->Err_0,
            state_read(b)->Err_0,
        ),
        stash_read(a) is Ok && state_read(b) is Ok && index_read(c) is Err ==> is_stock_error(
            r->Err_0,
            index_read(c)->Err_0,
        ),
        call_requires(stock_from, (stash_b64, state_b64, index_b64)),
{
    base64_reads_back(a);
    base64_reads_back(b);
    base64_reads_back(c);
}

/// A stock is read only from texts that are all base64, and the first that is
/// not is reported, whatever the others hold.
pub proof fn every_text_must_be_base64(
    stash_b64: &str,
    state_b64: &str,
    index_b64: &str,
    r: Result<RgbStock, Error>,
)
    requires
        call_ensures(stock_from, (stash_b64, state_b64, index_b64), r),
    ensures
        (forall|bytes: Seq<u8>| #[trigger] base64_of(bytes) != stash_b64@) ==> r is Err
            && is_base64_error(r->Err_0, base64_error(stash_b64@)),
        (exists|bytes: Seq<u8>| #[trigger] base64_of(bytes) == stash_b64@) && (forall|
            bytes: Seq<u8>,
        | #[trigger] base64_of(bytes) != state_b64@) ==> r is Err && is_base64_error(
            r->Err_0,
            base64_error(state_b64@),
        ),
        (exists|bytes: Seq<u8>| #[trigger] base64_of(bytes) == stash_b64@) && (exists|
            bytes: Seq<u8>,
        | #[trigger] base64_of(bytes) == state_b64@) && (forall|bytes: Seq<u8>| #[trigger]
            base64_of(bytes) != index_b64@) ==> r is Err && is_base64_error(
            r->Err_0,
            base64_error(index_b64@),
        ),
{
}

/// Reading the stock back from the payload of a stock gives a stock whose parts
/// were read from the very bytes to which the parts of the first were written.
pub proof fn stock_reads_back_from_its_payload<S>(
    stock: RgbStock,
    state: S,
    payload: WalletBackupPayload<S>,
    stash_b64: &str,
    state_b64: &str,
    index_b64: &str,
    r: Result<RgbStock, Error>,
)
    requires
        call_ensures(payload_from::<S>, (&stock, state), Ok(payload)),
        stash_b64@ == payload.stock_stash_b64@,
        state_b64@ == payload.stock_state_b64@,
        index_b64@ == payload.stock_index_b64@,
        call_ensures(stock_from, (stash_b64, state_b64, index_b64), r),
        r is Ok,
    ensures
        stash_read(stash_written(stock_parts(stock).0)->Ok_0) == Ok::<_, Seq<char>>(
            stock_parts(r->Ok_0).0,
        ),
        state_read(state_written(stock_parts(stock).1)->Ok_0) == Ok::<_, Seq<char>>(
            stock_parts(r->Ok_0).1,
        ),
        index_read(index_written(stock_parts(stock).2)->Ok_0) == Ok::<_, Seq<char>>(
            stock_parts(r->Ok_0).2,
        ),
{
    base64_reads_back(stash_written(stock_parts(stock).0)->Ok_0);
    base64_reads_back(state_written(stock_parts(stock).1)->Ok_0);
    base64_reads_back(index_written(stock_parts(stock).2)->Ok_0);
}

/// Whether a snapshot is the first one, carries `state` and holds no stock.
pub open spec fn is_first_snapshot<S>(snapshot: WalletSnapshot<S>, state: S) -> bool {
    &&& snapshot.sequence == 0
    &&& snapshot.state == state
    &&& snapshot.stock_stash_b64 is None
    &&& snapshot.stock_state_b64 is None
    &&& snapshot.stock_index_b64 is None
}

/// The snapshot of a state is the first one, carries the state and holds no
/// stock.
pub proof fn restored_snapshot_carries_the_state<S>(state: S, snapshot: WalletSnapshot<S>)
    requires
        call_ensures(restored_snapshot::<S>, (state,), snapshot),
    ensures
        is_first_snapshot(snapshot, state),
{
}

} // verus!
