//! The RGB stock of a wallet: its stash, its state and its index, each of which
//! is backed up in strict encoding.

use amplify::confinement::Confined;
use rgbstd::persistence::{MemIndex, MemStash, MemState, Stock};
use strict_encoding::{StrictDeserialize, StrictSerialize};
use vstd::prelude::*;

verus! {

/// The most bytes that a part of the stock may take in strict encoding.
pub const MAX_STRICT_LEN: usize = 0xffff_ffff;

/// The stash of `rgbstd`, held in memory.
#[verifier::external_type_specification]
#[verifier::external_body]
pub struct ExMemStash(MemStash);

/// The state of `rgbstd`, held in memory.
#[verifier::external_type_specification]
#[verifier::external_body]
pub struct ExMemState(MemState);

/// The index of `rgbstd`, held in memory.
#[verifier::external_type_specification]
#[verifier::external_body]
pub struct ExMemIndex(MemIndex);

/// The stock of `rgbstd`, made of a stash, a state and an index.
#[verifier::external_body]
pub struct RgbStock {
    stock: Stock,
}

/// The stash, the state and the index that a stock holds.
pub uninterp spec fn stock_parts(stock: RgbStock) -> (MemStash, MemState, MemIndex);

/// A result of writing as contracts speak of it.
pub open spec fn written(r: Result<Vec<u8>, String>) -> Result<Seq<u8>, Seq<char>> {
    match r {
        Ok(bytes) => Ok(bytes@),
        Err(e) => Err(e@),
    }
}

/// A result of reading as contracts speak of it.
pub open spec fn read<P>(r: Result<P, String>) -> Result<P, Seq<char>> {
    match r {
        Ok(part) => Ok(part),
        Err(e) => Err(e@),
    }
}

/// What writing a stash in strict encoding gives: its bytes, or the text of the
/// error.
pub uninterp spec fn stash_written(stash: MemStash) -> Result<Seq<u8>, Seq<char>>;

/// What reading a stash from strict encoding gives: the stash, or the text of the
/// error.
pub uninterp spec fn stash_read(bytes: Seq<u8>) -> Result<MemStash, Seq<char>>;

/// What writing a state in strict encoding gives: its bytes, or the text of the
/// error.
pub uninterp spec fn state_written(state: MemState) -> Result<Seq<u8>, Seq<char>>;

/// What reading a state from strict encoding gives: the state, or the text of the
/// error.
pub uninterp spec fn state_read(bytes: Seq<u8>) -> Result<MemState, Seq<char>>;

/// What writing an index in strict encoding gives: its bytes, or the text of the
/// error.
pub uninterp spec fn index_written(index: MemIndex) -> Result<Seq<u8>, Seq<char>>;

/// What reading an index from strict encoding gives: the index, or the text of the
/// error.
pub uninterp spec fn index_read(bytes: Seq<u8>) -> Result<MemIndex, Seq<char>>;

/// Calls `Stock::as_stash_provider`, trusted to return the stash that the stock
/// holds.
#[verifier::external_body]
fn stash_of(stock: &RgbStock) -> (stash: &MemStash)
    ensures
        *stash == stock_parts(*stock).0,
{
    stock.stock.as_stash_provider()
}

/// Calls `StrictSerialize::to_strict_serialized` of `MemStash`, trusted to return
/// bytes or an error as the stash alone decides.
#[verifier::external_body]
fn write_stash(stash: &MemStash) -> (r: Result<Vec<u8>, String>)
    ensures
        written(r) == stash_written(*stash),
{
    stash
        .to_strict_serialized::<MAX_STRICT_LEN>()
        .map(|bytes| bytes.release())
        .map_err(|e| e.to_string())
}

/// Calls `StrictDeserialize::from_strict_serialized` of `MemStash`, trusted to
/// return a stash or an error as the bytes alone decide. That a stash reads back from
/// what it was written to is not stated: it does not for every stash that can be
/// built.
#[verifier::external_body]
pub(crate) fn read_stash(bytes: Vec<u8>) -> (r: Result<MemStash, String>)
    ensures
        read(r) == stash_read(bytes@),
{
    let bytes = Confined::<Vec<u8>, 0, MAX_STRICT_LEN>::try_from(bytes)
        .map_err(|e| e.to_string())?;
    MemStash::from_strict_serialized::<MAX_STRICT_LEN>(bytes).map_err(|e| e.to_string())
}

/// Calls `Stock::as_state_provider`, trusted to return the state that the stock
/// holds.
#[verifier::external_body]
fn state_of(stock: &RgbStock) -> (state: &MemState)
    ensures
        *state == stock_parts(*stock).1,
{
    stock.stock.as_state_provider()
}

/// Calls `StrictSerialize::to_strict_serialized` of `MemState`, trusted to return
/// bytes or an error as the state alone decides.
#[verifier::external_body]
fn write_state(state: &MemState) -> (r: Result<Vec<u8>, String>)
    ensures
        written(r) == state_written(*state),
{
    state
        .to_strict_serialized::<MAX_STRICT_LEN>()
        .map(|bytes| bytes.release())
        .map_err(|e| e.to_string())
}

/// Calls `StrictDeserialize::from_strict_serialized` of `MemState`, trusted to
/// return a state or an error as the bytes alone decide. That a state reads back from
/// what it was written to is not stated: it does not for every state that can be
/// built.
#[verifier::external_body]
pub(crate) fn read_state(bytes: Vec<u8>) -> (r: Result<MemState, String>)
    ensures
        read(r) == state_read(bytes@),
{
    let bytes = Confined::<Vec<u8>, 0, MAX_STRICT_LEN>::try_from(bytes)
        .map_err(|e| e.to_string())?;
    MemState::from_strict_serialized::<MAX_STRICT_LEN>(bytes).map_err(|e| e.to_string())
}

/// Calls `Stock::as_index_provider`, trusted to return the index that the stock
/// holds.
#[verifier::external_body]
fn index_of(stock: &RgbStock) -> (index: &MemIndex)
    ensures
        *index == stock_parts(*stock).2,
{
    stock.stock.as_index_provider()
}

/// Calls `StrictSerialize::to_strict_serialized` of `MemIndex`, trusted to return
/// bytes or an error as the index alone decides.
#[verifier::external_body]
fn write_index(index: &MemIndex) -> (r: Result<Vec<u8>, String>)
    ensures
        written(r) == index_written(*index),
{
    index
        .to_strict_serialized::<MAX_STRICT_LEN>()
        .map(|bytes| bytes.release())
        .map_err(|e| e.to_string())
}

/// Calls `StrictDeserialize::from_strict_serialized` of `MemIndex`, trusted to
/// return an index or an error as the bytes alone decide. That an index reads back from
/// what it was written to is not stated: it does not for every index that can be
/// built.
#[verifier::external_body]
pub(crate) fn read_index(bytes: Vec<u8>) -> (r: Result<MemIndex, String>)
    ensures
        read(r) == index_read(bytes@),
{
    let bytes = Confined::<Vec<u8>, 0, MAX_STRICT_LEN>::try_from(bytes)
        .map_err(|e| e.to_string())?;
    MemIndex::from_strict_serialized::<MAX_STRICT_LEN>(bytes).map_err(|e| e.to_string())
}

/// Calls `Stock::with`, trusted to make a stock that holds the three parts.
#[verifier::external_body]
fn assemble(stash: MemStash, state: MemState, index: MemIndex) -> (stock: RgbStock)
    ensures
        stock_parts(stock) == (stash, state, index),
{
    RgbStock { stock: Stock::with(stash, state, index) }
}

impl RgbStock {
    /// Makes a stock of its parts.
    pub fn new(stash: MemStash, state: MemState, index: MemIndex) -> (stock: RgbStock)
        ensures
            stock_parts(stock) == (stash, state, index),
    {
        assemble(stash, state, index)
    }

    /// The stash in strict encoding.
    pub fn stash_bytes(&self) -> (r: Result<Vec<u8>, String>)
        ensures
            written(r) == stash_written(stock_parts(*self).0),
    {
        write_stash(stash_of(self))
    }

    /// The state in strict encoding.
    pub fn state_bytes(&self) -> (r: Result<Vec<u8>, String>)
        ensures
            written(r) == state_written(stock_parts(*self).1),
    {
        write_state(state_of(self))
    }

    /// The index in strict encoding.
    pub fn index_bytes(&self) -> (r: Result<Vec<u8>, String>)
        ensures
            written(r) == index_written(stock_parts(*self).2),
    {
        write_index(index_of(self))
    }
}

} // verus!
