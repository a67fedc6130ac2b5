//! The payload of a backup and the stock in it.

use rgbstd::persistence::{MemIndex, MemStash, MemState};
use wallet_backup::error::{Error, InternalError};
use wallet_backup::payload::{payload_from, restored_snapshot, stock_from};
use wallet_backup::stock::RgbStock;

fn empty_stock() -> RgbStock {
    RgbStock::new(MemStash::in_memory(), MemState::in_memory(), MemIndex::in_memory())
}

#[test]
fn an_empty_stock_has_the_known_bytes() {
    let stock = empty_stock();
    assert_eq!(stock.stash_bytes().unwrap(), [0u8; 20]);
    assert_eq!(stock.state_bytes().unwrap(), [0u8; 10]);
    assert_eq!(stock.index_bytes().unwrap(), [0u8; 22]);
}

#[test]
fn payload_holds_the_stock_in_base64() {
    let payload = payload_from(&empty_stock(), 7u8).unwrap();
    assert_eq!(payload.state, 7);
    assert_eq!(payload.stock_stash_b64, "AAAAAAAAAAAAAAAAAAAAAAAAAAA=");
    assert_eq!(payload.stock_state_b64, "AAAAAAAAAAAAAA==");
    assert_eq!(payload.stock_index_b64, "AAAAAAAAAAAAAAAAAAAAAAAAAAAAAA==");
}

#[test]
fn a_restored_stock_has_the_same_payload() {
    let payload = payload_from(&empty_stock(), ()).unwrap();
    let stock = stock_from(
        &payload.stock_stash_b64,
        &payload.stock_state_b64,
        &payload.stock_index_b64,
    )
    .unwrap();
    let again = payload_from(&stock, ()).unwrap();
    assert_eq!(again.stock_stash_b64, payload.stock_stash_b64);
    assert_eq!(again.stock_state_b64, payload.stock_state_b64);
    assert_eq!(again.stock_index_b64, payload.stock_index_b64);
}

fn base64_failure(stash: &str, state: &str, index: &str) -> String {
    match stock_from(stash, state, index) {
        Err(Error::Component(InternalError::Base64Error(text))) => text,
        _ => panic!("decoded"),
    }
}

fn stock_failure(stash: &str, state: &str, index: &str) -> String {
    match stock_from(stash, state, index) {
        Err(Error::Component(InternalError::StockError(text))) => text,
        _ => panic!("read"),
    }
}

#[test]
fn texts_that_are_not_base64_are_refused() {
    assert_eq!(base64_failure("?", "", ""), "Invalid symbol 63, offset 0.");
    assert_eq!(base64_failure("AA?=", "", ""), "Invalid symbol 63, offset 2.");
    assert_eq!(base64_failure("AAAA", "AAA", ""), "Invalid padding");
    assert_eq!(base64_failure("AAAA", "", "AB=="), "Invalid last symbol 66, offset 1.");
}

#[test]
fn base64_is_decoded_before_anything_is_read() {
    // The stash cannot be read, but the index is not even base64.
    assert_eq!(base64_failure("", "", "?"), "Invalid symbol 63, offset 0.");
}

#[test]
fn bytes_that_are_no_stock_are_refused() {
    let stash = "AAAAAAAAAAAAAAAAAAAAAAAAAAA=";
    let state = "AAAAAAAAAAAAAA==";
    let index = "AAAAAAAAAAAAAAAAAAAAAAAAAAAAAA==";
    assert!(stock_from(stash, state, index).is_ok());
    assert!(!stock_failure("", state, index).is_empty());
    assert!(!stock_failure(stash, "", index).is_empty());
    assert!(!stock_failure(stash, state, "").is_empty());
    // The index of an empty stock is longer than its state.
    assert_eq!(
        stock_failure(stash, index, index),
        "data are not entirely consumed during strict deserialize operation"
    );
}

#[test]
fn the_restored_snapshot_is_the_first_and_has_no_stock() {
    let snapshot = restored_snapshot("state");
    assert_eq!(snapshot.sequence, 0);
    assert_eq!(snapshot.state, "state");
    assert!(snapshot.stock_stash_b64.is_none());
    assert!(snapshot.stock_state_b64.is_none());
    assert!(snapshot.stock_index_b64.is_none());
}
