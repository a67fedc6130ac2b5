//! The need for a backup, as the stored times tell it.

use wallet_backup::error::Error;
use wallet_backup::info::{is_backup_required, BackupInfo};
use wallet_backup::wallet::Wallet;

fn times(backup: &str, operation: &str) -> Option<BackupInfo> {
    Some(BackupInfo {
        last_backup_timestamp: backup.to_string(),
        last_operation_timestamp: operation.to_string(),
    })
}

fn wallet() -> Wallet<()> {
    Wallet {
        rgb_stock: None,
        vss_client: None,
        last_vss_backup_error: None,
        master_fingerprint: "deadbeef".to_string(),
    }
}

#[test]
fn a_wallet_never_backed_up_requires_a_backup() {
    assert!(is_backup_required(&None));
    assert!(is_backup_required(&times("", "")));
    assert!(is_backup_required(&times("", "1700000000")));
}

#[test]
fn only_a_later_operation_requires_a_backup() {
    assert!(is_backup_required(&times("1700000000", "1700000001")));
    assert!(!is_backup_required(&times("1700000000", "1700000000")));
    assert!(!is_backup_required(&times("1700000001", "1700000000")));
    assert!(!is_backup_required(&times("1700000000", "")));
}

#[test]
fn times_are_compared_as_texts() {
    for (a, b) in [
        ("1", "10"),
        ("10", "9"),
        ("9", "10"),
        ("a", "a"),
        ("z", "é"),
        ("é", "z"),
        ("\u{ffff}", "\u{10000}"),
        ("ab", "a"),
        ("x", "xyz"),
    ] {
        assert_eq!(is_backup_required(&times(a, b)), b > a, "{} {}", a, b);
    }
}

#[test]
fn backup_info_passes_on_the_answer_of_the_database() {
    assert!(wallet().backup_info(Ok(None)).unwrap());
    assert!(!wallet().backup_info(Ok(times("2", "1"))).unwrap());
    assert!(wallet().backup_info(Ok(times("1", "2"))).unwrap());
    let r = wallet().backup_info(Err(Error::Wallet { details: "locked".to_string() }));
    match r {
        Err(Error::Wallet { details }) => assert_eq!(details, "locked"),
        _ => panic!("no error"),
    }
}
