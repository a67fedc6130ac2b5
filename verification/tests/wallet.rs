//! Backup and restore of a wallet, locally and by way of a server.

use std::cell::RefCell;

use rgbstd::persistence::{MemIndex, MemStash, MemState};
use serde_json::Value;
use wallet_backup::cipher::{decrypt_payload_at_cost, encrypt_payload_at_cost, BackupPubData};
use wallet_backup::envelope::{decode_backup, frame_backup};
use wallet_backup::error::{Error, InternalError};
use wallet_backup::info::BackupInfo;
use wallet_backup::payload::{WalletBackupPayload, WalletSnapshot};
use wallet_backup::stock::RgbStock;
use wallet_backup::wallet::{finish_backup, initial_backup_answered, UploadFailure, Wallet};

fn wallet() -> Wallet<&'static str> {
    Wallet {
        rgb_stock: Some(RgbStock::new(
            MemStash::in_memory(),
            MemState::in_memory(),
            MemIndex::in_memory(),
        )),
        vss_client: None,
        last_vss_backup_error: None,
        master_fingerprint: "deadbeef".to_string(),
    }
}

fn write_payload(payload: WalletBackupPayload<String>) -> Result<Vec<u8>, String> {
    let mut map = serde_json::Map::new();
    map.insert("state".to_string(), Value::from(payload.state));
    map.insert("stash".to_string(), Value::from(payload.stock_stash_b64));
    map.insert("stock_state".to_string(), Value::from(payload.stock_state_b64));
    map.insert("index".to_string(), Value::from(payload.stock_index_b64));
    serde_json::to_vec(&Value::Object(map)).map_err(|e| e.to_string())
}

fn read_payload(json: &[u8]) -> Option<WalletBackupPayload<String>> {
    let value: Value = serde_json::from_slice(json).ok()?;
    Some(WalletBackupPayload {
        state: value.get("state")?.as_str()?.to_string(),
        stock_stash_b64: value.get("stash")?.as_str()?.to_string(),
        stock_state_b64: value.get("stock_state")?.as_str()?.to_string(),
        stock_index_b64: value.get("index")?.as_str()?.to_string(),
    })
}

fn write_pub_data(pub_data: &BackupPubData) -> Result<Vec<u8>, String> {
    let mut map = serde_json::Map::new();
    map.insert("salt".to_string(), Value::from(pub_data.salt.clone()));
    map.insert("nonce".to_string(), Value::from(pub_data.nonce.clone()));
    map.insert("version".to_string(), Value::from(pub_data.version));
    serde_json::to_vec(&Value::Object(map)).map_err(|e| e.to_string())
}

fn read_pub_data(json: &[u8]) -> Option<BackupPubData> {
    let value: Value = serde_json::from_slice(json).ok()?;
    Some(BackupPubData {
        salt: value.get("salt")?.as_str()?.to_string(),
        nonce: value.get("nonce")?.as_str()?.to_string(),
        version: u8::try_from(value.get("version")?.as_u64()?).ok()?,
    })
}

fn times(backup: &str, operation: &str) -> Result<Option<BackupInfo>, Error> {
    Ok(Some(BackupInfo {
        last_backup_timestamp: backup.to_string(),
        last_operation_timestamp: operation.to_string(),
    }))
}

fn failure(text: &str) -> Error {
    Error::Wallet { details: text.to_string() }
}

fn details<T>(r: Result<T, Error>) -> String {
    match r {
        Err(Error::Internal { details }) => details,
        Err(Error::Wallet { details }) => details,
        _ => panic!("no error with details"),
    }
}

const PAYLOAD: &str = "{\"index\":\"AAAAAAAAAAAAAAAAAAAAAAAAAAAAAA==\",\
\"stash\":\"AAAAAAAAAAAAAAAAAAAAAAAAAAA=\",\"state\":\"the state\",\
\"stock_state\":\"AAAAAAAAAAAAAA==\"}";

/// The cost of the key derivation in these tests.
const LOG_N: u8 = 10;

fn state() -> String {
    "the state".to_string()
}

#[test]
fn payload_is_serialized() {
    let json = wallet().serialize_backup_payload(state(), write_payload).unwrap();
    assert_eq!(json, PAYLOAD.as_bytes());
}

#[test]
fn payload_needs_the_stock() {
    let mut wallet = wallet();
    wallet.rgb_stock = None;
    let r = wallet.serialize_backup_payload(state(), write_payload);
    assert_eq!(details(r), "RGB stock is currently in use (runtime active)");
    let r = wallet.backup("pw", state(), write_payload, write_pub_data, |_| Ok(()));
    assert_eq!(details(r), "RGB stock is currently in use (runtime active)");
}

#[test]
fn unwritable_payloads_are_reported() {
    let r = wallet().serialize_backup_payload(state(), |_| Err("no JSON".to_string()));
    match r {
        Err(Error::Component(InternalError::JsonError(text))) => assert_eq!(text, "no JSON"),
        _ => panic!("serialized"),
    }
}

#[test]
fn backup_and_restore_round_trip() {
    let updates = RefCell::new(Vec::new());
    let json = wallet().serialize_backup_payload(state(), write_payload).unwrap();
    let sealed = encrypt_payload_at_cost(&json, "pw", LOG_N);
    let backup = finish_backup(sealed, write_pub_data, |backed_up| {
        updates.borrow_mut().push(backed_up);
        Ok(())
    })
    .unwrap();
    assert_eq!(*updates.borrow(), [true]);

    let mut other = wallet();
    other.rgb_stock = None;
    let (pub_data, ciphertext) = decode_backup(&backup, read_pub_data).unwrap();
    assert_eq!(ciphertext.len(), PAYLOAD.len() + 16);
    let snapshots: RefCell<Vec<WalletSnapshot<String>>> = RefCell::new(Vec::new());
    let json = decrypt_payload_at_cost(ciphertext, "pw", &pub_data, LOG_N);
    other
        .restore_json(json, read_payload, |snapshot| {
            snapshots.borrow_mut().push(snapshot);
            Ok(())
        })
        .unwrap();
    assert_eq!(snapshots.borrow().len(), 1);
    assert_eq!(snapshots.borrow()[0].sequence, 0);
    assert_eq!(snapshots.borrow()[0].state, "the state");
    assert!(snapshots.borrow()[0].stock_stash_b64.is_none());
    let json = other.serialize_backup_payload(state(), write_payload).unwrap();
    assert_eq!(json, PAYLOAD.as_bytes());
}

#[test]
fn restore_refuses_a_wrong_password_and_keeps_the_wallet() {
    let (ciphertext, pub_data) =
        encrypt_payload_at_cost(PAYLOAD.as_bytes(), "pw", LOG_N).unwrap();
    let mut other = wallet();
    other.rgb_stock = None;
    let json = decrypt_payload_at_cost(&ciphertext, "other", &pub_data, LOG_N);
    let r = other.restore_json(json, read_payload, |_| panic!("restored"));
    assert!(matches!(r, Err(Error::WrongPassword)));
    assert!(other.rgb_stock.is_none());
}

#[test]
fn restore_refuses_what_is_no_backup() {
    let mut wallet = wallet();
    let r = wallet.restore_backup(b"abc", "pw", read_pub_data, read_payload, |_| Ok(()));
    assert!(matches!(r, Err(Error::InvalidBackup)));
    let framed = frame_backup(b"ct", b"{}");
    let r = wallet.restore_backup(&framed, "pw", read_pub_data, read_payload, |_| Ok(()));
    assert!(matches!(r, Err(Error::InvalidBackup)));
    let framed = frame_backup(b"ct", b"{\"salt\":\"\",\"nonce\":\"\",\"version\":2}");
    let r = wallet.restore_backup(&framed, "pw", read_pub_data, read_payload, |_| Ok(()));
    assert!(matches!(r, Err(Error::UnsupportedBackupVersion { .. })));
    let framed = frame_backup(b"ct", b"{\"salt\":\"\",\"nonce\":\"\",\"version\":1}");
    let r = wallet.restore_backup(&framed, "pw", read_pub_data, read_payload, |_| Ok(()));
    assert!(matches!(r, Err(Error::Component(InternalError::PasswordHashError(_)))));
}

#[test]
fn backup_fails_where_the_payload_cannot_be_written() {
    let r = wallet().backup(
        "pw",
        state(),
        |_| Err("no JSON".to_string()),
        write_pub_data,
        |_| panic!("updated"),
    );
    assert!(matches!(r, Err(Error::Component(InternalError::JsonError(_)))));
}

#[test]
fn a_backup_is_recorded_only_once_it_is_made() {
    let sealed = || {
        let pub_data = BackupPubData {
            salt: "salt".to_string(),
            nonce: "nonce".to_string(),
            version: 1,
        };
        Ok((b"ct".to_vec(), pub_data))
    };
    let backup = finish_backup(sealed(), |_| Ok(b"{}".to_vec()), |_| Ok(())).unwrap();
    assert_eq!(backup, b"\x02\x00\x00\x00{}ct");

    let r = finish_backup(Err(failure("no cipher")), write_pub_data, |_| panic!("updated"));
    assert_eq!(details(r), "no cipher");
    let r = finish_backup(sealed(), |_| Err("no JSON".to_string()), |_| panic!("updated"));
    assert!(matches!(r, Err(Error::Component(InternalError::JsonError(_)))));
    let r = finish_backup(sealed(), write_pub_data, |_| Err(failure("disk full")));
    assert_eq!(details(r), "disk full");
}

#[test]
fn the_snapshot_is_restored_before_the_stock_is_read() {
    let mut wallet = wallet();
    wallet.vss_client = Some("client");
    wallet.rgb_stock = None;
    let broken = b"{\"index\":\"?\",\"stash\":\"\",\"state\":\"the state\",\"stock_state\":\"\"}";
    let called = RefCell::new(false);
    let r = wallet.vss_restore_backup(Ok(broken.to_vec()), read_payload, |_| {
        *called.borrow_mut() = true;
        Ok(())
    });
    assert!(matches!(r, Err(Error::Component(InternalError::Base64Error(_)))));
    assert!(*called.borrow());
    assert!(wallet.rgb_stock.is_none());

    let r = wallet.vss_restore_backup(Ok(broken.to_vec()), read_payload, |_| {
        Err(failure("no snapshot"))
    });
    assert_eq!(details(r), "no snapshot");
    assert!(wallet.rgb_stock.is_none());
}

#[test]
fn configuring_and_disabling_the_server() {
    let mut wallet = wallet();
    assert_eq!(details(wallet.configured_client().map(|_| ())), "VSS backup not configured");
    wallet.configure_vss_backup("first");
    assert_eq!(*wallet.configured_client().unwrap(), "first");
    wallet.configure_vss_backup("second");
    assert_eq!(*wallet.configured_client().unwrap(), "second");
    wallet.disable_vss_backup();
    assert!(wallet.vss_client.is_none());
    assert!(wallet.rgb_stock.is_some());
    assert_eq!(wallet.master_fingerprint, "deadbeef");
}

#[test]
fn without_a_server_every_server_operation_is_refused() {
    let mut wallet = wallet();
    let refused = "VSS backup not configured";
    assert_eq!(details(wallet.vss_backup(state(), write_payload, |_| Ok(()))), refused);
    assert_eq!(details(wallet.ensure_initial_backup(Ok(None), Ok(None))), refused);
    assert_eq!(details(wallet.vss_backup_info(Ok(Some(1)), Ok(None))), refused);
    let r = wallet.vss_restore_backup(Ok(Vec::new()), read_payload, |_| Ok(()));
    assert_eq!(details(r), refused);
}

#[test]
fn an_upload_holds_payload_and_fingerprint() {
    let mut wallet = wallet();
    wallet.configure_vss_backup("client");
    let updates = RefCell::new(Vec::new());
    let upload = wallet
        .vss_backup(state(), write_payload, |backed_up| {
            updates.borrow_mut().push(backed_up);
            Ok(())
        })
        .unwrap();
    assert_eq!(upload.payload_json, PAYLOAD.as_bytes());
    assert_eq!(upload.fingerprint, "deadbeef");
    assert_eq!(*updates.borrow(), [true]);

    let r = wallet.vss_backup(state(), write_payload, |_| Err(failure("disk full")));
    assert_eq!(details(r), "disk full");
    wallet.rgb_stock = None;
    let r = wallet.vss_backup(state(), write_payload, |_| Ok(()));
    assert_eq!(details(r), "RGB stock is currently in use (runtime active)");
}

#[test]
fn a_failed_upload_is_kept_until_one_succeeds() {
    let mut wallet = wallet();
    wallet.configure_vss_backup("client");
    let updates = RefCell::new(Vec::new());
    let answer = Err(UploadFailure { error: failure("offline"), text: "no route".to_string() });
    let r = wallet.vss_backup_answered(answer, |backed_up| {
        updates.borrow_mut().push(backed_up);
        Err(failure("ignored"))
    });
    assert_eq!(details(r), "offline");
    assert_eq!(*updates.borrow(), [false]);
    let info = wallet.vss_backup_info(Ok(None), times("2", "1")).unwrap();
    assert_eq!(info.last_backup_error.as_deref(), Some("no route"));

    let r = wallet.vss_backup_answered(Ok(7), |_| panic!("updated"));
    assert_eq!(r.unwrap(), 7);
    let info = wallet.vss_backup_info(Ok(Some(7)), times("2", "1")).unwrap();
    assert!(info.last_backup_error.is_none());
}

#[test]
fn server_info_tells_version_and_need() {
    let mut wallet = wallet();
    wallet.configure_vss_backup("client");
    let info = wallet.vss_backup_info(Ok(None), Ok(None)).unwrap();
    assert!(!info.backup_exists);
    assert_eq!(info.server_version, None);
    assert!(info.backup_required);
    let info = wallet.vss_backup_info(Ok(Some(-3)), times("2", "1")).unwrap();
    assert!(info.backup_exists);
    assert_eq!(info.server_version, Some(-3));
    assert!(!info.backup_required);

    let r = wallet.vss_backup_info(Err(failure("server")), Err(failure("database")));
    assert_eq!(details(r), "server");
    let r = wallet.vss_backup_info(Ok(None), Err(failure("database")));
    assert_eq!(details(r), "database");
}

#[test]
fn the_initial_backup_is_made_where_one_is_required() {
    let mut wallet = wallet();
    wallet.configure_vss_backup("client");
    for version in [Some(1), None] {
        assert!(wallet.ensure_initial_backup(Ok(None), Ok(version)).unwrap());
        assert!(wallet.ensure_initial_backup(times("1", "2"), Ok(version)).unwrap());
    }
    assert!(!wallet.ensure_initial_backup(times("2", "2"), Ok(Some(1))).unwrap());
    // Where a backup is required, the server need not be asked.
    assert!(wallet.ensure_initial_backup(times("1", "2"), Err(failure("server"))).unwrap());
    let r = wallet.ensure_initial_backup(times("2", "2"), Err(failure("server")));
    assert_eq!(details(r), "server");
    let r = wallet.ensure_initial_backup(Err(failure("database")), Err(failure("server")));
    assert_eq!(details(r), "database");
}

#[test]
fn enabling_backups_never_leaves_an_empty_store() {
    // The wallet was backed up locally and not modified since.
    let mut wallet = wallet();
    wallet.configure_vss_backup("client");
    assert!(!wallet.backup_info(times("2", "1")).unwrap());
    let decision = wallet.ensure_initial_backup(times("2", "1"), Ok(None));
    assert!(matches!(decision, Ok(true)));
    let upload = wallet.vss_backup(state(), write_payload, |_| Ok(())).unwrap();
    assert_eq!(upload.payload_json, PAYLOAD.as_bytes());
    let uploaded = wallet.vss_backup_answered(Ok(1), |_| panic!("withdrawn"));
    assert_eq!(initial_backup_answered(decision, Some(uploaded)).unwrap(), Some(1));
}

#[test]
fn a_download_is_restored() {
    let mut wallet = wallet();
    wallet.configure_vss_backup("client");
    wallet.rgb_stock = None;
    let r = wallet.vss_restore_backup(Err(failure("offline")), read_payload, |_| Ok(()));
    assert_eq!(details(r), "offline");
    let r = wallet.vss_restore_backup(Ok(b"[]".to_vec()), read_payload, |_| Ok(()));
    assert!(matches!(r, Err(Error::InvalidBackup)));
    assert!(wallet.rgb_stock.is_none());
    let download = PAYLOAD.as_bytes().to_vec();
    wallet.vss_restore_backup(Ok(download), read_payload, |_| Ok(())).unwrap();
    let json = wallet.serialize_backup_payload(state(), write_payload).unwrap();
    assert_eq!(json, PAYLOAD.as_bytes());
    assert_eq!(wallet.vss_client, Some("client"));
}

#[test]
fn the_version_of_a_needed_initial_backup_is_handed_on() {
    assert_eq!(initial_backup_answered(Ok(true), Some(Ok(7))).unwrap(), Some(7));
    assert_eq!(initial_backup_answered(Ok(false), None).unwrap(), None);
    let r = initial_backup_answered(Ok(true), Some(Err(failure("offline"))));
    assert_eq!(details(r), "offline");
    let r = initial_backup_answered(Err(failure("database")), None);
    assert_eq!(details(r), "database");
}

#[test]
fn local_and_server_restores_come_to_the_same() {
    for json in [PAYLOAD.as_bytes(), b"{}", b"[]"] {
        let (ciphertext, pub_data) = encrypt_payload_at_cost(json, "pw", LOG_N).unwrap();
        let mut local = wallet();
        local.rgb_stock = None;
        let decrypted = decrypt_payload_at_cost(&ciphertext, "pw", &pub_data, LOG_N);
        let a = local.restore_json(decrypted, read_payload, |_| Ok(()));
        let mut server = wallet();
        server.rgb_stock = None;
        server.configure_vss_backup("client");
        let b = server.vss_restore_backup(Ok(json.to_vec()), read_payload, |_| Ok(()));
        assert_eq!(format!("{:?}", a), format!("{:?}", b));
        assert_eq!(local.rgb_stock.is_some(), server.rgb_stock.is_some());
    }
}

#[test]
fn a_recorded_backup_leaves_nothing_to_back_up() {
    let mut wallet = wallet();
    wallet.configure_vss_backup("client");
    for stored in [("1700000000", "1700000000"), ("1700000001", "1700000000")] {
        assert!(!wallet.backup_info(times(stored.0, stored.1)).unwrap());
        assert!(!wallet.ensure_initial_backup(times(stored.0, stored.1), Ok(Some(1))).unwrap());
        let info = wallet.vss_backup_info(Ok(None), times(stored.0, stored.1)).unwrap();
        assert!(!info.backup_required);
    }
}

#[test]
fn nothing_is_recorded_or_restored_on_refusal() {
    let mut wallet = wallet();
    wallet.rgb_stock = None;
    let r = wallet.backup("pw", state(), write_payload, write_pub_data, |_| panic!("recorded"));
    assert!(r.is_err());
    let r = wallet.vss_backup(state(), write_payload, |_| panic!("recorded"));
    assert!(r.is_err());
    let download = || Ok(PAYLOAD.as_bytes().to_vec());
    let r = wallet.vss_restore_backup(download(), read_payload, |_| panic!("restored"));
    assert!(r.is_err());

    wallet.configure_vss_backup("client");
    let r = wallet.vss_backup(state(), write_payload, |_| panic!("recorded"));
    assert!(r.is_err());
    let lost = Err(failure("offline"));
    let r = wallet.vss_restore_backup(lost, read_payload, |_| panic!("restored"));
    assert!(r.is_err());
    let r = wallet.vss_restore_backup(Ok(b"{}".to_vec()), read_payload, |_| panic!("restored"));
    assert!(matches!(r, Err(Error::InvalidBackup)));
    let framed = frame_backup(b"ct", b"{\"salt\":\"\",\"nonce\":\"\",\"version\":1}");
    let r = wallet.restore_backup(&framed, "pw", read_pub_data, read_payload, |_| {
        panic!("restored")
    });
    assert!(r.is_err());
}
