//! When the wallet was last backed up, and whether it changed since.

use vstd::prelude::*;
use vstd::utf8::{encode_utf8, encode_utf8_decode_utf8};

use crate::error::{Error, ErrorView};

verus! {

/// The times of the last backup and of the last operation, as texts.
///
/// `T` is the type of the texts: `String` in code, `Seq<char>` in contracts.
#[derive(Debug)]
pub struct BackupInfo<T = String> {
    /// When the wallet was last backed up; empty if it never was.
    pub last_backup_timestamp: T,
    /// When the wallet was last modified.
    pub last_operation_timestamp: T,
}

impl View for BackupInfo<String> {
    type V = BackupInfo<Seq<char>>;

    open spec fn view(&self) -> BackupInfo<Seq<char>> {
        BackupInfo {
            last_backup_timestamp: self.last_backup_timestamp@,
            last_operation_timestamp: self.last_operation_timestamp@,
        }
    }
}

/// The state of the backup on the server.
///
/// `T` is the type of the texts: `String` in code, `Seq<char>` in contracts.
#[derive(Debug)]
pub struct VssBackupInfo<T = String> {
    /// Whether the server holds a backup.
    pub backup_exists: bool,
    /// The version of the backup on the server.
    pub server_version: Option<i64>,
    /// Whether the wallet has been modified since the last backup.
    pub backup_required: bool,
    /// Why the last upload failed, if it did.
    pub last_backup_error: Option<T>,
}

/// An optional text as contracts speak of it.
pub open spec fn text_option(text: Option<String>) -> Option<Seq<char>> {
    match text {
        Some(text) => Some(text@),
        None => None,
    }
}

impl View for VssBackupInfo<String> {
    type V = VssBackupInfo<Seq<char>>;

    open spec fn view(&self) -> VssBackupInfo<Seq<char>> {
        VssBackupInfo {
            backup_exists: self.backup_exists,
            server_version: self.server_version,
            backup_required: self.backup_required,
            last_backup_error: text_option(self.last_backup_error),
        }
    }
}

/// Whether `a` and `b` agree before position `k`, and at `k` either `a` has
/// ended or its byte is the smaller one.
pub open spec fn precedes_at(a: Seq<u8>, b: Seq<u8>, k: int) -> bool {
    &&& 0 <= k <= a.len()
    &&& k < b.len()
    &&& a.take(k) == b.take(k)
    &&& k == a.len() || a[k] < b[k]
}

/// The lexicographic order of byte sequences.
pub open spec fn precedes(a: Seq<u8>, b: Seq<u8>) -> bool {
    exists|k: int| precedes_at(a, b, k)
}

/// The order of texts: that of their bytes in UTF-8.
pub open spec fn text_precedes(a: Seq<char>, b: Seq<char>) -> bool {
    precedes(encode_utf8(a), encode_utf8(b))
}

/// Whether the wallet needs a backup: it was never backed up, or its last
/// operation is later than its last backup.
pub open spec fn backup_required(info: Option<BackupInfo<Seq<char>>>) -> bool {
    match info {
        None => true,
        Some(info) => info.last_backup_timestamp.len() == 0 || text_precedes(
            info.last_backup_timestamp,
            info.last_operation_timestamp,
        ),
    }
}

/// What the stored times say of the need for a backup.
pub open spec fn required_by(stored: Result<Option<BackupInfo>, Error>) -> Result<
    bool,
    ErrorView,
> {
    match stored {
        Ok(None) => Ok(backup_required(None)),
        Ok(Some(info)) => Ok(backup_required(Some(info@))),
        Err(e) => Err(e@),
    }
}

/// The order of byte sequences is asymmetric.
pub proof fn precedes_is_asymmetric(a: Seq<u8>, b: Seq<u8>)
    requires
        precedes(a, b),
    ensures
        !precedes(b, a),
{
    let j = choose|j: int| precedes_at(a, b, j);
    if precedes(b, a) {
        let k = choose|k: int| precedes_at(b, a, k);
        if j < k {
            assert(a[j] == a.take(k)[j]);
            assert(b[j] == b.take(k)[j]);
        } else if k < j {
            assert(a[k] == a.take(j)[k]);
            assert(b[k] == b.take(j)[k]);
        }
    }
}

/// Of two different byte sequences one comes before the other.
pub proof fn precedes_is_total(a: Seq<u8>, b: Seq<u8>)
    ensures
        a == b || precedes(a, b) || precedes(b, a),
    decreases a.len(),
{
    if a.len() == 0 {
        assert(a.take(0) =~= b.take(0));
        assert(b.len() == 0 ==> a =~= b);
        assert(b.len() > 0 ==> precedes_at(a, b, 0));
    } else if b.len() == 0 {
        assert(a.take(0) =~= b.take(0));
        assert(precedes_at(b, a, 0));
    } else if a[0] != b[0] {
        assert(a.take(0) =~= b.take(0));
        assert(precedes_at(a, b, 0) || precedes_at(b, a, 0));
    } else {
        let (s, t) = (a.skip(1), b.skip(1));
        precedes_is_total(s, t);
        if s == t {
            assert(a =~= seq![a[0]] + s);
            assert(b =~= seq![b[0]] + t);
        } else if precedes(s, t) {
            let k = choose|k: int| precedes_at(s, t, k);
            assert(a.take(k + 1) =~= seq![a[0]] + s.take(k));
            assert(b.take(k + 1) =~= seq![b[0]] + t.take(k));
            assert(precedes_at(a, b, k + 1));
        } else {
            let k = choose|k: int| precedes_at(t, s, k);
            assert(a.take(k + 1) =~= seq![a[0]] + s.take(k));
            assert(b.take(k + 1) =~= seq![b[0]] + t.take(k));
            assert(precedes_at(b, a, k + 1));
        }
    }
}

/// Tells whether a text comes before another.
fn is_before(a: &str, b: &str) -> (r: bool)
    ensures
        r == text_precedes(a@, b@),
{
    let s = a.as_bytes();
    let t = b.as_bytes();
    let mut k: usize = 0;
    while k < s.len() && k < t.len() && s[k] == t[k]
        invariant
            k <= s@.len(),
            k <= t@.len(),
            s@.take(k as int) == t@.take(k as int),
        decreases s@.len() - k,
    {
        assert(s@.take(k + 1) =~= s@.take(k as int).push(s@[k as int]));
        assert(t@.take(k + 1) =~= t@.take(k as int).push(t@[k as int]));
        k = k + 1;
    }
    let r = k < t.len() && (k == s.len() || s[k] < t[k]);
    proof {
        if r {
            assert(precedes_at(s@, t@, k as int));
        } else if k == t@.len() && k == s@.len() {
            assert(s@ =~= s@.take(k as int));
            assert(t@ =~= t@.take(k as int));
            if precedes(s@, t@) {
                precedes_is_asymmetric(s@, t@);
            }
        } else {
            assert(precedes_at(t@, s@, k as int));
            precedes_is_asymmetric(t@, s@);
        }
    }
    r
}

/// Tells whether the wallet needs a backup.
pub fn is_backup_required(info: &Option<BackupInfo>) -> (r: bool)
    ensures
        match info {
            Some(info) => r == backup_required(Some(info@)),
            None => r == backup_required(None),
        },
{
    match info {
        None => true,
        Some(info) => info.last_backup_timestamp.as_str().is_empty() || is_before(
            info.last_backup_timestamp.as_str(),
            info.last_operation_timestamp.as_str(),
        ),
    }
}

/// A wallet that was never backed up needs a backup, whether its times are not
/// stored at all or the time of the last backup is empty.
pub proof fn never_backed_up_requires_backup(operation: Seq<char>)
    ensures
        backup_required(None),
        backup_required(
            Some(
                BackupInfo {
                    last_backup_timestamp: Seq::empty(),
                    last_operation_timestamp: operation,
                },
            ),
        ),
{
}

/// A wallet that was backed up needs another backup exactly if its last
/// operation is neither at the time of the last backup nor before it.
pub proof fn backup_is_required_after_an_operation(backup: Seq<char>, operation: Seq<char>)
    requires
        backup.len() > 0,
    ensures
        backup_required(
            Some(
                BackupInfo {
                    last_backup_timestamp: backup,
                    last_operation_timestamp: operation,
                },
            ),
        ) == !(operation == backup || text_precedes(operation, backup)),
{
    let (b, o) = (encode_utf8(backup), encode_utf8(operation));
    precedes_is_total(b, o);
    if precedes(b, o) {
        precedes_is_asymmetric(b, o);
    }
    encode_utf8_decode_utf8(backup);
    encode_utf8_decode_utf8(operation);
}

} // verus!
