//! The envelope of a backup:
//! `[4-byte little-endian length of the header][header][ciphertext]`.
//!
//! The header is the JSON text of the public data that decryption needs.

use vstd::prelude::*;

use crate::cipher::BackupPubData;
use crate::error::{bytes_result, Error, ErrorView, InternalError};

verus! {

/// The four bytes of `n` modulo 2^32, least significant first.
pub open spec fn u32_le(n: int) -> Seq<u8> {
    seq![
        (n % 256) as u8,
        (n / 0x100 % 256) as u8,
        (n / 0x1_0000 % 256) as u8,
        (n / 0x100_0000 % 256) as u8,
    ]
}

/// The number whose first four bytes, least significant first, start `data`.
pub open spec fn u32_of_le(data: Seq<u8>) -> int
    recommends
        data.len() >= 4,
{
    data[0] + 0x100 * data[1] + 0x1_0000 * data[2] + 0x100_0000 * data[3]
}

/// The backup that holds the header `pub_json` and `ciphertext`.
pub open spec fn envelope(pub_json: Seq<u8>, ciphertext: Seq<u8>) -> Seq<u8> {
    u32_le(pub_json.len() as int) + pub_json + ciphertext
}

/// The header and the ciphertext of a backup.
pub open spec fn opened(data: Seq<u8>) -> Result<(Seq<u8>, Seq<u8>), ErrorView> {
    if data.len() < 4 || data.len() < 4 + u32_of_le(data) {
        Err(Error::InvalidBackup)
    } else {
        Ok(
            (
                data.subrange(4, 4 + u32_of_le(data)),
                data.subrange(4 + u32_of_le(data), data.len() as int),
            ),
        )
    }
}

/// Puts the header and the ciphertext into one backup.
///
/// The length is written in four bytes, so a header of 2^32 bytes or more is
/// announced with its length modulo 2^32.
pub fn frame_backup(ciphertext: &[u8], pub_json: &[u8]) -> (out: Vec<u8>)
    ensures
        out@ == envelope(pub_json@, ciphertext@),
{
    let n: usize = pub_json.len();
    let mut out: Vec<u8> = Vec::new();
    out.push((n % 256) as u8);
    out.push((n / 0x100 % 256) as u8);
    out.push((n / 0x1_0000 % 256) as u8);
    out.push((n / 0x100_0000 % 256) as u8);
    out.extend_from_slice(pub_json);
    out.extend_from_slice(ciphertext);
    assert(out@ =~= envelope(pub_json@, ciphertext@));
    out
}

/// Splits a backup into its header and its ciphertext.
pub fn split_backup(data: &[u8]) -> (r: Result<(&[u8], &[u8]), Error>)
    ensures
        match r {
            Ok((pub_json, ciphertext)) => opened(data@) == Ok::<_, ErrorView>(
                (pub_json@, ciphertext@),
            ),
            Err(e) => opened(data@) == Err::<(Seq<u8>, Seq<u8>), _>(e@),
        },
{
    if data.len() < 4 {
        return Err(Error::InvalidBackup);
    }
    let pub_len: u32 = data[0] as u32 + 0x100 * data[1] as u32 + 0x1_0000 * data[2] as u32
        + 0x100_0000 * data[3] as u32;
    if data.len() - 4 < pub_len as usize {
        return Err(Error::InvalidBackup);
    }
    let (head, ciphertext) = data.split_at(4 + pub_len as usize);
    let (_, pub_json) = head.split_at(4);
    assert(pub_json@ =~= data@.subrange(4, 4 + u32_of_le(data@)));
    Ok((pub_json, ciphertext))
}

/// What writing a value as JSON comes to: the bytes, or the error with its text.
pub open spec fn json_written(json: Result<Vec<u8>, String>) -> Result<Seq<u8>, ErrorView> {
    match json {
        Ok(json) => Ok(json@),
        Err(e) => Err(Error::Component(InternalError::JsonError(e@))),
    }
}

/// Whether `r` is the backup of `ciphertext` and `pub_data`, for some JSON text
/// that `write_pub_data` gives.
pub open spec fn encodes<W>(
    ciphertext: Seq<u8>,
    pub_data: &BackupPubData,
    write_pub_data: W,
    r: Result<Seq<u8>, ErrorView>,
) -> bool where W: FnOnce(&BackupPubData) -> Result<Vec<u8>, String> {
    exists|json: Result<Vec<u8>, String>| #[trigger]
        write_pub_data.ensures((pub_data,), json) && r == match json_written(json) {
            Ok(pub_json) => Ok(envelope(pub_json, ciphertext)),
            Err(e) => Err(e),
        }
}

/// Puts the public data, as the JSON that `write_pub_data` gives for it, and
/// the ciphertext into one backup.
pub fn encode_backup<W>(ciphertext: &[u8], pub_data: &BackupPubData, write_pub_data: W) -> (r:
    Result<Vec<u8>, Error>) where W: FnOnce(&BackupPubData) -> Result<Vec<u8>, String>
    requires
        write_pub_data.requires((pub_data,)),
    ensures
        encodes(ciphertext@, pub_data, write_pub_data, bytes_result(r)),
{
    match write_pub_data(pub_data) {
        Ok(pub_json) => Ok(frame_backup(ciphertext, pub_json.as_slice())),
        Err(e) => Err(Error::Component(InternalError::JsonError(e))),
    }
}

/// Whether `r` is the public data and the ciphertext of the backup `data`, for
/// some reading of its header by `read_pub_data`.
pub open spec fn decodes<R>(
    data: Seq<u8>,
    read_pub_data: R,
    r: Result<(BackupPubData, Seq<u8>), ErrorView>,
) -> bool where R: FnOnce(&[u8]) -> Option<BackupPubData> {
    match opened(data) {
        Err(e) => r == Err::<(BackupPubData, Seq<u8>), _>(e),
        Ok((header, ciphertext)) => exists|json: &[u8], pub_data: Option<BackupPubData>|
            json@ == header && #[trigger] read_pub_data.ensures((json,), pub_data) && r
                == match pub_data {
                Some(pub_data) => Ok((pub_data, ciphertext)),
                None => Err(ErrorView::InvalidBackup),
            },
    }
}

/// Splits a backup into the public data, as `read_pub_data` reads it from its
/// JSON, and the ciphertext.
pub fn decode_backup<R>(data: &[u8], read_pub_data: R) -> (r: Result<
    (BackupPubData, &[u8]),
    Error,
>) where R: FnOnce(&[u8]) -> Option<BackupPubData>
    requires
        forall|json: &[u8]|
            opened(data@) matches Ok((header, _)) && json@ == header
                ==> #[trigger] read_pub_data.requires((json,)),
    ensures
        decodes(
            data@,
            read_pub_data,
            match r {
                Ok((pub_data, ciphertext)) => Ok((pub_data, ciphertext@)),
                Err(e) => Err(e@),
            },
        ),
{
    match split_backup(data) {
        Ok((pub_json, ciphertext)) => match read_pub_data(pub_json) {
            Some(pub_data) => Ok((pub_data, ciphertext)),
            None => Err(Error::InvalidBackup),
        },
        Err(e) => Err(e),
    }
}

/// What is put into a backup comes out of it again, for every header whose
/// length fits the four bytes that announce it.
pub proof fn splitting_inverts_framing(pub_json: Seq<u8>, ciphertext: Seq<u8>)
    requires
        pub_json.len() < 0x1_0000_0000,
    ensures
        opened(envelope(pub_json, ciphertext)) == Ok::<_, ErrorView>((pub_json, ciphertext)),
{
    let n = pub_json.len() as int;
    let data = envelope(pub_json, ciphertext);
    assert(u32_of_le(data) == n);
    assert(data.subrange(4, 4 + n) =~= pub_json);
    assert(data.subrange(4 + n, data.len() as int) =~= ciphertext);
}

/// A backup that can be split is the envelope of its two parts.
pub proof fn framing_inverts_splitting(data: Seq<u8>)
    requires
        opened(data) is Ok,
    ensures
        envelope(opened(data)->Ok_0.0, opened(data)->Ok_0.1) == data,
{
    let (pub_json, ciphertext) = opened(data)->Ok_0;
    let n = u32_of_le(data);
    assert(pub_json.len() == n);
    assert(n % 256 == data[0]);
    assert(n / 0x100 % 256 == data[1]);
    assert(n / 0x1_0000 % 256 == data[2]);
    assert(n / 0x100_0000 % 256 == data[3]);
    assert(envelope(pub_json, ciphertext) =~= data);
}

/// Whether `read_pub_data` reads public data back from every header that
/// `write_pub_data` writes for them, and such a header is short enough for its
/// length to be announced in four bytes.
pub open spec fn pub_data_reads_back<W, R>(write_pub_data: W, read_pub_data: R) -> bool where
    W: FnOnce(&BackupPubData) -> Result<Vec<u8>, String>,
    R: FnOnce(&[u8]) -> Option<BackupPubData>,
 {
    &&& forall|pub_data: &BackupPubData, json: Vec<u8>| #[trigger]
        write_pub_data.ensures((pub_data,), Ok(json)) ==> json@.len() < 0x1_0000_0000
    &&& forall|
        pub_data: &BackupPubData,
        json: Vec<u8>,
        header: &[u8],
        again: Option<BackupPubData>,
    |
        #[trigger] write_pub_data.ensures((pub_data,), Ok(json)) && header@ == json@
            && #[trigger] read_pub_data.ensures((header,), again) ==> again is Some && again->0@
            == pub_data@
}

/// Decoding an encoded backup gives the public data and the ciphertext that
/// were encoded, where the JSON of public data reads back.
pub proof fn decoding_inverts_encoding<W, R>(
    ciphertext: Seq<u8>,
    pub_data: &BackupPubData,
    write_pub_data: W,
    read_pub_data: R,
    backup: Seq<u8>,
    decoded: Result<(BackupPubData, Seq<u8>), ErrorView>,
) where
    W: FnOnce(&BackupPubData) -> Result<Vec<u8>, String>,
    R: FnOnce(&[u8]) -> Option<BackupPubData>,

    requires
        pub_data_reads_back(write_pub_data, read_pub_data),
        encodes(ciphertext, pub_data, write_pub_data, Ok(backup)),
        decodes(backup, read_pub_data, decoded),
    ensures
        decoded matches Ok((again, rest)) && again@ == pub_data@ && rest == ciphertext,
{
    let json = choose|json: Result<Vec<u8>, String>| #[trigger]
        write_pub_data.ensures((pub_data,), json) && Ok::<_, ErrorView>(backup)
            == match json_written(json) {
            Ok(pub_json) => Ok(envelope(pub_json, ciphertext)),
            Err(e) => Err(e),
        };
    assert(json is Ok);
    let json = json->Ok_0;
    assert(write_pub_data.ensures((pub_data,), Ok(json)));
    splitting_inverts_framing(json@, ciphertext);
}

} // verus!
