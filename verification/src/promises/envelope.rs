//! Putting public data and ciphertext into one backup, and taking them apart.

use vstd::prelude::*;

use crate::cipher::BackupPubData;
use crate::envelope::{
    decode_backup, encode_backup, envelope, frame_backup, opened, split_backup, u32_le, u32_of_le,
};
use crate::error::Error;
use crate::promises::errors::is_json_error;

verus! {

/// Whether `data` is four bytes that give the length of `header` modulo 2^32,
/// the least significant first, then `header`, then `ciphertext`.
pub open spec fn is_envelope(data: Seq<u8>, header: Seq<u8>, ciphertext: Seq<u8>) -> bool {
    &&& data.len() == 4 + header.len() + ciphertext.len()
    &&& data[0] + 0x100 * data[1] + 0x1_0000 * data[2] + 0x100_0000 * data[3] == header.len()
        % 0x1_0000_0000
    &&& data.skip(4).take(header.len() as int) == header
    &&& data.skip(4 + header.len() as int) == ciphertext
}

/// Whether `data` holds a header and a ciphertext, the header being as long as
/// the first four bytes say.
pub open spec fn holds(data: Seq<u8>, header: Seq<u8>, ciphertext: Seq<u8>) -> bool {
    is_envelope(data, header, ciphertext) && header.len() < 0x1_0000_0000
}

/// At most one header and one ciphertext are held by the same bytes.
pub proof fn contents_are_unique(
    data: Seq<u8>,
    header: Seq<u8>,
    ciphertext: Seq<u8>,
    header2: Seq<u8>,
    ciphertext2: Seq<u8>,
)
    requires
        holds(data, header, ciphertext),
        holds(data, header2, ciphertext2),
    ensures
        header == header2,
        ciphertext == ciphertext2,
{
    assert(header.len() == header2.len());
}

/// Four bytes make up the number that they are the bytes of, modulo 2^32.
proof fn bytes_make_up_the_number(n: int)
    requires
        n >= 0,
    ensures
        n % 256 + 0x100 * (n / 0x100 % 256) + 0x1_0000 * (n / 0x1_0000 % 256) + 0x100_0000 * (n
            / 0x100_0000 % 256) == n % 0x1_0000_0000,
{
    let a = n / 0x100;
    let b = a / 0x100;
    let c = b / 0x100;
    let d = c / 0x100;
    assert(b == n / 0x1_0000);
    assert(c == n / 0x100_0000);
    assert(n == 0x1_0000_0000 * d + (n % 256 + 0x100 * (a % 256) + 0x1_0000 * (b % 256)
        + 0x100_0000 * (c % 256)));
}

/// What framing gives has the layout of an envelope.
pub proof fn envelope_is_an_envelope(header: Seq<u8>, ciphertext: Seq<u8>)
    ensures
        is_envelope(envelope(header, ciphertext), header, ciphertext),
{
    let n = header.len() as int;
    let data = envelope(header, ciphertext);
    bytes_make_up_the_number(n);
    let length = u32_le(n);
    assert(data == length + header + ciphertext);
    assert(data[0] == length[0] && data[1] == length[1] && data[2] == length[2] && data[3]
        == length[3]);
    assert(data.skip(4).take(n) =~= header);
    assert(data.skip(4 + n) =~= ciphertext);
}

/// What splitting gives is what the bytes hold.
pub proof fn opened_is_held(data: Seq<u8>)
    requires
        opened(data) is Ok,
    ensures
        holds(data, opened(data)->Ok_0.0, opened(data)->Ok_0.1),
{
    let (header, ciphertext) = opened(data)->Ok_0;
    let n = u32_of_le(data);
    assert(header.len() == n);
    assert(0 <= n < 0x1_0000_0000);
    assert(data.skip(4).take(n) =~= header);
    assert(data.skip(4 + n) =~= ciphertext);
}

/// Framing gives the length of the header, the header and the ciphertext, and is
/// allowed on all bytes.
pub proof fn framing_makes_an_envelope(ciphertext: &[u8], header: &[u8], out: Vec<u8>)
    requires
        call_ensures(frame_backup, (ciphertext, header), out),
    ensures
        is_envelope(out@, header@, ciphertext@),
        call_requires(frame_backup, (ciphertext, header)),
{
    envelope_is_an_envelope(header@, ciphertext@);
}

/// Splitting gives what the bytes hold, and refuses exactly the bytes that hold
/// nothing. It is allowed on all bytes.
pub proof fn splitting_gives_the_contents(data: &[u8], r: Result<(&[u8], &[u8]), Error>)
    requires
        call_ensures(split_backup, (data,), r),
    ensures
        r is Ok ==> holds(data@, r->Ok_0.0@, r->Ok_0.1@),
        r is Err ==> r->Err_0 is InvalidBackup,
        r is Err ==> forall|header: Seq<u8>, ciphertext: Seq<u8>|
            !#[trigger] holds(data@, header, ciphertext),
        call_requires(split_backup, (data,)),
{
    if opened(data@) is Ok {
        opened_is_held(data@);
    }
}

/// Splitting what was framed gives back what was framed.
pub proof fn split_undoes_frame(
    ciphertext: &[u8],
    header: &[u8],
    out: Vec<u8>,
    data: &[u8],
    r: Result<(&[u8], &[u8]), Error>,
)
    requires
        call_ensures(frame_backup, (ciphertext, header), out),
        data@ == out@,
        call_ensures(split_backup, (data,), r),
        header@.len() < 0x1_0000_0000,
    ensures
        r is Ok,
        r->Ok_0.0@ == header@,
        r->Ok_0.1@ == ciphertext@,
{
    framing_makes_an_envelope(ciphertext, header, out);
    splitting_gives_the_contents(data, r);
    assert(holds(data@, header@, ciphertext@));
    contents_are_unique(data@, header@, ciphertext@, r->Ok_0.0@, r->Ok_0.1@);
}

/// An encoded backup holds the JSON that was written for the public data, and
/// the ciphertext. It fails only where the JSON cannot be written, and is allowed
/// wherever the JSON may be asked for.
pub proof fn encoding_holds_the_public_data<W>(
    ciphertext: &[u8],
    pub_data: &BackupPubData,
    write_pub_data: W,
    r: Result<Vec<u8>, Error>,
) where W: FnOnce(&BackupPubData) -> Result<Vec<u8>, String>
    requires
        call_ensures(encode_backup::<W>, (ciphertext, pub_data, write_pub_data), r),
    ensures
        r is Ok ==> exists|json: Result<Vec<u8>, String>| #[trigger]
            write_pub_data.ensures((pub_data,), json) && json is Ok && is_envelope(
                r->Ok_0@,
                json->Ok_0@,
                ciphertext@,
            ),
        r is Err ==> exists|json: Result<Vec<u8>, String>| #[trigger]
            write_pub_data.ensures((pub_data,), json) && json is Err && is_json_error(
                r->Err_0,
                json->Err_0@,
            ),
        write_pub_data.requires((pub_data,)) ==> call_requires(
            encode_backup::<W>,
            (ciphertext, pub_data, write_pub_data),
        ),
{
    let json = choose|json: Result<Vec<u8>, String>|
        {
            &&& #[trigger] write_pub_data.ensures((pub_data,), json)
            &&& json is Ok ==> r is Ok && r->Ok_0@ == envelope(json->Ok_0@, ciphertext@)
            &&& json is Err ==> r is Err && is_json_error(r->Err_0, json->Err_0@)
        };
    if json is Ok {
        envelope_is_an_envelope(json->Ok_0@, ciphertext@);
    }
}

/// A decoded backup gives the public data that were read from the header that
/// the bytes hold, and the ciphertext that they hold. It is refused as no backup
/// exactly where they hold nothing or the header cannot be read.
pub proof fn decoding_gives_the_contents<R>(
    data: &[u8],
    read_pub_data: R,
    r: Result<(BackupPubData, &[u8]), Error>,
) where R: FnOnce(&[u8]) -> Option<BackupPubData>
    requires
        call_ensures(decode_backup::<R>, (data, read_pub_data), r),
    ensures
        r is Ok ==> exists|header: &[u8], read: Option<BackupPubData>| #[trigger]
            read_pub_data.ensures((header,), read) && read == Some(r->Ok_0.0) && holds(
                data@,
                header@,
                r->Ok_0.1@,
            ),
        r is Err ==> r->Err_0 is InvalidBackup,
        r is Err ==> (forall|header: Seq<u8>, ciphertext: Seq<u8>|
            !#[trigger] holds(data@, header, ciphertext)) || (exists|
            header: &[u8],
            read: Option<BackupPubData>,
        | #[trigger]
            read_pub_data.ensures((header,), read) && read is None && exists|ciphertext: Seq<u8>|
                #[trigger] holds(data@, header@, ciphertext)),
{
    if opened(data@) is Ok {
        opened_is_held(data@);
    }
}

/// Decoding is allowed wherever the header that the bytes hold may be read, and
/// so on all bytes that hold nothing.
pub proof fn decoding_reads_only_the_header<R>(data: &[u8], read_pub_data: R) where
    R: FnOnce(&[u8]) -> Option<BackupPubData>,

    requires
        forall|header: &[u8], ciphertext: Seq<u8>| #[trigger]
            holds(data@, header@, ciphertext) ==> read_pub_data.requires((header,)),
    ensures
        call_requires(decode_backup::<R>, (data, read_pub_data)),
{
    assert forall|json: &[u8]|
        opened(data@) matches Ok((header, _)) && json@
            == header implies #[trigger] read_pub_data.requires((json,)) by {
        opened_is_held(data@);
        assert(holds(data@, json@, opened(data@)->Ok_0.1));
    }
}

} // verus!
