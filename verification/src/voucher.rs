//! The loot voucher and its verification protocol.
//!
//! A voucher is an off-ledger claim, signed by the issuing server over the
//! voucher's canonical byte serialization.  The host environment checks the
//! signature itself in a dedicated facility that runs immediately before the
//! claim and leaves behind a verification record; the verifier here does no
//! cryptography, it only audits that record: that it exists, that the right
//! facility produced it, that its binary layout is sound, and that the
//! embedded public key, signature and message are exactly the expected ones.

use vstd::bytes::spec_u32_to_le_bytes;
use vstd::bytes::spec_u64_to_le_bytes;
use vstd::bytes::u32_to_le_bytes;
use vstd::bytes::u64_to_le_bytes;
use vstd::prelude::*;

use crate::bytes::bytes_eq;
use crate::bytes::range_matches;
use crate::errors::ErrorCode;

verus! {

/// An off-ledger-issued claim authorizing one mint of a unique asset.
///
/// The coordinates are carried as IEEE-754 bit patterns: the engine never
/// does arithmetic on them, it only serializes them, and the canonical
/// serialization of a coordinate is the little-endian image of exactly these
/// bits.  The hint is carried as its UTF-8 bytes for the same reason.
#[derive(Clone, Debug)]
pub struct LootVoucher {
    /// The unique id of the loot find; derives the target asset address.
    pub loot_id: u64,
    /// Bit pattern of the latitude of the find.
    pub latitude_bits: u64,
    /// Bit pattern of the longitude of the find.
    pub longitude_bits: u64,
    /// When the server issued the voucher.
    pub timestamp: i64,
    /// UTF-8 bytes of the human-readable location hint.
    pub location_hint: Vec<u8>,
    /// The server's signature over the voucher's canonical bytes.
    pub server_signature: [u8; 64],
}

/// The canonical serialization the server signs: every integer little
/// endian, the hint length-prefixed with 32 bits, the signature raw.
pub open spec fn spec_voucher_bytes(v: LootVoucher) -> Seq<u8>
    recommends
        v.location_hint@.len() <= u32::MAX,
{
    spec_u64_to_le_bytes(v.loot_id) + spec_u64_to_le_bytes(v.latitude_bits)
        + spec_u64_to_le_bytes(v.longitude_bits) + spec_u64_to_le_bytes(v.timestamp as u64)
        + spec_u32_to_le_bytes(v.location_hint@.len() as u32) + v.location_hint@
        + v.server_signature@
}

/// Serializes a voucher into its canonical signed bytes.
pub fn serialize_voucher(v: &LootVoucher) -> (out: Vec<u8>)
    requires
        v.location_hint@.len() <= u32::MAX,
    ensures
        out@ == spec_voucher_bytes(*v),
{
    let mut out = u64_to_le_bytes(v.loot_id);
    let mut part = u64_to_le_bytes(v.latitude_bits);
    out.append(&mut part);
    let mut part = u64_to_le_bytes(v.longitude_bits);
    out.append(&mut part);
    let timestamp_bits: u64 = v.timestamp as u64;
    let mut part = u64_to_le_bytes(timestamp_bits);
    out.append(&mut part);
    let mut part = u32_to_le_bytes(v.location_hint.len() as u32);
    out.append(&mut part);
    out.extend_from_slice(v.location_hint.as_slice());
    out.extend_from_slice(v.server_signature.as_slice());
    proof {
        assert(out@ =~= spec_voucher_bytes(*v));
    }
    out
}

/// The record the host's signature-verification facility leaves behind.
pub struct VerificationRecord {
    /// Which facility produced the record.
    pub program_id: [u8; 32],
    /// The facility's input, in its fixed binary layout: a one-byte format
    /// tag, little-endian 16-bit offsets and lengths, and the embedded
    /// public key, signature and message they locate.
    pub data: Vec<u8>,
}

/// A little-endian 16-bit value read at byte `i`.
pub open spec fn spec_le16(data: Seq<u8>, i: int) -> int
    recommends
        0 <= i && i + 2 <= data.len(),
{
    data[i] + 256 * data[i + 1]
}

/// Where the record says its embedded public key starts.
pub open spec fn spec_pubkey_offset(data: Seq<u8>) -> int {
    spec_le16(data, 2)
}

/// Where the record says its embedded signature starts.
pub open spec fn spec_sig_offset(data: Seq<u8>) -> int {
    spec_le16(data, 4)
}

/// Where the record says its embedded message starts.
pub open spec fn spec_msg_offset(data: Seq<u8>) -> int {
    spec_le16(data, 6)
}

/// How long the record says its embedded message is.
pub open spec fn spec_msg_len(data: Seq<u8>) -> int {
    spec_le16(data, 8)
}

/// The record is long enough to hold its header and carries the expected
/// format tag.
pub open spec fn spec_header_ok(data: Seq<u8>) -> bool {
    data.len() >= 16 && data[0] == 1
}

/// Every declared region lies inside the record; mandatory before any
/// slicing.
pub open spec fn spec_bounds_ok(data: Seq<u8>) -> bool {
    &&& spec_pubkey_offset(data) + 32 <= data.len()
    &&& spec_sig_offset(data) + 64 <= data.len()
    &&& spec_msg_offset(data) + spec_msg_len(data) <= data.len()
}

/// The whole audit, decided in order: a record must be present, produced by
/// the expected facility, well laid out, and must embed exactly the expected
/// public key, signature and message.
pub open spec fn spec_verify(
    record: Option<VerificationRecord>,
    verifier_id: Seq<u8>,
    expected_pubkey: Seq<u8>,
    message: Seq<u8>,
    signature: Seq<u8>,
) -> Result<(), ErrorCode> {
    match record {
        Option::None => Err(ErrorCode::NoEd25519Ix),
        Option::Some(rec) => {
            let data = rec.data@;
            if rec.program_id@ != verifier_id {
                Err(ErrorCode::InvalidEd25519Program)
            } else if !spec_header_ok(data) {
                Err(ErrorCode::InvalidEd25519Data)
            } else if !spec_bounds_ok(data) {
                Err(ErrorCode::InvalidEd25519Data)
            } else if data.subrange(spec_pubkey_offset(data), spec_pubkey_offset(data) + 32)
                != expected_pubkey {
                Err(ErrorCode::WrongPubkey)
            } else if data.subrange(spec_sig_offset(data), spec_sig_offset(data) + 64)
                != signature {
                Err(ErrorCode::WrongSignature)
            } else if data.subrange(
                spec_msg_offset(data),
                spec_msg_offset(data) + spec_msg_len(data),
            ) != message {
                Err(ErrorCode::WrongMessage)
            } else {
                Ok(())
            }
        },
    }
}

/// The companion record of an exec-level call, lifted by value.
pub open spec fn spec_record_of(record: Option<&VerificationRecord>) -> Option<VerificationRecord> {
    match record {
        Option::Some(rec) => Option::Some(*rec),
        Option::None => Option::None,
    }
}

/// A little-endian 16-bit value read at byte `i`.
fn read_le16(data: &Vec<u8>, i: usize) -> (r: usize)
    requires
        i + 2 <= data@.len(),
    ensures
        r == spec_le16(data@, i as int),
        r < 65536,
{
    // Binding the length makes the index arithmetic provably fit in usize.
    let data_len = data.len();
    let lo = data[i] as usize;
    let hi = data[i + 1] as usize;
    lo + hi * 256
}

/// Audits the companion verification record against the expected facility,
/// server key, message and signature.  Exactly mirrors [`spec_verify`]: the
/// result is `Ok` precisely when a record is present, came from the expected
/// facility, has a sound layout, and embeds the expected key, signature and
/// message; otherwise the first failed audit step names the error.
pub fn verify_ed25519_signature(
    record: Option<&VerificationRecord>,
    verifier_id: &[u8; 32],
    expected_pubkey: &[u8; 32],
    message: &[u8],
    signature: &[u8; 64],
) -> (r: Result<(), ErrorCode>)
    ensures
        r == spec_verify(
            spec_record_of(record),
            verifier_id@,
            expected_pubkey@,
            message@,
            signature@,
        ),
{
    let rec = match record {
        Option::Some(rec) => rec,
        Option::None => {
            return Err(ErrorCode::NoEd25519Ix);
        },
    };
    if !bytes_eq(rec.program_id.as_slice(), verifier_id.as_slice()) {
        return Err(ErrorCode::InvalidEd25519Program);
    }
    let data = &rec.data;
    let data_len = data.len();
    if data_len < 16 {
        return Err(ErrorCode::InvalidEd25519Data);
    }
    if data[0] != 1 {
        return Err(ErrorCode::InvalidEd25519Data);
    }
    let pubkey_offset = read_le16(data, 2);
    let sig_offset = read_le16(data, 4);
    let msg_offset = read_le16(data, 6);
    let msg_len = read_le16(data, 8);
    if pubkey_offset + 32 > data_len || sig_offset + 64 > data_len || msg_offset + msg_len
        > data_len {
        return Err(ErrorCode::InvalidEd25519Data);
    }
    if !range_matches(data.as_slice(), pubkey_offset, expected_pubkey.as_slice()) {
        return Err(ErrorCode::WrongPubkey);
    }
    if !range_matches(data.as_slice(), sig_offset, signature.as_slice()) {
        return Err(ErrorCode::WrongSignature);
    }
    if msg_len != message.len() {
        return Err(ErrorCode::WrongMessage);
    }
    if !range_matches(data.as_slice(), msg_offset, message) {
        return Err(ErrorCode::WrongMessage);
    }
    Ok(())
}

/// A record whose embedded message bytes differ from the expected message is
/// always rejected as a message mismatch, even when the facility it came
/// from, its layout, its embedded key and its embedded signature are all
/// exactly right.
pub proof fn lemma_mismatched_message_rejected(
    record: VerificationRecord,
    verifier_id: Seq<u8>,
    expected_pubkey: Seq<u8>,
    message: Seq<u8>,
    signature: Seq<u8>,
)
    requires
        record.program_id@ == verifier_id,
        spec_header_ok(record.data@),
        spec_bounds_ok(record.data@),
        record.data@.subrange(
            spec_pubkey_offset(record.data@),
            spec_pubkey_offset(record.data@) + 32,
        ) == expected_pubkey,
        record.data@.subrange(spec_sig_offset(record.data@), spec_sig_offset(record.data@) + 64)
            == signature,
        record.data@.subrange(
            spec_msg_offset(record.data@),
            spec_msg_offset(record.data@) + spec_msg_len(record.data@),
        ) != message,
    ensures
        spec_verify(Option::Some(record), verifier_id, expected_pubkey, message, signature)
            == Err::<(), ErrorCode>(ErrorCode::WrongMessage),
{
}

} // verus!
