use fizzcaps::claim::{claim_loot, ClaimLoot, CLAIM_FEE};
use fizzcaps::curve::UNIT;
use fizzcaps::errors::ErrorCode;
use fizzcaps::registry::LootLedger;
use fizzcaps::voucher::{serialize_voucher, verify_ed25519_signature, LootVoucher, VerificationRecord};

const VERIFIER_ID: [u8; 32] = [11u8; 32];
const SERVER_KEY: [u8; 32] = [22u8; 32];

fn sample_voucher() -> LootVoucher {
    LootVoucher {
        loot_id: 77,
        latitude_bits: 40.7128f64.to_bits(),
        longitude_bits: (-74.0060f64).to_bits(),
        timestamp: 1_700_000_000,
        location_hint: b"under the old bridge".to_vec(),
        server_signature: [5u8; 64],
    }
}

/// Lays out a companion record the way the signature facility does: a format
/// tag, little-endian offsets, then the embedded key, signature and message.
fn record_data(pubkey: &[u8; 32], signature: &[u8; 64], message: &[u8]) -> Vec<u8> {
    let pk_off: u16 = 16;
    let sig_off: u16 = 48;
    let msg_off: u16 = 112;
    let mut data = vec![1u8, 0u8];
    data.extend_from_slice(&pk_off.to_le_bytes());
    data.extend_from_slice(&sig_off.to_le_bytes());
    data.extend_from_slice(&msg_off.to_le_bytes());
    data.extend_from_slice(&(message.len() as u16).to_le_bytes());
    data.extend_from_slice(&[0u8; 6]);
    data.extend_from_slice(pubkey);
    data.extend_from_slice(signature);
    data.extend_from_slice(message);
    data
}

fn valid_request(voucher: LootVoucher) -> ClaimLoot {
    let message = serialize_voucher(&voucher);
    let data = record_data(&SERVER_KEY, &voucher.server_signature, &message);
    ClaimLoot {
        voucher,
        verification: Some(VerificationRecord { program_id: VERIFIER_ID, data }),
        verifier_id: VERIFIER_ID,
        server_key: SERVER_KEY,
    }
}

#[test]
fn canonical_serialization_exact() {
    let v = sample_voucher();
    let bytes = serialize_voucher(&v);
    let mut expected: Vec<u8> = Vec::new();
    expected.extend_from_slice(&77u64.to_le_bytes());
    expected.extend_from_slice(&40.7128f64.to_bits().to_le_bytes());
    expected.extend_from_slice(&(-74.0060f64).to_bits().to_le_bytes());
    expected.extend_from_slice(&1_700_000_000i64.to_le_bytes());
    expected.extend_from_slice(&20u32.to_le_bytes());
    expected.extend_from_slice(b"under the old bridge");
    expected.extend_from_slice(&[5u8; 64]);
    assert_eq!(bytes, expected);
}

#[test]
fn verify_accepts_matching_record() {
    let v = sample_voucher();
    let message = serialize_voucher(&v);
    let rec = VerificationRecord {
        program_id: VERIFIER_ID,
        data: record_data(&SERVER_KEY, &v.server_signature, &message),
    };
    let r = verify_ed25519_signature(
        Some(&rec),
        &VERIFIER_ID,
        &SERVER_KEY,
        &message,
        &v.server_signature,
    );
    assert_eq!(r, Ok(()));
}

#[test]
fn claim_succeeds_and_records_id() {
    let mut ledger = LootLedger::new();
    let req = valid_request(sample_voucher());
    let receipt = claim_loot(&req, &mut ledger).unwrap();
    assert_eq!(receipt.loot_id, 77);
    assert_eq!(receipt.fee_burned, CLAIM_FEE);
    assert_eq!(CLAIM_FEE, 100 * UNIT);
    assert!(ledger.is_claimed(77));
    assert!(!ledger.is_claimed(78));
}

#[test]
fn second_claim_for_same_id_fails() {
    let mut ledger = LootLedger::new();
    let req = valid_request(sample_voucher());
    claim_loot(&req, &mut ledger).unwrap();
    // Even a fresh, fully valid voucher for the same loot id is refused.
    let again = valid_request(sample_voucher());
    assert_eq!(claim_loot(&again, &mut ledger), Err(ErrorCode::LootAlreadyClaimed));
    assert!(ledger.is_claimed(77));
}

#[test]
fn claim_without_record_fails() {
    let mut ledger = LootLedger::new();
    let mut req = valid_request(sample_voucher());
    req.verification = None;
    assert_eq!(claim_loot(&req, &mut ledger), Err(ErrorCode::NoEd25519Ix));
    assert!(!ledger.is_claimed(77));
}

#[test]
fn claim_with_foreign_record_fails() {
    let mut ledger = LootLedger::new();
    let mut req = valid_request(sample_voucher());
    if let Some(rec) = req.verification.as_mut() {
        rec.program_id = [12u8; 32];
    }
    assert_eq!(claim_loot(&req, &mut ledger), Err(ErrorCode::InvalidEd25519Program));
}

#[test]
fn malformed_record_fails() {
    let mut ledger = LootLedger::new();

    // Too short to hold the header.
    let mut req = valid_request(sample_voucher());
    if let Some(rec) = req.verification.as_mut() {
        rec.data.truncate(15);
    }
    assert_eq!(claim_loot(&req, &mut ledger), Err(ErrorCode::InvalidEd25519Data));

    // Wrong format tag.
    let mut req = valid_request(sample_voucher());
    if let Some(rec) = req.verification.as_mut() {
        rec.data[0] = 2;
    }
    assert_eq!(claim_loot(&req, &mut ledger), Err(ErrorCode::InvalidEd25519Data));

    // A declared region past the end of the record.
    let mut req = valid_request(sample_voucher());
    if let Some(rec) = req.verification.as_mut() {
        rec.data[2] = 0xFF;
        rec.data[3] = 0xFF;
    }
    assert_eq!(claim_loot(&req, &mut ledger), Err(ErrorCode::InvalidEd25519Data));

    assert!(!ledger.is_claimed(77));
}

#[test]
fn wrong_embedded_key_fails() {
    let mut ledger = LootLedger::new();
    let v = sample_voucher();
    let message = serialize_voucher(&v);
    let data = record_data(&[23u8; 32], &v.server_signature, &message);
    let req = ClaimLoot {
        voucher: v,
        verification: Some(VerificationRecord { program_id: VERIFIER_ID, data }),
        verifier_id: VERIFIER_ID,
        server_key: SERVER_KEY,
    };
    assert_eq!(claim_loot(&req, &mut ledger), Err(ErrorCode::WrongPubkey));
}

#[test]
fn wrong_embedded_signature_fails() {
    let mut ledger = LootLedger::new();
    let v = sample_voucher();
    let message = serialize_voucher(&v);
    let data = record_data(&SERVER_KEY, &[6u8; 64], &message);
    let req = ClaimLoot {
        voucher: v,
        verification: Some(VerificationRecord { program_id: VERIFIER_ID, data }),
        verifier_id: VERIFIER_ID,
        server_key: SERVER_KEY,
    };
    assert_eq!(claim_loot(&req, &mut ledger), Err(ErrorCode::WrongSignature));
}

#[test]
fn mismatched_message_fails() {
    let mut ledger = LootLedger::new();
    let v = sample_voucher();
    // The facility verified some other message -- say the same voucher with
    // a different loot id -- and did so with the right key and the voucher's
    // own signature.  The audit must still refuse the claim: the signed
    // bytes are not the canonical serialization of the voucher presented.
    let mut other = sample_voucher();
    other.loot_id = 78;
    let other_message = serialize_voucher(&other);
    let data = record_data(&SERVER_KEY, &v.server_signature, &other_message);
    let req = ClaimLoot {
        voucher: v,
        verification: Some(VerificationRecord { program_id: VERIFIER_ID, data }),
        verifier_id: VERIFIER_ID,
        server_key: SERVER_KEY,
    };
    assert_eq!(claim_loot(&req, &mut ledger), Err(ErrorCode::WrongMessage));
    assert!(!ledger.is_claimed(77));
}

#[test]
fn ledger_starts_empty() {
    let ledger = LootLedger::new();
    assert!(!ledger.is_claimed(0));
    assert!(!ledger.is_claimed(77));
}
