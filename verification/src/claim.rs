//! The voucher-redemption flow.
//!
//! A claim burns a fixed fee from the claimant, audits the companion
//! signature-verification record against the voucher's canonical bytes, and
//! authorizes the mint of exactly one unique asset.  The whole operation is
//! atomic: when any audit step fails nothing is recorded, and the host
//! discards the fee burn along with the rest of the aborted operation.

use vstd::prelude::*;

use crate::curve::UNIT;
use crate::errors::ErrorCode;
use crate::registry::LootLedger;
use crate::voucher::spec_record_of;
use crate::voucher::spec_verify;
use crate::voucher::spec_voucher_bytes;
use crate::voucher::serialize_voucher;
use crate::voucher::verify_ed25519_signature;
use crate::voucher::LootVoucher;
use crate::voucher::VerificationRecord;

verus! {

/// The fee burned from the claimant on every successful claim.
pub const CLAIM_FEE: u64 = 100 * UNIT;

/// One claim request as presented to the engine: the voucher, the companion
/// record the host found immediately before the call (if any), and the
/// identities the audit must match it against.
pub struct ClaimLoot {
    /// The signed claim being redeemed.
    pub voucher: LootVoucher,
    /// The companion record, or nothing if no facility ran before the call.
    pub verification: Option<VerificationRecord>,
    /// The signature-verification facility the record must come from.
    pub verifier_id: [u8; 32],
    /// The server identity whose key must be embedded in the record.
    pub server_key: [u8; 32],
}

/// What a successful claim authorizes.
#[derive(Clone, Copy, Debug, PartialEq, Eq, Structural)]
pub struct ClaimReceipt {
    /// The loot id redeemed; derives the minted asset's address.
    pub loot_id: u64,
    /// The fee the host token service must burn from the claimant.
    pub fee_burned: u64,
}

/// The claim decision: the voucher's audit first, in its own order, then the
/// replay defense on the loot id; success records the id as redeemed.
pub open spec fn spec_claim(claimed: Set<u64>, req: ClaimLoot) -> Result<Set<u64>, ErrorCode> {
    match spec_verify(
        req.verification,
        req.verifier_id@,
        req.server_key@,
        spec_voucher_bytes(req.voucher),
        req.voucher.server_signature@,
    ) {
        Err(e) => Err(e),
        Ok(_) => if claimed.contains(req.voucher.loot_id) {
            Err(ErrorCode::LootAlreadyClaimed)
        } else {
            Ok(claimed.insert(req.voucher.loot_id))
        },
    }
}

/// Redeems a voucher: audits the companion record against the voucher's
/// canonical serialization, refuses a loot id that was already redeemed, and
/// otherwise records the id and returns the receipt the host needs to burn
/// the fee and mint the asset.  A rejected claim records nothing.
pub fn claim_loot(req: &ClaimLoot, ledger: &mut LootLedger) -> (r: Result<ClaimReceipt, ErrorCode>)
    requires
        req.voucher.location_hint@.len() <= u32::MAX,
    ensures
        r is Ok ==> spec_claim(old(ledger)@, *req) == Ok::<Set<u64>, ErrorCode>(final(ledger)@)
            && final(ledger)@ == old(ledger)@.insert(req.voucher.loot_id) && r->Ok_0 == (
        ClaimReceipt { loot_id: req.voucher.loot_id, fee_burned: CLAIM_FEE }),
        r is Err ==> spec_claim(old(ledger)@, *req) == Err::<Set<u64>, ErrorCode>(r->Err_0)
            && final(ledger)@ == old(ledger)@,
{
    let message = serialize_voucher(&req.voucher);
    match verify_ed25519_signature(
        req.verification.as_ref(),
        &req.verifier_id,
        &req.server_key,
        message.as_slice(),
        &req.voucher.server_signature,
    ) {
        Err(e) => {
            return Err(e);
        },
        Ok(_) => {},
    }
    if ledger.is_claimed(req.voucher.loot_id) {
        return Err(ErrorCode::LootAlreadyClaimed);
    }
    ledger.record(req.voucher.loot_id);
    Ok(ClaimReceipt { loot_id: req.voucher.loot_id, fee_burned: CLAIM_FEE })
}

/// Replay defense: once a claim for a loot id has succeeded, any further
/// claim presenting the same id fails, whatever its voucher or record says
/// -- one id can never mint two assets.
pub proof fn lemma_second_claim_fails(
    claimed: Set<u64>,
    after: Set<u64>,
    first: ClaimLoot,
    second: ClaimLoot,
)
    requires
        spec_claim(claimed, first) == Ok::<Set<u64>, ErrorCode>(after),
        second.voucher.loot_id == first.voucher.loot_id,
    ensures
        spec_claim(after, second) is Err,
{
    assert(after.contains(first.voucher.loot_id));
}

} // verus!
