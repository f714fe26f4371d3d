//! The process-wide registry: global counters, the admin allow-list, and the
//! index of redeemed loot ids.
//!
//! Each record has exactly one logical writer per call; the host serializes
//! the calls, so the methods here only have to keep every update atomic:
//! either all counters move together or none does.

use vstd::prelude::*;

use crate::bytes::bytes_eq;
use crate::errors::ErrorCode;
use crate::launch::LaunchType;

verus! {

/// The singleton configuration and counter record, created once at
/// deployment and mutated only by launch and trade operations.
pub struct GlobalConfig {
    /// The deploying authority; the only identity allowed to manage admins.
    pub authority: [u8; 32],
    /// Where trade fees are sent.
    pub treasury_address: [u8; 32],
    /// The fungible asset in which launch fees are charged and burned.
    pub fee_asset_id: [u8; 32],
    /// How many curves have been launched.
    pub tokens_launched: u64,
    /// The sum of all buy payments, in currency base units.
    pub volume_total: u64,
    /// The sum of all launch fees destroyed.
    pub fees_burned: u64,
    /// How many of the launches were admin-sponsored bootstraps.
    pub admin_bootstrap_launches: u64,
}

impl GlobalConfig {
    /// Creates the singleton with every counter at zero.
    pub fn new(authority: [u8; 32], treasury_address: [u8; 32], fee_asset_id: [u8; 32]) -> (c:
        GlobalConfig)
        ensures
            c.authority@ == authority@,
            c.treasury_address@ == treasury_address@,
            c.fee_asset_id@ == fee_asset_id@,
            c.tokens_launched == 0,
            c.volume_total == 0,
            c.fees_burned == 0,
            c.admin_bootstrap_launches == 0,
    {
        GlobalConfig {
            authority,
            treasury_address,
            fee_asset_id,
            tokens_launched: 0,
            volume_total: 0,
            fees_burned: 0,
            admin_bootstrap_launches: 0,
        }
    }

    /// Counts a completed launch: one more curve, the burned fee added to the
    /// running total, and, for a sponsored launch, one more bootstrap.  All
    /// three counters move together or, on overflow, none does.
    pub fn record_launch(&mut self, tier: LaunchType, fee_burned: u64) -> (r: Result<
        (),
        ErrorCode,
    >)
        ensures
            ({
                let overflow = old(self).tokens_launched == u64::MAX || old(self).fees_burned
                    + fee_burned > u64::MAX || (tier == LaunchType::SponsoredBootstrap && old(
                    self,
                ).admin_bootstrap_launches == u64::MAX);
                if overflow {
                    r == Err::<(), ErrorCode>(ErrorCode::ArithmeticOverflow) && *final(self)
                        == *old(self)
                } else {
                    r == Ok::<(), ErrorCode>(()) && final(self).tokens_launched == old(
                        self,
                    ).tokens_launched + 1 && final(self).fees_burned == old(self).fees_burned
                        + fee_burned && final(self).admin_bootstrap_launches == if tier
                        == LaunchType::SponsoredBootstrap {
                        old(self).admin_bootstrap_launches + 1
                    } else {
                        old(self).admin_bootstrap_launches as int
                    }
                }
            }),
            final(self).authority@ == old(self).authority@,
            final(self).treasury_address@ == old(self).treasury_address@,
            final(self).fee_asset_id@ == old(self).fee_asset_id@,
            final(self).volume_total == old(self).volume_total,
    {
        let launched = match self.tokens_launched.checked_add(1) {
            Some(v) => v,
            None => {
                return Err(ErrorCode::ArithmeticOverflow);
            },
        };
        let burned = match self.fees_burned.checked_add(fee_burned) {
            Some(v) => v,
            None => {
                return Err(ErrorCode::ArithmeticOverflow);
            },
        };
        let sponsored = tier == LaunchType::SponsoredBootstrap;
        let bootstraps = if sponsored {
            match self.admin_bootstrap_launches.checked_add(1) {
                Some(v) => v,
                None => {
                    return Err(ErrorCode::ArithmeticOverflow);
                },
            }
        } else {
            self.admin_bootstrap_launches
        };
        self.tokens_launched = launched;
        self.fees_burned = burned;
        self.admin_bootstrap_launches = bootstraps;
        Ok(())
    }
}

/// One entry of the admin allow-list.  Deactivation flips the flag; records
/// are never deleted.
pub struct AdminRecord {
    /// The admin's identity.
    pub admin_identity: [u8; 32],
    /// When the record was created.
    pub added_at: i64,
    /// Whether the admin may currently sponsor launches.
    pub is_active: bool,
}

impl AdminRecord {
    /// Creates an active admin record; only the authority may do so.
    pub fn add_admin(
        config: &GlobalConfig,
        caller: &[u8; 32],
        admin_identity: [u8; 32],
        now: i64,
    ) -> (r: Result<AdminRecord, ErrorCode>)
        ensures
            caller@ != config.authority@ ==> r == Err::<AdminRecord, ErrorCode>(
                ErrorCode::NotAuthority,
            ),
            caller@ == config.authority@ ==> r is Ok && r->Ok_0.admin_identity@ == admin_identity@
                && r->Ok_0.added_at == now && r->Ok_0.is_active,
    {
        if bytes_eq(caller.as_slice(), config.authority.as_slice()) {
            Ok(AdminRecord { admin_identity, added_at: now, is_active: true })
        } else {
            Err(ErrorCode::NotAuthority)
        }
    }

    /// Deactivates the record; only the authority may do so, and the flip is
    /// the only change.
    pub fn deactivate(&mut self, config: &GlobalConfig, caller: &[u8; 32]) -> (r: Result<
        (),
        ErrorCode,
    >)
        ensures
            caller@ != config.authority@ ==> r == Err::<(), ErrorCode>(ErrorCode::NotAuthority)
                && *final(self) == *old(self),
            caller@ == config.authority@ ==> r == Ok::<(), ErrorCode>(()) && !final(self).is_active,
            final(self).admin_identity@ == old(self).admin_identity@,
            final(self).added_at == old(self).added_at,
    {
        if bytes_eq(caller.as_slice(), config.authority.as_slice()) {
            self.is_active = false;
            Ok(())
        } else {
            Err(ErrorCode::NotAuthority)
        }
    }
}

/// The index of loot ids that have already been redeemed.
///
/// The host ledger also refuses a second mint for the same id when the
/// derived asset address collides, but the ledger makes the replay defense
/// explicit: a claim records its id here, and a later claim for the same id
/// is refused before anything is minted.
pub struct LootLedger {
    claimed: Vec<u64>,
}

impl View for LootLedger {
    type V = Set<u64>;

    /// The set of loot ids redeemed so far.
    closed spec fn view(&self) -> Set<u64> {
        self.claimed@.to_set()
    }
}

impl LootLedger {
    /// An empty index: nothing redeemed yet.
    pub fn new() -> (l: LootLedger)
        ensures
            l@ == Set::<u64>::empty(),
    {
        let l = LootLedger { claimed: Vec::new() };
        proof {
            assert(l.claimed@.to_set() =~= Set::<u64>::empty());
        }
        l
    }

    /// Whether `loot_id` has already been redeemed.
    pub fn is_claimed(&self, loot_id: u64) -> (r: bool)
        ensures
            r == self@.contains(loot_id),
    {
        let n = self.claimed.len();
        let mut i: usize = 0;
        while i < n
            invariant
                n == self.claimed@.len(),
                0 <= i <= n,
                forall|j: int| 0 <= j < i ==> self.claimed@[j] != loot_id,
            decreases n - i,
        {
            if self.claimed[i] == loot_id {
                proof {
                    assert(self.claimed@.contains(loot_id)) by {
                        assert(self.claimed@[i as int] == loot_id);
                    }
                }
                return true;
            }
            i += 1;
        }
        proof {
            assert(!self.claimed@.contains(loot_id));
        }
        false
    }

    /// Records `loot_id` as redeemed.
    pub fn record(&mut self, loot_id: u64)
        ensures
            final(self)@ == old(self)@.insert(loot_id),
    {
        self.claimed.push(loot_id);
        proof {
            let s0 = old(self).claimed@;
            assert(self.claimed@ =~= s0 + seq![loot_id]);
            Seq::<u64>::lemma_to_set_insert_commutes(s0, loot_id);
        }
    }
}

} // verus!
