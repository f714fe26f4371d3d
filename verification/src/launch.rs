//! Launch eligibility and the tiered launch fee.
//!
//! Before a curve may be created the creator's balance is held against a
//! threshold and a tiered launch fee is computed; the fee is destroyed, not
//! transferred, by the host token service.  A sponsored-bootstrap launch
//! bypasses the balance check and the fee entirely, but only for a caller
//! holding an active admin record; it is tagged distinctly so downstream
//! consumers can tell the paths apart.

use vstd::prelude::*;

use crate::curve::BondingCurve;
use crate::curve::CURVE_SUPPLY;
use crate::curve::UNIT;
use crate::errors::ErrorCode;
use crate::registry::AdminRecord;
use crate::registry::GlobalConfig;

verus! {

/// The minimum balance a creator must hold to launch at all.
pub const LAUNCH_THRESHOLD: u64 = 1_000 * UNIT;

/// The balance at which the discounted veteran fee applies.
pub const VETERAN_THRESHOLD: u64 = 10_000 * UNIT;

/// The launch fee burned from a standard creator.
pub const STANDARD_LAUNCH_FEE: u64 = 100 * UNIT;

/// The discounted launch fee burned from a veteran creator.
pub const VETERAN_LAUNCH_FEE: u64 = 50 * UNIT;

/// The longest launch name accepted, in characters.
pub const MAX_NAME_LEN: usize = 32;

/// The longest launch symbol accepted, in characters.
pub const MAX_SYMBOL_LEN: usize = 10;

/// The longest launch metadata URI accepted, in characters.
pub const MAX_URI_LEN: usize = 200;

/// How a curve came to exist; fixed at creation and carried on the curve
/// for downstream transparency.
#[derive(Clone, Copy, Debug, PartialEq, Eq, Structural)]
pub enum LaunchType {
    /// An ordinary launch that burned the standard fee.
    StandardBurn,
    /// A launch by a veteran-tier holder that burned the discounted fee.
    VeteranBurn,
    /// An admin-sponsored launch that burned no fee.
    SponsoredBootstrap,
    /// A launch made by the deploying authority itself.
    Official,
}

/// What eligibility screening decides for a launch: the fee to destroy and the
/// tier to tag the curve with.
#[derive(Clone, Copy, Debug, PartialEq, Eq, Structural)]
pub struct LaunchPlan {
    /// The amount the host token service must burn before creation proceeds.
    pub fee_to_burn: u64,
    /// The tier recorded on the resulting curve.
    pub tier: LaunchType,
}

/// Screens a standard launch against the creator's balance.
///
/// A balance below [`LAUNCH_THRESHOLD`] is refused outright; a balance at or
/// above [`VETERAN_THRESHOLD`] pays the discounted veteran fee; anything
/// between pays the standard fee.
pub fn evaluate_launch(caps_balance: u64) -> (r: Result<LaunchPlan, ErrorCode>)
    ensures
        caps_balance < LAUNCH_THRESHOLD ==> r == Err::<LaunchPlan, ErrorCode>(
            ErrorCode::InsufficientBalance,
        ),
        caps_balance >= VETERAN_THRESHOLD ==> r == Ok::<LaunchPlan, ErrorCode>(
            LaunchPlan { fee_to_burn: VETERAN_LAUNCH_FEE, tier: LaunchType::VeteranBurn },
        ),
        LAUNCH_THRESHOLD <= caps_balance < VETERAN_THRESHOLD ==> r == Ok::<LaunchPlan, ErrorCode>(
            LaunchPlan { fee_to_burn: STANDARD_LAUNCH_FEE, tier: LaunchType::StandardBurn },
        ),
{
    if caps_balance < LAUNCH_THRESHOLD {
        Err(ErrorCode::InsufficientBalance)
    } else if caps_balance >= VETERAN_THRESHOLD {
        Ok(LaunchPlan { fee_to_burn: VETERAN_LAUNCH_FEE, tier: LaunchType::VeteranBurn })
    } else {
        Ok(LaunchPlan { fee_to_burn: STANDARD_LAUNCH_FEE, tier: LaunchType::StandardBurn })
    }
}

/// Screens a sponsored-bootstrap launch against the sponsor's admin record.
///
/// An active admin sponsors the launch with no balance check and no fee; a
/// deactivated record is refused.
pub fn evaluate_sponsored_launch(admin: &AdminRecord) -> (r: Result<LaunchPlan, ErrorCode>)
    ensures
        !admin.is_active ==> r == Err::<LaunchPlan, ErrorCode>(ErrorCode::InactiveAdmin),
        admin.is_active ==> r == Ok::<LaunchPlan, ErrorCode>(
            LaunchPlan { fee_to_burn: 0, tier: LaunchType::SponsoredBootstrap },
        ),
{
    if admin.is_active {
        Ok(LaunchPlan { fee_to_burn: 0, tier: LaunchType::SponsoredBootstrap })
    } else {
        Err(ErrorCode::InactiveAdmin)
    }
}

/// Validates the descriptive metadata of a launch request.
///
/// Lengths are counted in characters.  The name is checked first, then the
/// symbol, then the URI; the first field over its limit names the error.
pub fn validate_launch_metadata(name: &str, symbol: &str, uri: &str) -> (r: Result<
    (),
    ErrorCode,
>)
    ensures
        name@.len() > MAX_NAME_LEN ==> r == Err::<(), ErrorCode>(ErrorCode::NameTooLong),
        name@.len() <= MAX_NAME_LEN && symbol@.len() > MAX_SYMBOL_LEN ==> r == Err::<(), ErrorCode>(
            ErrorCode::SymbolTooLong,
        ),
        name@.len() <= MAX_NAME_LEN && symbol@.len() <= MAX_SYMBOL_LEN && uri@.len() > MAX_URI_LEN
            ==> r == Err::<(), ErrorCode>(ErrorCode::UriTooLong),
        name@.len() <= MAX_NAME_LEN && symbol@.len() <= MAX_SYMBOL_LEN && uri@.len() <= MAX_URI_LEN
            ==> r == Ok::<(), ErrorCode>(()),
{
    if name.unicode_len() > MAX_NAME_LEN {
        Err(ErrorCode::NameTooLong)
    } else if symbol.unicode_len() > MAX_SYMBOL_LEN {
        Err(ErrorCode::SymbolTooLong)
    } else if uri.unicode_len() > MAX_URI_LEN {
        Err(ErrorCode::UriTooLong)
    } else {
        Ok(())
    }
}

/// All three metadata fields are within their limits.
pub open spec fn spec_metadata_ok(name: Seq<char>, symbol: Seq<char>, uri: Seq<char>) -> bool {
    name.len() <= MAX_NAME_LEN && symbol.len() <= MAX_SYMBOL_LEN && uri.len() <= MAX_URI_LEN
}

/// The eligibility decision for a launch request: the sponsored path when an
/// admin record is presented, the balance-tiered path otherwise.
pub open spec fn spec_launch_plan(caps_balance: u64, sponsor: Option<AdminRecord>) -> Result<
    LaunchPlan,
    ErrorCode,
> {
    match sponsor {
        Option::Some(admin) => if admin.is_active {
            Ok(LaunchPlan { fee_to_burn: 0, tier: LaunchType::SponsoredBootstrap })
        } else {
            Err(ErrorCode::InactiveAdmin)
        },
        Option::None => if caps_balance < LAUNCH_THRESHOLD {
            Err(ErrorCode::InsufficientBalance)
        } else if caps_balance >= VETERAN_THRESHOLD {
            Ok(LaunchPlan { fee_to_burn: VETERAN_LAUNCH_FEE, tier: LaunchType::VeteranBurn })
        } else {
            Ok(LaunchPlan { fee_to_burn: STANDARD_LAUNCH_FEE, tier: LaunchType::StandardBurn })
        },
    }
}

/// The sponsor of an exec-level call, lifted by value.
pub open spec fn spec_sponsor_of(sponsor: Option<&AdminRecord>) -> Option<AdminRecord> {
    match sponsor {
        Option::Some(admin) => Option::Some(*admin),
        Option::None => Option::None,
    }
}

/// The whole launch operation: validates the metadata, screens the request,
/// counts the launch in the global registry, and creates the curve.
///
/// The caller's host then burns `fee_to_burn` of the returned plan and mints
/// the asset's total supply into the curve's vault; a launch that fails here
/// leaves the registry untouched, and the checks run in a fixed order --
/// metadata first, then eligibility, then the counters -- so the error names
/// the first rule the request broke.
pub fn launch(
    global: &mut GlobalConfig,
    name: &str,
    symbol: &str,
    uri: &str,
    creator: [u8; 32],
    asset_id: [u8; 32],
    caps_balance: u64,
    sponsor: Option<&AdminRecord>,
    now: i64,
) -> (r: Result<(BondingCurve, LaunchPlan), ErrorCode>)
    ensures
        final(global).volume_total == old(global).volume_total,
        final(global).authority@ == old(global).authority@,
        final(global).treasury_address@ == old(global).treasury_address@,
        final(global).fee_asset_id@ == old(global).fee_asset_id@,
        r is Err ==> *final(global) == *old(global),
        name@.len() > MAX_NAME_LEN ==> r == Err::<(BondingCurve, LaunchPlan), ErrorCode>(
            ErrorCode::NameTooLong,
        ),
        name@.len() <= MAX_NAME_LEN && symbol@.len() > MAX_SYMBOL_LEN ==> r == Err::<
            (BondingCurve, LaunchPlan),
            ErrorCode,
        >(ErrorCode::SymbolTooLong),
        name@.len() <= MAX_NAME_LEN && symbol@.len() <= MAX_SYMBOL_LEN && uri@.len() > MAX_URI_LEN
            ==> r == Err::<(BondingCurve, LaunchPlan), ErrorCode>(ErrorCode::UriTooLong),
        ({
            let plan_r = spec_launch_plan(caps_balance, spec_sponsor_of(sponsor));
            let meta_ok = spec_metadata_ok(name@, symbol@, uri@);
            &&& (meta_ok && plan_r is Err ==> r == Err::<(BondingCurve, LaunchPlan), ErrorCode>(
                plan_r->Err_0,
            ))
            &&& (meta_ok && plan_r is Ok ==> {
                let plan = plan_r->Ok_0;
                let overflow = old(global).tokens_launched == u64::MAX || old(global).fees_burned
                    + plan.fee_to_burn > u64::MAX || (plan.tier == LaunchType::SponsoredBootstrap
                    && old(global).admin_bootstrap_launches == u64::MAX);
                &&& (overflow ==> r == Err::<(BondingCurve, LaunchPlan), ErrorCode>(
                    ErrorCode::ArithmeticOverflow,
                ))
                &&& (!overflow ==> {
                    &&& r is Ok
                    &&& r->Ok_0.1 == plan
                    &&& r->Ok_0.0.wf()
                    &&& !r->Ok_0.0.is_graduated()
                    &&& r->Ok_0.0.creator@ == creator@
                    &&& r->Ok_0.0.asset_id@ == asset_id@
                    &&& r->Ok_0.0.sol_reserve == 0
                    &&& r->Ok_0.0.token_reserve == CURVE_SUPPLY
                    &&& r->Ok_0.0.created_at == now
                    &&& r->Ok_0.0.launch_type == plan.tier
                    &&& final(global).tokens_launched == old(global).tokens_launched + 1
                    &&& final(global).fees_burned == old(global).fees_burned + plan.fee_to_burn
                    &&& final(global).admin_bootstrap_launches == if plan.tier
                        == LaunchType::SponsoredBootstrap {
                        old(global).admin_bootstrap_launches + 1
                    } else {
                        old(global).admin_bootstrap_launches as int
                    }
                })
            })
        }),
{
    match validate_launch_metadata(name, symbol, uri) {
        Ok(_) => {},
        Err(e) => {
            return Err(e);
        },
    }
    let plan_r = match sponsor {
        Option::Some(admin) => evaluate_sponsored_launch(admin),
        Option::None => evaluate_launch(caps_balance),
    };
    let plan = match plan_r {
        Ok(plan) => plan,
        Err(e) => {
            return Err(e);
        },
    };
    match global.record_launch(plan.tier, plan.fee_to_burn) {
        Ok(_) => {},
        Err(e) => {
            return Err(e);
        },
    }
    let curve = BondingCurve::create(creator, asset_id, plan.tier, now);
    Ok((curve, plan))
}

} // verus!
