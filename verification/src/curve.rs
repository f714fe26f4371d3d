//! The bonding-curve exchange engine.
//!
//! Each launched asset owns one [`BondingCurve`] record.  Buys and sells are
//! priced by a constant-product rule over a virtual reserve: the real
//! currency reserve is inflated by a fixed phantom offset so that the curve
//! quotes a finite price from its very first trade, without any seed capital.
//! Once the real reserve reaches the graduation threshold the curve can be
//! frozen, which pays the creator a one-time bonus and refuses all further
//! trading.

use vstd::prelude::*;

use crate::errors::ErrorCode;
use crate::launch::LaunchType;
use crate::registry::GlobalConfig;

verus! {

/// One whole unit of a 9-decimal fixed-point balance.
pub const UNIT: u64 = 1_000_000_000;

/// The tradable pool placed on every new curve: 800 million tokens.
pub const CURVE_SUPPLY: u64 = 800_000_000 * UNIT;

/// The full supply minted to the curve's vault at creation: 1 billion tokens.
pub const TOTAL_SUPPLY: u64 = 1_000_000_000 * UNIT;

/// The phantom balance added to the real reserve when pricing a trade.
pub const VIRTUAL_SOL_OFFSET: u64 = 30 * UNIT;

/// The real reserve at which a curve becomes eligible to graduate.
pub const GRADUATION_THRESHOLD: u64 = 85 * UNIT;

/// The fee taken from every trade, in basis points (1%).
pub const FEE_BPS: u64 = 100;

/// The number of basis points in the whole.
pub const BPS_DENOMINATOR: u64 = 10_000;

/// The share of the real reserve paid to the creator at graduation, percent.
pub const CREATOR_BONUS_PERCENT: u64 = 7;

/// The fee charged on a trade of `amount`: `floor(amount * FEE_BPS / 10000)`.
pub open spec fn spec_trade_fee(amount: u64) -> int {
    amount * FEE_BPS / (BPS_DENOMINATOR as int)
}

/// The fee withheld from a trade of `amount`, exactly one percent rounded
/// down.
pub fn trade_fee(amount: u64) -> (fee: u64)
    ensures
        fee == spec_trade_fee(amount),
        fee <= amount,
{
    proof {
        lemma_trade_fee_le_amount(amount);
    }
    let wide: u128 = (amount as u128) * (FEE_BPS as u128) / (BPS_DENOMINATOR as u128);
    wide as u64
}

/// The fee on a trade never exceeds the trade itself.
pub proof fn lemma_trade_fee_le_amount(amount: u64)
    ensures
        0 <= spec_trade_fee(amount) <= amount,
{
    assert(0 <= amount * FEE_BPS / (BPS_DENOMINATOR as int) <= amount) by (nonlinear_arith)
        requires
            FEE_BPS == 100,
            BPS_DENOMINATOR == 10_000,
            amount >= 0,
    ;
}

/// The token reserve left after a buy: the invariant product
/// `virtual_sol * token_reserve`, divided (rounding down) by the virtual
/// reserve grown by the net payment.
pub open spec fn spec_buy_new_token_reserve(
    virtual_sol: int,
    token_reserve: int,
    net_in: int,
) -> int {
    (virtual_sol * token_reserve) / (virtual_sol + net_in)
}

/// The virtual reserve left after a sell: the invariant product
/// `virtual_sol * token_reserve`, divided (rounding down) by the token
/// reserve grown by the tokens returned.
pub open spec fn spec_sell_new_virtual_sol(
    virtual_sol: int,
    token_reserve: int,
    tokens_in: int,
) -> int {
    (virtual_sol * token_reserve) / (token_reserve + tokens_in)
}

/// Prices a buy: given the virtual reserve and the token reserve before the
/// trade and the net payment, returns the new token reserve and the tokens
/// released to the buyer.
pub fn buy_quote(virtual_sol: u64, token_reserve: u64, net_in: u64) -> (r: (u64, u64))
    requires
        virtual_sol > 0,
        virtual_sol + net_in <= u64::MAX,
    ensures
        r.0 == spec_buy_new_token_reserve(virtual_sol as int, token_reserve as int, net_in as int),
        r.0 <= token_reserve,
        r.1 == token_reserve - r.0,
{
    proof {
        lemma_u64_product_fits_u128(virtual_sol, token_reserve);
    }
    let k: u128 = (virtual_sol as u128) * (token_reserve as u128);
    let new_virtual_sol: u64 = virtual_sol + net_in;
    let new_reserve_wide: u128 = k / (new_virtual_sol as u128);
    proof {
        vstd::arithmetic::div_mod::lemma_div_is_ordered_by_denominator(
            k as int,
            virtual_sol as int,
            new_virtual_sol as int,
        );
        vstd::arithmetic::div_mod::lemma_div_multiples_vanish(
            token_reserve as int,
            virtual_sol as int,
        );
    }
    let new_token_reserve: u64 = new_reserve_wide as u64;
    (new_token_reserve, token_reserve - new_token_reserve)
}

/// Prices a sell: given the virtual reserve, the token reserve and the real
/// reserve before the trade and the tokens returned, yields the new virtual
/// reserve and the gross payout, the latter clamped to the real reserve so
/// that the phantom offset can never drain currency the curve does not hold.
pub fn sell_quote(virtual_sol: u64, token_reserve: u64, tokens_in: u64, sol_reserve: u64) -> (r: (
    u64,
    u64,
))
    requires
        tokens_in > 0,
        token_reserve + tokens_in <= u64::MAX,
    ensures
        r.0 == spec_sell_new_virtual_sol(
            virtual_sol as int,
            token_reserve as int,
            tokens_in as int,
        ),
        r.0 <= virtual_sol,
        r.1 == if virtual_sol - r.0 > sol_reserve {
            sol_reserve as int
        } else {
            virtual_sol - r.0
        },
        r.1 <= sol_reserve,
{
    proof {
        lemma_u64_product_fits_u128(virtual_sol, token_reserve);
    }
    let k: u128 = (virtual_sol as u128) * (token_reserve as u128);
    let new_token_reserve: u64 = token_reserve + tokens_in;
    let new_virtual_wide: u128 = k / (new_token_reserve as u128);
    proof {
        vstd::arithmetic::mul::lemma_mul_is_commutative(virtual_sol as int, token_reserve as int);
        if token_reserve > 0 {
            vstd::arithmetic::div_mod::lemma_div_is_ordered_by_denominator(
                k as int,
                token_reserve as int,
                new_token_reserve as int,
            );
            vstd::arithmetic::div_mod::lemma_div_multiples_vanish(
                virtual_sol as int,
                token_reserve as int,
            );
        } else {
            vstd::arithmetic::div_mod::lemma_div_of0(new_token_reserve as int);
        }
    }
    let new_virtual_sol: u64 = new_virtual_wide as u64;
    let gross: u64 = virtual_sol - new_virtual_sol;
    if gross > sol_reserve {
        (new_virtual_sol, sol_reserve)
    } else {
        (new_virtual_sol, gross)
    }
}

/// The product of two 64-bit values fits in 128 bits.
proof fn lemma_u64_product_fits_u128(x: u64, y: u64)
    ensures
        x * y <= u128::MAX,
{
    assert(x * y <= u128::MAX) by (nonlinear_arith)
        requires
            0 <= x <= u64::MAX,
            0 <= y <= u64::MAX,
    ;
}

/// The constant-product law for buys, modulo one floor operation: the new
/// virtual reserve times the new token reserve never exceeds the invariant
/// product of the reserves before the trade, and falls short of it by less
/// than one unit of the new virtual reserve.  Together with the buy
/// contract's equation `tokens_out == token_reserve - new_token_reserve`,
/// this pins the product before the trade against the product after it.
pub proof fn lemma_buy_constant_product(virtual_sol: u64, token_reserve: u64, net_in: u64)
    requires
        virtual_sol > 0,
        virtual_sol + net_in <= u64::MAX,
    ensures
        ({
            let k = virtual_sol * token_reserve;
            let new_virtual_sol = virtual_sol + net_in;
            let new_token_reserve = spec_buy_new_token_reserve(
                virtual_sol as int,
                token_reserve as int,
                net_in as int,
            );
            new_virtual_sol * new_token_reserve <= k < new_virtual_sol * (new_token_reserve + 1)
        }),
{
    let k = virtual_sol * token_reserve;
    let new_virtual_sol = virtual_sol + net_in;
    let q = k / new_virtual_sol;
    vstd::arithmetic::div_mod::lemma_fundamental_div_mod(k, new_virtual_sol);
    vstd::arithmetic::div_mod::lemma_remainder(k, new_virtual_sol);
    assert(new_virtual_sol * q <= k < new_virtual_sol * (q + 1)) by (nonlinear_arith)
        requires
            k == new_virtual_sol * q + (k % new_virtual_sol),
            0 <= k - (k / new_virtual_sol * new_virtual_sol) < new_virtual_sol,
            q == k / new_virtual_sol,
    ;
}

/// A curve's lifecycle: actively trading, or frozen for good.
///
/// Graduation is the only transition and it is terminal; the variant carries
/// the one-time creator bonus and the moment the curve froze, so the payload
/// exists exactly when the state does.
#[derive(Clone, Copy, Debug, PartialEq, Eq, Structural)]
pub enum CurveStatus {
    /// The curve accepts buys and sells.
    Active,
    /// The curve is frozen; no trade will ever be accepted again.
    Graduated {
        /// The bonus paid to the creator out of the real reserve.
        bonus_paid: u64,
        /// When the curve graduated.
        graduated_at: i64,
    },
}

/// One launched asset's curve record: the engine is its sole mutator.
pub struct BondingCurve {
    /// Who launched the asset.
    pub creator: [u8; 32],
    /// The asset this curve trades; immutable key of the record.
    pub asset_id: [u8; 32],
    /// The real currency custody backing sells, in base units.
    pub sol_reserve: u64,
    /// The tokens still held by the curve, in base units.
    pub token_reserve: u64,
    /// Active, or graduated with the bonus and timestamp of the freeze.
    pub status: CurveStatus,
    /// When the curve was created.
    pub created_at: i64,
    /// Which launch path created the curve.
    pub launch_type: LaunchType,
}

/// What a successful buy hands back to the caller.
#[derive(Clone, Copy, Debug, PartialEq, Eq, Structural)]
pub struct BuyOutcome {
    /// Tokens released from the curve's vault to the buyer.
    pub tokens_out: u64,
    /// The part of the payment sent to the treasury.
    pub fee: u64,
    /// The part of the payment added to the curve's real reserve.
    pub net_in: u64,
    /// Whether this buy pushed the real reserve across the graduation
    /// threshold for the first time; a signal only, no state change.
    pub ready_to_graduate: bool,
}

/// What a successful sell hands back to the caller.
#[derive(Clone, Copy, Debug, PartialEq, Eq, Structural)]
pub struct SellOutcome {
    /// The total drawn from the curve's real reserve.
    pub gross_out: u64,
    /// The part of the gross sent to the treasury.
    pub fee: u64,
    /// The part of the gross paid to the seller.
    pub sol_out: u64,
}

impl BondingCurve {
    /// The record's invariant: the curve never holds more than the tradable
    /// pool it started with.
    pub open spec fn wf(self) -> bool {
        self.token_reserve <= CURVE_SUPPLY
    }

    /// Whether the terminal transition has happened.
    pub open spec fn is_graduated(self) -> bool {
        !(self.status is Active)
    }

    /// The phantom-inflated reserve the pricing rule works on.
    pub open spec fn spec_virtual_sol(self) -> int {
        self.sol_reserve + VIRTUAL_SOL_OFFSET
    }

    /// Whether the curve has graduated and refuses further trading.
    pub fn graduated(&self) -> (r: bool)
        ensures
            r == self.is_graduated(),
    {
        match self.status {
            CurveStatus::Active => false,
            CurveStatus::Graduated { .. } => true,
        }
    }

    /// Creates a curve for a newly launched asset: the full tradable pool in
    /// the vault, an empty real reserve, and trading open.
    pub fn create(creator: [u8; 32], asset_id: [u8; 32], launch_type: LaunchType, now: i64) -> (c:
        BondingCurve)
        ensures
            c.wf(),
            !c.is_graduated(),
            c.creator@ == creator@,
            c.asset_id@ == asset_id@,
            c.sol_reserve == 0,
            c.token_reserve == CURVE_SUPPLY,
            c.created_at == now,
            c.launch_type == launch_type,
    {
        BondingCurve {
            creator,
            asset_id,
            sol_reserve: 0,
            token_reserve: CURVE_SUPPLY,
            status: CurveStatus::Active,
            created_at: now,
            launch_type,
        }
    }

    /// Buys tokens from the curve for `sol_in` base units of currency.
    ///
    /// One percent of the payment is withheld as the treasury fee; the rest
    /// moves the virtual reserve, and the token reserve falls to keep the
    /// invariant product, rounding in the curve's favour.  The whole
    /// operation commits or nothing does: every rejection leaves the curve
    /// and the global counters exactly as they were.  The pricing step can
    /// never release more than the curve holds, so the insufficient-
    /// liquidity guard inside the body is provably never taken.
    pub fn buy(&mut self, global: &mut GlobalConfig, sol_in: u64, min_tokens_out: u64) -> (r:
        Result<BuyOutcome, ErrorCode>)
        requires
            old(self).wf(),
        ensures
            final(self).wf(),
            final(self).status == old(self).status,
            final(self).creator@ == old(self).creator@,
            final(self).asset_id@ == old(self).asset_id@,
            final(self).created_at == old(self).created_at,
            final(self).launch_type == old(self).launch_type,
            final(global).tokens_launched == old(global).tokens_launched,
            final(global).fees_burned == old(global).fees_burned,
            final(global).admin_bootstrap_launches == old(global).admin_bootstrap_launches,
            final(global).authority@ == old(global).authority@,
            final(global).treasury_address@ == old(global).treasury_address@,
            final(global).fee_asset_id@ == old(global).fee_asset_id@,
            r is Err ==> *final(self) == *old(self) && *final(global) == *old(global),
            old(self).is_graduated() ==> r == Err::<BuyOutcome, ErrorCode>(
                ErrorCode::TokenGraduated,
            ),
            !old(self).is_graduated() && sol_in == 0 ==> r == Err::<BuyOutcome, ErrorCode>(
                ErrorCode::ZeroAmount,
            ),
            ({
                let fee = spec_trade_fee(sol_in);
                let net_in = sol_in - fee;
                let vs0 = old(self).spec_virtual_sol();
                let new_tr = spec_buy_new_token_reserve(
                    vs0,
                    old(self).token_reserve as int,
                    net_in,
                );
                let tokens_out = old(self).token_reserve - new_tr;
                let tradable = !old(self).is_graduated() && sol_in > 0;
                &&& (tradable && vs0 + net_in > u64::MAX ==> r == Err::<BuyOutcome, ErrorCode>(
                    ErrorCode::ArithmeticOverflow,
                ))
                &&& (tradable && vs0 + net_in <= u64::MAX && tokens_out < min_tokens_out ==> r
                    == Err::<BuyOutcome, ErrorCode>(ErrorCode::SlippageExceeded))
                &&& (tradable && vs0 + net_in <= u64::MAX && tokens_out >= min_tokens_out && old(
                    global,
                ).volume_total + sol_in > u64::MAX ==> r == Err::<BuyOutcome, ErrorCode>(
                    ErrorCode::ArithmeticOverflow,
                ))
                &&& (tradable && vs0 + net_in <= u64::MAX && tokens_out >= min_tokens_out && old(
                    global,
                ).volume_total + sol_in <= u64::MAX ==> {
                    &&& r == Ok::<BuyOutcome, ErrorCode>(
                        (BuyOutcome {
                            tokens_out: tokens_out as u64,
                            fee: fee as u64,
                            net_in: net_in as u64,
                            ready_to_graduate: old(self).sol_reserve < GRADUATION_THRESHOLD && old(
                                self,
                            ).sol_reserve + net_in >= GRADUATION_THRESHOLD,
                        }),
                    )
                    &&& final(self).sol_reserve == old(self).sol_reserve + net_in
                    &&& final(self).token_reserve == new_tr
                    &&& final(global).volume_total == old(global).volume_total + sol_in
                })
            }),
    {
        if self.graduated() {
            return Err(ErrorCode::TokenGraduated);
        }
        if sol_in == 0 {
            return Err(ErrorCode::ZeroAmount);
        }
        let fee = trade_fee(sol_in);
        let net_in = sol_in - fee;
        let virtual_sol = match self.sol_reserve.checked_add(VIRTUAL_SOL_OFFSET) {
            Some(v) => v,
            None => {
                return Err(ErrorCode::ArithmeticOverflow);
            },
        };
        let new_virtual_sol = match virtual_sol.checked_add(net_in) {
            Some(v) => v,
            None => {
                return Err(ErrorCode::ArithmeticOverflow);
            },
        };
        let (new_token_reserve, tokens_out) = buy_quote(virtual_sol, self.token_reserve, net_in);
        if tokens_out < min_tokens_out {
            return Err(ErrorCode::SlippageExceeded);
        }
        if tokens_out > self.token_reserve {
            return Err(ErrorCode::InsufficientLiquidity);
        }
        let new_volume = match global.volume_total.checked_add(sol_in) {
            Some(v) => v,
            None => {
                return Err(ErrorCode::ArithmeticOverflow);
            },
        };
        let new_sol_reserve = new_virtual_sol - VIRTUAL_SOL_OFFSET;
        let ready_to_graduate = self.sol_reserve < GRADUATION_THRESHOLD && new_sol_reserve
            >= GRADUATION_THRESHOLD;
        self.sol_reserve = new_sol_reserve;
        self.token_reserve = new_token_reserve;
        global.volume_total = new_volume;
        Ok(BuyOutcome { tokens_out, fee, net_in, ready_to_graduate })
    }

    /// Sells `tokens_in` base units of tokens back to the curve.
    ///
    /// The token reserve grows by the returned tokens and the virtual
    /// reserve falls to keep the invariant product; the gross payout is
    /// clamped to the real reserve, so the phantom offset can never drain
    /// currency the curve does not hold.  One percent of the gross is
    /// withheld as the treasury fee.  A sell returning more tokens than are
    /// in circulation is refused: the curve's vault plus circulation always
    /// equals the tradable pool, so such tokens cannot exist.  Every
    /// rejection leaves the curve exactly as it was.
    pub fn sell(&mut self, tokens_in: u64, min_sol_out: u64) -> (r: Result<SellOutcome, ErrorCode>)
        requires
            old(self).wf(),
        ensures
            final(self).wf(),
            final(self).status == old(self).status,
            final(self).creator@ == old(self).creator@,
            final(self).asset_id@ == old(self).asset_id@,
            final(self).created_at == old(self).created_at,
            final(self).launch_type == old(self).launch_type,
            r is Err ==> *final(self) == *old(self),
            old(self).is_graduated() ==> r == Err::<SellOutcome, ErrorCode>(
                ErrorCode::TokenGraduated,
            ),
            !old(self).is_graduated() && tokens_in == 0 ==> r == Err::<SellOutcome, ErrorCode>(
                ErrorCode::ZeroAmount,
            ),
            !old(self).is_graduated() && tokens_in > 0 && old(self).token_reserve + tokens_in
                > CURVE_SUPPLY ==> r == Err::<SellOutcome, ErrorCode>(
                ErrorCode::InsufficientLiquidity,
            ),
            ({
                let vs0 = old(self).spec_virtual_sol();
                let new_vs = spec_sell_new_virtual_sol(
                    vs0,
                    old(self).token_reserve as int,
                    tokens_in as int,
                );
                let gross = if vs0 - new_vs > old(self).sol_reserve {
                    old(self).sol_reserve as int
                } else {
                    vs0 - new_vs
                };
                let fee = spec_trade_fee(gross as u64);
                let sol_out = gross - fee;
                let tradable = !old(self).is_graduated() && tokens_in > 0 && old(
                    self,
                ).token_reserve + tokens_in <= CURVE_SUPPLY;
                &&& (tradable && vs0 > u64::MAX ==> r == Err::<SellOutcome, ErrorCode>(
                    ErrorCode::ArithmeticOverflow,
                ))
                &&& (tradable && vs0 <= u64::MAX && sol_out < min_sol_out ==> r == Err::<
                    SellOutcome,
                    ErrorCode,
                >(ErrorCode::SlippageExceeded))
                &&& (tradable && vs0 <= u64::MAX && sol_out >= min_sol_out ==> {
                    &&& r == Ok::<SellOutcome, ErrorCode>(
                        (SellOutcome {
                            gross_out: gross as u64,
                            fee: fee as u64,
                            sol_out: sol_out as u64,
                        }),
                    )
                    &&& final(self).sol_reserve == old(self).sol_reserve - gross
                    &&& final(self).token_reserve == old(self).token_reserve + tokens_in
                })
            }),
    {
        if self.graduated() {
            return Err(ErrorCode::TokenGraduated);
        }
        if tokens_in == 0 {
            return Err(ErrorCode::ZeroAmount);
        }
        if tokens_in > CURVE_SUPPLY - self.token_reserve {
            return Err(ErrorCode::InsufficientLiquidity);
        }
        let virtual_sol = match self.sol_reserve.checked_add(VIRTUAL_SOL_OFFSET) {
            Some(v) => v,
            None => {
                return Err(ErrorCode::ArithmeticOverflow);
            },
        };
        let (new_virtual_sol, gross_out) = sell_quote(
            virtual_sol,
            self.token_reserve,
            tokens_in,
            self.sol_reserve,
        );
        let fee = trade_fee(gross_out);
        let sol_out = gross_out - fee;
        if sol_out < min_sol_out {
            return Err(ErrorCode::SlippageExceeded);
        }
        self.sol_reserve = self.sol_reserve - gross_out;
        self.token_reserve = self.token_reserve + tokens_in;
        Ok(SellOutcome { gross_out, fee, sol_out })
    }

    /// Freezes a curve whose real reserve has reached the graduation
    /// threshold, paying the creator a seven-percent bonus out of the
    /// reserve.  This is the one-way terminal transition: afterwards every
    /// buy, sell and further graduation is refused.
    pub fn graduate(&mut self, now: i64) -> (r: Result<u64, ErrorCode>)
        requires
            old(self).wf(),
        ensures
            final(self).wf(),
            final(self).creator@ == old(self).creator@,
            final(self).asset_id@ == old(self).asset_id@,
            final(self).created_at == old(self).created_at,
            final(self).launch_type == old(self).launch_type,
            final(self).token_reserve == old(self).token_reserve,
            r is Err ==> *final(self) == *old(self),
            old(self).is_graduated() ==> r == Err::<u64, ErrorCode>(ErrorCode::AlreadyGraduated),
            !old(self).is_graduated() && old(self).sol_reserve < GRADUATION_THRESHOLD ==> r
                == Err::<u64, ErrorCode>(ErrorCode::NotReadyToGraduate),
            !old(self).is_graduated() && old(self).sol_reserve >= GRADUATION_THRESHOLD ==> {
                &&& r == Ok::<u64, ErrorCode>((spec_creator_bonus(old(self).sol_reserve) as u64))
                &&& final(self).sol_reserve == old(self).sol_reserve - spec_creator_bonus(
                    old(self).sol_reserve,
                )
                &&& final(self).status == (CurveStatus::Graduated {
                    bonus_paid: spec_creator_bonus(old(self).sol_reserve) as u64,
                    graduated_at: now,
                })
            },
    {
        if self.graduated() {
            return Err(ErrorCode::AlreadyGraduated);
        }
        if self.sol_reserve < GRADUATION_THRESHOLD {
            return Err(ErrorCode::NotReadyToGraduate);
        }
        proof {
            lemma_creator_bonus_le_reserve(self.sol_reserve);
        }
        let wide: u128 = (self.sol_reserve as u128) * (CREATOR_BONUS_PERCENT as u128) / 100;
        let bonus = wide as u64;
        self.sol_reserve = self.sol_reserve - bonus;
        self.status = CurveStatus::Graduated { bonus_paid: bonus, graduated_at: now };
        Ok(bonus)
    }
}

/// Reserve bounds for every reachable curve state: a curve is created well
/// formed, and buy, sell and graduate each ensure well-formedness of the
/// state they leave behind, so by induction any sequence of trades keeps the
/// token reserve within `[0, CURVE_SUPPLY]`.
pub proof fn lemma_token_reserve_bounded(c: BondingCurve)
    requires
        c.wf(),
    ensures
        0 <= c.token_reserve <= CURVE_SUPPLY,
{
}

/// The creator's graduation bonus: seven percent of the real reserve,
/// rounded down.
pub open spec fn spec_creator_bonus(sol_reserve: u64) -> int {
    sol_reserve * CREATOR_BONUS_PERCENT / 100
}

/// The graduation bonus never exceeds the reserve it is paid from.
pub proof fn lemma_creator_bonus_le_reserve(sol_reserve: u64)
    ensures
        0 <= spec_creator_bonus(sol_reserve) <= sol_reserve,
{
    assert(0 <= sol_reserve * CREATOR_BONUS_PERCENT / 100 <= sol_reserve) by (nonlinear_arith)
        requires
            CREATOR_BONUS_PERCENT == 7,
            sol_reserve >= 0,
    ;
}

/// The constant-product law stated over the curve states of a successful
/// buy: with `pre` and `post` related exactly as the buy contract's
/// equations relate the old and the new curve, the virtual reserve times
/// the token reserve after the trade equals the product before it, up to
/// the single floor operation of the pricing step.
pub proof fn lemma_buy_preserves_product(pre: BondingCurve, post: BondingCurve, net_in: u64)
    requires
        pre.spec_virtual_sol() + net_in <= u64::MAX,
        post.sol_reserve == pre.sol_reserve + net_in,
        post.token_reserve == spec_buy_new_token_reserve(
            pre.spec_virtual_sol(),
            pre.token_reserve as int,
            net_in as int,
        ),
    ensures
        post.spec_virtual_sol() * post.token_reserve <= pre.spec_virtual_sol()
            * pre.token_reserve,
        pre.spec_virtual_sol() * pre.token_reserve < post.spec_virtual_sol() * (
        post.token_reserve + 1),
{
    let vs0 = (pre.sol_reserve + VIRTUAL_SOL_OFFSET) as u64;
    lemma_buy_constant_product(vs0, pre.token_reserve, net_in);
}

/// The same law for sells: the new virtual reserve is the floor of the
/// invariant product over the grown token reserve.
pub proof fn lemma_sell_constant_product(virtual_sol: u64, token_reserve: u64, tokens_in: u64)
    requires
        tokens_in > 0,
        token_reserve + tokens_in <= u64::MAX,
    ensures
        ({
            let k = virtual_sol * token_reserve;
            let new_token_reserve = token_reserve + tokens_in;
            let new_virtual_sol = spec_sell_new_virtual_sol(
                virtual_sol as int,
                token_reserve as int,
                tokens_in as int,
            );
            new_token_reserve * new_virtual_sol <= k < new_token_reserve * (new_virtual_sol + 1)
        }),
{
    let k = virtual_sol * token_reserve;
    let new_token_reserve = token_reserve + tokens_in;
    let q = k / new_token_reserve;
    vstd::arithmetic::mul::lemma_mul_is_commutative(virtual_sol as int, token_reserve as int);
    vstd::arithmetic::div_mod::lemma_fundamental_div_mod(k, new_token_reserve);
    vstd::arithmetic::div_mod::lemma_remainder(k, new_token_reserve);
    assert(new_token_reserve * q <= k < new_token_reserve * (q + 1)) by (nonlinear_arith)
        requires
            k == new_token_reserve * q + (k % new_token_reserve),
            0 <= k - (k / new_token_reserve * new_token_reserve) < new_token_reserve,
            q == k / new_token_reserve,
    ;
}

} // verus!
