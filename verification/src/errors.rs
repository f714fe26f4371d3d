//! The failure taxonomy shared by every operation of the engine.

use vstd::prelude::*;

verus! {

/// Every way an operation of the engine can fail.
///
/// Validation errors reject malformed inputs, economic errors reject trades
/// the curve cannot honour, authorization errors reject callers without the
/// required standing, the `Ed25519`-named errors reject a claim whose
/// companion signature-verification record is absent, foreign or mismatched,
/// and `ArithmeticOverflow` aborts any operation whose checked arithmetic
/// would wrap.
#[derive(Clone, Copy, Debug, PartialEq, Eq, Structural)]
pub enum ErrorCode {
    /// A launch name longer than 32 characters.
    NameTooLong,
    /// A launch symbol longer than 10 characters.
    SymbolTooLong,
    /// A launch metadata URI longer than 200 characters.
    UriTooLong,
    /// A buy of zero payment or a sell of zero tokens.
    ZeroAmount,
    /// A trade returning less than the caller's stated minimum.
    SlippageExceeded,
    /// A trade the curve's reserves cannot cover.
    InsufficientLiquidity,
    /// A buy or sell against a curve that has already graduated.
    TokenGraduated,
    /// A graduation of a curve that has already graduated.
    AlreadyGraduated,
    /// A graduation before the reserve threshold is reached.
    NotReadyToGraduate,
    /// An administrative action by a caller other than the authority.
    NotAuthority,
    /// A sponsored launch presented by a deactivated admin.
    InactiveAdmin,
    /// A launch by a caller whose balance is below the launch threshold.
    InsufficientBalance,
    /// No companion signature-verification record accompanied the claim.
    NoEd25519Ix,
    /// The companion record was produced by some other facility.
    InvalidEd25519Program,
    /// The companion record's binary layout is malformed.
    InvalidEd25519Data,
    /// The embedded public key differs from the expected server key.
    WrongPubkey,
    /// The embedded signature differs from the voucher's signature.
    WrongSignature,
    /// The embedded message differs from the voucher's canonical bytes.
    WrongMessage,
    /// A voucher whose loot id has already been redeemed.
    LootAlreadyClaimed,
    /// A checked arithmetic operation would overflow.
    ArithmeticOverflow,
}

} // verus!
