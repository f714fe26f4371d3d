//! Ledger-resident token launch and exchange engine.
//!
//! Creators launch assets into a bonding curve, traders buy and sell against
//! it at an automatically adjusting constant-product price, and a signed
//! voucher check authorizes one-time mints of unique collectible assets.
//! Every public operation is specified exactly: which inputs succeed, which
//! error each rejected input produces, and how the reserves and counters
//! change.  The host ledger's transfer, mint and burn primitives are external
//! collaborators; this crate holds the economic state machine and the
//! verification protocol that sit on top of them.

pub mod bytes;
pub mod claim;
pub mod curve;
pub mod errors;
pub mod launch;
pub mod registry;
pub mod voucher;
