//! A verified core for a Bitcoin 2-of-3 escrow scheme.
//!
//! A seller locks funds into a 2-of-3 multisignature output; buyer and
//! seller cooperate on the happy path, and an arbiter breaks ties on
//! disputes.  The library builds the spending-condition descriptor for
//! the three participants and plans the four unsigned transaction
//! templates of the escrow lifecycle (funding, release, refund,
//! dispute release), with exact integer amount arithmetic.

pub mod amount;
pub mod escrow_policy;
pub mod escrow_tx;
