//! A single airdrop entitlement: an authority records an amount once, and
//! that amount can be claimed exactly once, moving it from the authority's
//! balance to a recipient's balance.

pub mod identity;
pub mod record;
pub mod manager;
pub mod layout;

pub use identity::Identity;
pub use record::{Airdrop, ErrorCode};
pub use manager::{claim, initialize, transfer, Claim, Initialize};
