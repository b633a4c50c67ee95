use vstd::prelude::*;
use crate::identity::Identity;

verus! {

/// Why an operation on an airdrop was refused.
#[derive(Clone, Copy, Debug, PartialEq, Eq)]
pub enum ErrorCode {
    /// The caller is not the authority stored in the record.
    Unauthorized,
    /// The record has been claimed before.
    AlreadyClaimed,
    /// The authority's balance does not cover the amount.
    InsufficientFunds,
}

/// The persisted entitlement: who may claim it, how much it moves, and
/// whether it has been claimed.
#[derive(Clone, Copy, Debug, PartialEq, Eq)]
pub struct Airdrop {
    pub authority: Identity,
    pub amount: u64,
    pub claimed: bool,
}

} // verus!
