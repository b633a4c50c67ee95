use vstd::prelude::*;
use crate::identity::Identity;
use crate::record::{Airdrop, ErrorCode};

verus! {

/// The accounts of an `initialize` call: the freshly allocated record and
/// the authenticated identity that pays for it.
#[derive(Clone, Copy, Debug, PartialEq, Eq)]
pub struct Initialize {
    pub airdrop: Airdrop,
    pub authority: Identity,
}

/// The accounts of a `claim` call: the record, the authenticated caller,
/// and the balances of the caller and of the recipient.
#[derive(Clone, Copy, Debug, PartialEq, Eq)]
pub struct Claim {
    pub airdrop: Airdrop,
    pub authority: Identity,
    pub authority_lamports: u64,
    pub recipient_lamports: u64,
}

/// The record that `initialize` writes for `authority` and `amount`.
pub open spec fn fresh_record(authority: Identity, amount: u64) -> Airdrop {
    Airdrop { authority, amount, claimed: false }
}

/// Sets up the record: `authority` becomes the caller, `amount` the given
/// quantity, and the record starts unclaimed.
pub fn initialize(ctx: &mut Initialize, airdrop_amount: u64)
    ensures
        final(ctx).authority == old(ctx).authority,
        final(ctx).airdrop == fresh_record(old(ctx).authority, airdrop_amount),
{
    ctx.airdrop.authority = ctx.authority;
    ctx.airdrop.amount = airdrop_amount;
    ctx.airdrop.claimed = false;
}

/// The first check of a claim that fails, if any: ownership, then the
/// claimed flag, then the authority's funds.
pub open spec fn claim_error(ctx: Claim) -> Option<ErrorCode> {
    if ctx.airdrop.authority@ != ctx.authority@ {
        Some(ErrorCode::Unauthorized)
    } else if ctx.airdrop.claimed {
        Some(ErrorCode::AlreadyClaimed)
    } else if ctx.authority_lamports < ctx.airdrop.amount {
        Some(ErrorCode::InsufficientFunds)
    } else {
        None
    }
}

/// The accounts after a claim, and its result: on any failure nothing
/// changes; on success the amount moves and the record is marked claimed.
pub open spec fn claim_outcome(ctx: Claim) -> (Claim, Result<(), ErrorCode>) {
    match claim_error(ctx) {
        Some(e) => (ctx, Err(e)),
        None => (
            Claim {
                airdrop: Airdrop { claimed: true, ..ctx.airdrop },
                authority: ctx.authority,
                authority_lamports: (ctx.authority_lamports - ctx.airdrop.amount) as u64,
                recipient_lamports: (ctx.recipient_lamports + ctx.airdrop.amount) as u64,
            },
            Ok(()),
        ),
    }
}

/// Balances of two accounts fit together in the ledger's integer type, as
/// all balances of one ledger do.
pub open spec fn balances_fit(from: u64, to: u64) -> bool {
    from + to <= u64::MAX
}

/// Moves `amount` from `from` to `to`, or changes nothing and reports
/// `InsufficientFunds` when `from` holds less than `amount`.
pub fn transfer(from: &mut u64, to: &mut u64, amount: u64) -> (r: Result<(), ErrorCode>)
    requires
        balances_fit(*old(from), *old(to)),
    ensures
        *old(from) < amount ==> r == Err::<(), ErrorCode>(ErrorCode::InsufficientFunds)
            && *final(from) == *old(from) && *final(to) == *old(to),
        *old(from) >= amount ==> r == Ok::<(), ErrorCode>(()) && *final(from) == *old(from)
            - amount && *final(to) == *old(to) + amount,
{
    if *from < amount {
        return Err(ErrorCode::InsufficientFunds);
    }
    *from = *from - amount;
    *to = *to + amount;
    Ok(())
}

/// Claims the airdrop: checks that the caller is the record's authority and
/// that the record is unclaimed, moves the amount from the authority to the
/// recipient, and marks the record claimed. Any failure leaves every
/// account as it was.
pub fn claim(ctx: &mut Claim) -> (r: Result<(), ErrorCode>)
    requires
        balances_fit(old(ctx).authority_lamports, old(ctx).recipient_lamports),
    ensures
        (*final(ctx), r) == claim_outcome(*old(ctx)),
{
    if !ctx.airdrop.authority.same_as(&ctx.authority) {
        return Err(ErrorCode::Unauthorized);
    }
    if ctx.airdrop.claimed {
        return Err(ErrorCode::AlreadyClaimed);
    }
    let amount = ctx.airdrop.amount;
    let mut from = ctx.authority_lamports;
    let mut to = ctx.recipient_lamports;
    match transfer(&mut from, &mut to, amount) {
        Ok(()) => {},
        Err(e) => {
            return Err(e);
        },
    }
    ctx.authority_lamports = from;
    ctx.recipient_lamports = to;
    ctx.airdrop.claimed = true;
    Ok(())
}

/// Once a claim has succeeded, the record is claimed for good: no later
/// claim on it succeeds, whoever calls and whatever the balances, and one by
/// its authority fails with `AlreadyClaimed`. An unclaimed record claimed by
/// its authority with enough funds does succeed, so exactly one claim ever
/// succeeds.
pub proof fn lemma_single_claim(ctx: Claim, later: Claim)
    requires
        later.airdrop == claim_outcome(ctx).0.airdrop,
    ensures
        !ctx.airdrop.claimed && ctx.authority@ == ctx.airdrop.authority@
            && ctx.authority_lamports >= ctx.airdrop.amount ==> claim_outcome(ctx).1 is Ok,
        claim_outcome(ctx).1 is Ok ==> !ctx.airdrop.claimed && later.airdrop.claimed
            && claim_outcome(later).1 is Err && (later.authority@ == later.airdrop.authority@
            ==> claim_outcome(later) == (later, Err::<(), ErrorCode>(ErrorCode::AlreadyClaimed))),
{
}

/// A claim by anyone but the record's authority fails with `Unauthorized`
/// and changes nothing.
pub proof fn lemma_unauthorized(ctx: Claim)
    requires
        ctx.authority@ != ctx.airdrop.authority@,
    ensures
        claim_outcome(ctx) == (ctx, Err::<(), ErrorCode>(ErrorCode::Unauthorized)),
{
}

/// A successful claim takes exactly the amount from the authority and gives
/// exactly the amount to the recipient, so their sum is unchanged.
pub proof fn lemma_conservation(ctx: Claim)
    requires
        balances_fit(ctx.authority_lamports, ctx.recipient_lamports),
        claim_outcome(ctx).1 is Ok,
    ensures
        claim_outcome(ctx).0.authority_lamports == ctx.authority_lamports - ctx.airdrop.amount,
        claim_outcome(ctx).0.recipient_lamports == ctx.recipient_lamports + ctx.airdrop.amount,
        claim_outcome(ctx).0.authority_lamports + claim_outcome(ctx).0.recipient_lamports
            == ctx.authority_lamports + ctx.recipient_lamports,
{
}

/// When the authority's balance is below the amount, the claim fails and
/// leaves the record, its flag included, and both balances as they were.
pub proof fn lemma_atomic_on_insufficient_funds(ctx: Claim)
    requires
        ctx.authority_lamports < ctx.airdrop.amount,
    ensures
        claim_outcome(ctx).0 == ctx,
        claim_outcome(ctx).1 is Err,
        !ctx.airdrop.claimed && ctx.authority@ == ctx.airdrop.authority@ ==> claim_outcome(ctx)
            == (ctx, Err::<(), ErrorCode>(ErrorCode::InsufficientFunds)),
{
}

/// No claim, successful or not, changes the record's authority or amount.
pub proof fn lemma_claim_keeps_terms(ctx: Claim)
    ensures
        claim_outcome(ctx).0.airdrop.authority == ctx.airdrop.authority,
        claim_outcome(ctx).0.airdrop.amount == ctx.airdrop.amount,
{
}

} // verus!
