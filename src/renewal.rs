//! The renewal state machine: time gating, the balance check, the fee, and
//! the next state of a subscription.
use crate::address::Address;
use crate::error::{ProcessError, SubscriptionError};
use crate::state::Subscription;
use vstd::prelude::*;

verus! {

/// The fee is `amount * FEE_NUMERATOR / FEE_DENOMINATOR`, rounded down.
pub const FEE_NUMERATOR: u64 = 1;

/// `10` to the power of the fee's decimals (two).
pub const FEE_DENOMINATOR: u64 = 100;

/// What a renewal that was allowed to proceed does.
#[derive(Debug, Clone, Copy, PartialEq, Eq)]
pub enum RenewOutcome {
    /// The vault paid: `payout` to the payee, `fee` to the caller.
    Renewed { payout: u64, fee: u64 },
    /// The vault could not pay; the subscription is now inactive.
    Deactivated,
}

/// The fee that the caller of a renewal earns on `amount`.
pub open spec fn fee_spec(amount: u64) -> u64 {
    ((amount as int) * (FEE_NUMERATOR as int) / (FEE_DENOMINATOR as int)) as u64
}

/// What the payee receives of `amount`.
pub open spec fn payout_spec(amount: u64) -> u64 {
    (amount - fee_spec(amount)) as u64
}

/// The decision of a renewal attempt at time `now` with the vault holding
/// `vault_balance`.
pub open spec fn renew_decision_spec(sub: Subscription, vault_balance: u64, now: i64) -> Result<RenewOutcome, SubscriptionError> {
    if now < sub.next_renew_time {
        Err(SubscriptionError::EarlyRenew)
    } else if vault_balance < sub.amount {
        if !sub.active {
            Err(SubscriptionError::AlreadyExpired)
        } else {
            Ok(RenewOutcome::Deactivated)
        }
    } else {
        Ok(RenewOutcome::Renewed { payout: payout_spec(sub.amount), fee: fee_spec(sub.amount) })
    }
}

/// The subscription after a deactivation.
pub open spec fn deactivated_spec(sub: Subscription) -> Subscription {
    Subscription { active: false, ..sub }
}

/// The subscription after a paid renewal at `now` that minted `credential`;
/// `None` where the next renewal time or the renewal count would overflow.
pub open spec fn renewed_spec(sub: Subscription, credential: Address, now: i64) -> Option<Subscription> {
    if now + sub.duration > i64::MAX || now + sub.duration < i64::MIN || sub.renewal_count == u64::MAX {
        None
    } else {
        Some(
            Subscription {
                active: true,
                mint: Some(credential),
                next_renew_time: (now + sub.duration) as i64,
                renewal_count: (sub.renewal_count + 1) as u64,
                ..sub
            },
        )
    }
}

/// One renewal attempt on the record alone: the decision and the next record.
pub open spec fn renew_step_spec(sub: Subscription, vault_balance: u64, now: i64, credential: Address) -> Result<(RenewOutcome, Subscription), ProcessError> {
    match renew_decision_spec(sub, vault_balance, now) {
        Err(e) => Err(ProcessError::Subscription(e)),
        Ok(RenewOutcome::Deactivated) => Ok((RenewOutcome::Deactivated, deactivated_spec(sub))),
        Ok(o) => match renewed_spec(sub, credential, now) {
            Some(next) => Ok((o, next)),
            None => Err(ProcessError::ArithmeticOverflow),
        },
    }
}

/// The fee on `amount`: `amount * FEE_NUMERATOR / FEE_DENOMINATOR`, rounded down.
pub fn renewal_fee(amount: u64) -> (r: u64)
    ensures
        r == fee_spec(amount),
        r <= amount,
{
    let f = (amount as u128) * (FEE_NUMERATOR as u128) / (FEE_DENOMINATOR as u128);
    f as u64
}

/// Splits `amount` into the payee's payout and the caller's fee.
pub fn fee_split(amount: u64) -> (r: (u64, u64))
    ensures
        r.0 == payout_spec(amount),
        r.1 == fee_spec(amount),
        r.0 + r.1 == amount,
{
    let fee = renewal_fee(amount);
    (amount - fee, fee)
}

/// Decides a renewal attempt: `EarlyRenew` before the next renewal time,
/// `AlreadyExpired` where the vault cannot pay and the subscription is
/// inactive, a deactivation where it cannot pay and the subscription is
/// active, and a paid renewal otherwise.
pub fn renew_decision(sub: &Subscription, vault_balance: u64, now: i64) -> (r: Result<RenewOutcome, SubscriptionError>)
    ensures
        r == renew_decision_spec(*sub, vault_balance, now),
{
    if now < sub.next_renew_time {
        Err(SubscriptionError::EarlyRenew)
    } else if vault_balance < sub.amount {
        if !sub.active {
            Err(SubscriptionError::AlreadyExpired)
        } else {
            Ok(RenewOutcome::Deactivated)
        }
    } else {
        let (payout, fee) = fee_split(sub.amount);
        Ok(RenewOutcome::Renewed { payout, fee })
    }
}

/// The subscription after a deactivation.
pub fn deactivated(sub: &Subscription) -> (r: Subscription)
    ensures
        r == deactivated_spec(*sub),
{
    Subscription { active: false, ..*sub }
}

/// The subscription after a paid renewal at `now` that minted `credential`.
pub fn renewed(sub: &Subscription, credential: &Address, now: i64) -> (r: Result<Subscription, ProcessError>)
    ensures
        r matches Ok(s) ==> renewed_spec(*sub, *credential, now) == Some(s),
        r is Err ==> renewed_spec(*sub, *credential, now) is None && r == Err::<Subscription, ProcessError>(ProcessError::ArithmeticOverflow),
{
    let next = match now.checked_add(sub.duration) {
        Some(t) => t,
        None => return Err(ProcessError::ArithmeticOverflow),
    };
    if sub.renewal_count == u64::MAX {
        return Err(ProcessError::ArithmeticOverflow);
    }
    Ok(Subscription {
        active: true,
        mint: Some(*credential),
        next_renew_time: next,
        renewal_count: sub.renewal_count + 1,
        ..*sub
    })
}

/// One renewal attempt on a subscription record at time `now`, with the
/// vault holding `vault_balance` and `credential` the mint a paid renewal
/// creates: `EarlyRenew` before the next renewal time, `AlreadyExpired`
/// where the vault cannot pay an inactive subscription, a deactivation
/// where it cannot pay an active one, and otherwise the payout and fee with
/// the record made active, holding `credential`, due again `duration`
/// seconds after `now`, its renewal count one higher.
pub fn renew(sub: &Subscription, vault_balance: u64, now: i64, credential: &Address) -> (r: Result<(RenewOutcome, Subscription), ProcessError>)
    ensures
        r == renew_step_spec(*sub, vault_balance, now, *credential),
{
    match renew_decision(sub, vault_balance, now) {
        Err(e) => Err(ProcessError::Subscription(e)),
        Ok(RenewOutcome::Deactivated) => Ok((RenewOutcome::Deactivated, deactivated(sub))),
        Ok(outcome) => match renewed(sub, credential, now) {
            Ok(next) => Ok((outcome, next)),
            Err(e) => Err(e),
        },
    }
}

/// A renewal attempt before the next renewal time fails with `EarlyRenew`
/// and changes nothing.
pub proof fn lemma_renew_too_early(sub: Subscription, vault_balance: u64, now: i64, credential: Address)
    requires
        now < sub.next_renew_time,
    ensures
        renew_step_spec(sub, vault_balance, now, credential) == Err::<(RenewOutcome, Subscription), ProcessError>(
            ProcessError::Subscription(SubscriptionError::EarlyRenew),
        ),
{
}

/// Where the vault cannot pay an active subscription, one renewal attempt
/// deactivates it, and a second attempt with the same balance fails with
/// `AlreadyExpired`.
pub proof fn lemma_deactivate_once(sub: Subscription, vault_balance: u64, now: i64, credential: Address)
    requires
        sub.active,
        vault_balance < sub.amount,
        now >= sub.next_renew_time,
    ensures
        renew_step_spec(sub, vault_balance, now, credential) == Ok::<(RenewOutcome, Subscription), ProcessError>(
            (RenewOutcome::Deactivated, deactivated_spec(sub)),
        ),
        !deactivated_spec(sub).active,
        renew_step_spec(deactivated_spec(sub), vault_balance, now, credential) == Err::<(RenewOutcome, Subscription), ProcessError>(
            ProcessError::Subscription(SubscriptionError::AlreadyExpired),
        ),
{
}

/// A paid renewal splits the amount exactly: payout and fee add up to it.
pub proof fn lemma_renewal_conserves_value(sub: Subscription, vault_balance: u64, now: i64)
    requires
        renew_decision_spec(sub, vault_balance, now) is Ok,
        renew_decision_spec(sub, vault_balance, now) != Ok::<RenewOutcome, SubscriptionError>(RenewOutcome::Deactivated),
    ensures
        renew_decision_spec(sub, vault_balance, now) matches Ok(RenewOutcome::Renewed { payout, fee })
            && payout + fee == sub.amount && payout <= vault_balance,
{
}

} // verus!
