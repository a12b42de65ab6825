//! Withdrawal: the holder of a subscription's credential takes funds out
//! of its vault.
use crate::address::{subscription_seeds, subscription_seeds_spec, token_program_bytes, token_program_id, Address};
use crate::effects::{Effect, Signer};
use crate::error::{ProcessError, SubscriptionError};
use crate::processor::{owns_subscription, subscription_owned, load_record, load_record_spec};
use crate::state::Subscription;
use crate::utils::{
    bad_address, check_ata_initialized, check_pda, check_program_id, check_signer, check_writable,
    pda_check, token_account_check, AccountView,
};
use vstd::prelude::*;

verus! {

/// The number of accounts a withdrawal names: payer, destination, vault,
/// subscription, payer's current credential account, token program.
pub const WITHDRAW_ACCOUNTS: usize = 6;

/// A withdrawal of `requested` units from the vault of the `count`-th
/// subscription of its plan.
pub open spec fn withdraw_spec(program_id: Address, a: Seq<AccountView>, requested: u64, count: u64) -> Result<Seq<Effect>, ProcessError> {
    if a.len() < WITHDRAW_ACCOUNTS {
        Err(ProcessError::NotEnoughAccountKeys)
    } else if !a[0].is_signer || !a[0].is_writable || !a[1].is_writable || !a[2].is_writable {
        Err(ProcessError::MissingRequiredSignature)
    } else if a[5].key@ != token_program_bytes() {
        Err(ProcessError::IncorrectProgramId)
    } else {
        match load_record_spec(a[3].data@) {
            Err(e) => Err(e),
            Ok(sub) => if a[3].owner@ != program_id@ {
                Err(ProcessError::IllegalOwner)
            } else {
                match pda_check(a[3].key@, subscription_seeds_spec(sub.payee@, sub.amount, sub.duration, count), program_id@) {
                    Err(e) => Err(e),
                    Ok(bump) => if a[2].key@ != sub.deposit_vault@ {
                        Err(bad_address())
                    } else {
                        match token_account_check(a[2], a[3].key@, sub.deposit_mint@) {
                            Err(e) => Err(e),
                            Ok(balance) => match token_account_check(a[1], a[0].key@, sub.deposit_mint@) {
                                Err(ProcessError::TokenOwnerMismatch) => Err(
                                    ProcessError::Subscription(SubscriptionError::InvalidVaultOwner),
                                ),
                                Err(e) => Err(e),
                                Ok(_) => if !owns_subscription(a[4], a[0].key, sub) {
                                    Err(ProcessError::Subscription(SubscriptionError::InvalidSubscriptionOwner))
                                } else if balance < requested {
                                    Err(ProcessError::Subscription(SubscriptionError::InsufficientWithdrawBalance))
                                } else {
                                    Ok(
                                        seq![
                                            Effect::Transfer {
                                                source: a[2].key,
                                                destination: a[1].key,
                                                authority: a[3].key,
                                                amount: requested,
                                                signed_by: Some(
                                                    Signer::Subscription {
                                                        payee: sub.payee,
                                                        amount: sub.amount,
                                                        duration: sub.duration,
                                                        count,
                                                        bump,
                                                    },
                                                ),
                                            },
                                        ],
                                    )
                                },
                            },
                        }
                    },
                }
            },
        }
    }
}

/// Withdraws `amount` units from the vault of the `count`-th subscription
/// of its plan to the payer's token account, which the payer must hold
/// (`InvalidVaultOwner` otherwise); the payer must hold the current
/// credential where there is one and be the recorded payer before that,
/// and the vault must hold at least `amount`.
pub fn process_withdraw(program_id: &Address, accounts: &[AccountView], amount: u64, count: u64) -> (r: Result<Vec<Effect>, ProcessError>)
    ensures
        r matches Ok(v) ==> withdraw_spec(*program_id, accounts@, amount, count) == Ok::<Seq<Effect>, ProcessError>(v@),
        r matches Err(e) ==> withdraw_spec(*program_id, accounts@, amount, count) == Err::<Seq<Effect>, ProcessError>(e),
{
    if accounts.len() < WITHDRAW_ACCOUNTS {
        return Err(ProcessError::NotEnoughAccountKeys);
    }
    let payer = &accounts[0];
    let destination = &accounts[1];
    let vault = &accounts[2];
    let subscription = &accounts[3];
    check_signer(payer)?;
    check_writable(payer)?;
    check_writable(destination)?;
    check_writable(vault)?;
    check_program_id(&accounts[5], &token_program_id())?;
    let sub = load_record(subscription)?;
    if !subscription.owner.same_as(program_id) {
        return Err(ProcessError::IllegalOwner);
    }
    let bump = check_pda(subscription, &subscription_seeds(&sub.payee, sub.amount, sub.duration, count), program_id)?;
    if !vault.key.same_as(&sub.deposit_vault) {
        return Err(ProcessError::Utils(crate::error::UtilsError::InvalidProgramAddress));
    }
    let balance = check_ata_initialized(vault, &subscription.key, &sub.deposit_mint)?;
    match check_ata_initialized(destination, &payer.key, &sub.deposit_mint) {
        Err(ProcessError::TokenOwnerMismatch) => {
            return Err(ProcessError::Subscription(SubscriptionError::InvalidVaultOwner));
        },
        Err(e) => {
            return Err(e);
        },
        Ok(_) => {},
    }
    if !subscription_owned(&accounts[4], &payer.key, &sub) {
        return Err(ProcessError::Subscription(SubscriptionError::InvalidSubscriptionOwner));
    }
    if balance < amount {
        return Err(ProcessError::Subscription(SubscriptionError::InsufficientWithdrawBalance));
    }
    let mut effects: Vec<Effect> = Vec::new();
    effects.push(Effect::Transfer {
        source: vault.key,
        destination: destination.key,
        authority: subscription.key,
        amount,
        signed_by: Some(Signer::Subscription { payee: sub.payee, amount: sub.amount, duration: sub.duration, count, bump }),
    });
    proof {
        let expected = withdraw_spec(*program_id, accounts@, amount, count).unwrap();
        assert(effects@ =~= expected);
    }
    Ok(effects)
}

/// A withdrawal never moves more than was asked, and never succeeds where
/// the vault holds less: a successful one is a single transfer of exactly
/// the requested amount out of a vault holding at least that much.
pub proof fn lemma_withdraw_bounded(program_id: Address, a: Seq<AccountView>, requested: u64, count: u64)
    requires
        withdraw_spec(program_id, a, requested, count) is Ok,
    ensures
        withdraw_spec(program_id, a, requested, count).unwrap().len() == 1,
        withdraw_spec(program_id, a, requested, count).unwrap()[0] matches Effect::Transfer { source, amount, .. }
            && source == a[2].key && amount == requested,
        load_record_spec(a[3].data@) matches Ok(sub) && token_account_check(a[2], a[3].key@, sub.deposit_mint@) matches Ok(
            balance,
        ) && balance >= requested,
{
}

/// Where the vault holds less than asked, a withdrawal fails.
pub proof fn lemma_withdraw_insufficient_fails(program_id: Address, a: Seq<AccountView>, requested: u64, count: u64)
    requires
        a.len() >= WITHDRAW_ACCOUNTS,
        load_record_spec(a[3].data@) matches Ok(sub) && token_account_check(a[2], a[3].key@, sub.deposit_mint@) matches Ok(
            balance,
        ) && balance < requested,
    ensures
        withdraw_spec(program_id, a, requested, count) is Err,
{
}

} // verus!
