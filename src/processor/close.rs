//! Closing: the holder of a subscription's credential empties its vault,
//! closes it, and reclaims the record's storage.
use crate::address::{
    associated_token_program_bytes, associated_token_program_id, rent_sysvar_bytes, rent_sysvar_id,
    subscription_seeds, subscription_seeds_spec, system_program_bytes, system_program_id,
    token_program_bytes, token_program_id, Address,
};
use crate::effects::{Effect, Signer};
use crate::error::{ProcessError, SubscriptionError, UtilsError};
use crate::processor::{
    owns_subscription, subscription_owned, load_record, load_record_spec, token_destination,
    token_destination_spec,
};
use crate::state::Subscription;
use crate::utils::{
    bad_address, check_ata_initialized, check_pda, check_program_id, check_signer, check_writable,
    pda_check, token_account_check, AccountView,
};
use vstd::prelude::*;

verus! {

/// The number of accounts a close names: owner, owner's token account,
/// owner's current credential account, subscription, vault, currency,
/// system program, rent sysvar, token program, associated-token program.
pub const CLOSE_ACCOUNTS: usize = 10;

/// Whether the collaborator accounts of a close are the collaborators.
pub open spec fn close_collaborators(a: Seq<AccountView>) -> bool {
    &&& a[6].key@ == system_program_bytes()
    &&& a[7].key@ == rent_sysvar_bytes()
    &&& a[8].key@ == token_program_bytes()
    &&& a[9].key@ == associated_token_program_bytes()
}

/// Closing the `count`-th subscription of its plan.
pub open spec fn close_spec(program_id: Address, a: Seq<AccountView>, count: u64) -> Result<Seq<Effect>, ProcessError> {
    if a.len() < CLOSE_ACCOUNTS {
        Err(ProcessError::NotEnoughAccountKeys)
    } else if !a[0].is_signer || !a[0].is_writable || !a[1].is_writable || !a[3].is_writable || !a[4].is_writable {
        Err(ProcessError::MissingRequiredSignature)
    } else if !close_collaborators(a) {
        Err(ProcessError::IncorrectProgramId)
    } else {
        match load_record_spec(a[3].data@) {
            Err(e) => Err(e),
            Ok(sub) => if a[3].owner@ != program_id@ {
                Err(ProcessError::IllegalOwner)
            } else {
                match pda_check(a[3].key@, subscription_seeds_spec(sub.payee@, sub.amount, sub.duration, count), program_id@) {
                    Err(e) => Err(e),
                    Ok(bump) => if a[4].key@ != sub.deposit_vault@ || a[5].key@ != sub.deposit_mint@ {
                        Err(bad_address())
                    } else {
                        match token_account_check(a[4], a[3].key@, sub.deposit_mint@) {
                            Err(e) => Err(e),
                            Ok(balance) => if !owns_subscription(a[2], a[0].key, sub) {
                                Err(ProcessError::Subscription(SubscriptionError::InvalidSubscriptionOwner))
                            } else {
                                match token_destination_spec(a[1], a[0].key, a[0].key, sub.deposit_mint) {
                                    Err(e) => Err(e),
                                    Ok(de) => {
                                        let signer = Signer::Subscription {
                                            payee: sub.payee,
                                            amount: sub.amount,
                                            duration: sub.duration,
                                            count,
                                            bump,
                                        };
                                        Ok(
                                            de + seq![
                                                Effect::Transfer {
                                                    source: a[4].key,
                                                    destination: a[1].key,
                                                    authority: a[3].key,
                                                    amount: balance,
                                                    signed_by: Some(signer),
                                                },
                                                Effect::CloseTokenAccount {
                                                    account: a[4].key,
                                                    destination: a[0].key,
                                                    authority: a[3].key,
                                                    signer,
                                                },
                                                Effect::CloseRecord { account: a[3].key, destination: a[0].key },
                                            ],
                                        )
                                    },
                                }
                            },
                        }
                    },
                }
            },
        }
    }
}

/// Closes the `count`-th subscription of its plan: the holder of its
/// current credential (its payer before the first renewal) receives the
/// vault's whole balance, then the vault is closed and the record zeroed,
/// their storage deposits going to the holder.
pub fn process_close(program_id: &Address, accounts: &[AccountView], count: u64) -> (r: Result<Vec<Effect>, ProcessError>)
    ensures
        r matches Ok(v) ==> close_spec(*program_id, accounts@, count) == Ok::<Seq<Effect>, ProcessError>(v@),
        r matches Err(e) ==> close_spec(*program_id, accounts@, count) == Err::<Seq<Effect>, ProcessError>(e),
{
    if accounts.len() < CLOSE_ACCOUNTS {
        return Err(ProcessError::NotEnoughAccountKeys);
    }
    let owner = &accounts[0];
    let destination = &accounts[1];
    let subscription = &accounts[3];
    let vault = &accounts[4];
    check_signer(owner)?;
    check_writable(owner)?;
    check_writable(destination)?;
    check_writable(subscription)?;
    check_writable(vault)?;
    check_program_id(&accounts[6], &system_program_id())?;
    check_program_id(&accounts[7], &rent_sysvar_id())?;
    check_program_id(&accounts[8], &token_program_id())?;
    check_program_id(&accounts[9], &associated_token_program_id())?;
    let sub = load_record(subscription)?;
    if !subscription.owner.same_as(program_id) {
        return Err(ProcessError::IllegalOwner);
    }
    let bump = check_pda(subscription, &subscription_seeds(&sub.payee, sub.amount, sub.duration, count), program_id)?;
    if !vault.key.same_as(&sub.deposit_vault) || !accounts[5].key.same_as(&sub.deposit_mint) {
        return Err(ProcessError::Utils(UtilsError::InvalidProgramAddress));
    }
    let balance = check_ata_initialized(vault, &subscription.key, &sub.deposit_mint)?;
    if !subscription_owned(&accounts[2], &owner.key, &sub) {
        return Err(ProcessError::Subscription(SubscriptionError::InvalidSubscriptionOwner));
    }
    let mut effects = token_destination(destination, &owner.key, &owner.key, &sub.deposit_mint)?;
    let ghost de = effects@;
    let signer = Signer::Subscription { payee: sub.payee, amount: sub.amount, duration: sub.duration, count, bump };
    effects.push(Effect::Transfer {
        source: vault.key,
        destination: destination.key,
        authority: subscription.key,
        amount: balance,
        signed_by: Some(signer),
    });
    effects.push(Effect::CloseTokenAccount { account: vault.key, destination: owner.key, authority: subscription.key, signer });
    effects.push(Effect::CloseRecord { account: subscription.key, destination: owner.key });
    proof {
        let expected = close_spec(*program_id, accounts@, count).unwrap();
        assert(effects@ =~= expected);
    }
    Ok(effects)
}

} // verus!
