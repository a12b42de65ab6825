//! Renewal: pays the payee and rotates the ownership credential, or
//! deactivates a subscription whose vault cannot pay.
use crate::address::{
    associated_token_program_bytes, associated_token_program_id, mint_seeds, mint_seeds_spec,
    rent_sysvar_bytes, rent_sysvar_id, subscription_seeds, subscription_seeds_spec,
    system_program_bytes, system_program_id, token_program_bytes, token_program_id, Address,
};
use crate::effects::{Effect, Signer};
use crate::error::{ProcessError, SubscriptionError};
use crate::processor::{
    credential_held, holds_credential, load_record, load_record_spec, token_destination,
    token_destination_spec,
};
use crate::renewal::{
    deactivated, deactivated_spec, renew_decision, renew_decision_spec, renewed, renewed_spec,
    RenewOutcome,
};
use crate::state::{lemma_subscription_round_trip, subscription_bytes, Subscription};
use crate::utils::{
    bad_address, check_ata, check_ata_initialized, check_pda, check_program_id, check_signer,
    check_writable, is_associated_account, pda_check, token_account_check, AccountView,
};
use vstd::prelude::*;

verus! {

/// The number of accounts a renewal names: caller, subscription, vault,
/// currency, payee, payee's token account, caller's token account, new
/// credential mint, credential receiver, receiver's new credential account,
/// receiver's current credential account, system program, rent sysvar,
/// token program, associated-token program.
pub const RENEW_ACCOUNTS: usize = 15;

/// Whether the accounts a renewal writes are writable.
pub open spec fn renew_writable(a: Seq<AccountView>) -> bool {
    &&& a[0].is_writable
    &&& a[1].is_writable
    &&& a[2].is_writable
    &&& a[5].is_writable
    &&& a[6].is_writable
    &&& a[7].is_writable
    &&& a[9].is_writable
}

/// Whether the collaborator accounts of a renewal are the collaborators.
pub open spec fn renew_collaborators(a: Seq<AccountView>) -> bool {
    &&& a[11].key@ == system_program_bytes()
    &&& a[12].key@ == rent_sysvar_bytes()
    &&& a[13].key@ == token_program_bytes()
    &&& a[14].key@ == associated_token_program_bytes()
}

/// The checks that every renewal attempt passes first; gives the record,
/// the bump seed of the subscription's address and the vault's balance.
pub open spec fn renew_context_spec(program_id: Address, a: Seq<AccountView>, count: u64) -> Result<(Subscription, u8, u64), ProcessError> {
    if a.len() < RENEW_ACCOUNTS {
        Err(ProcessError::NotEnoughAccountKeys)
    } else if !a[0].is_signer || !renew_writable(a) {
        Err(ProcessError::MissingRequiredSignature)
    } else if !renew_collaborators(a) {
        Err(ProcessError::IncorrectProgramId)
    } else {
        match load_record_spec(a[1].data@) {
            Err(e) => Err(e),
            Ok(sub) => if a[1].owner@ != program_id@ {
                Err(ProcessError::IllegalOwner)
            } else {
                match pda_check(a[1].key@, subscription_seeds_spec(sub.payee@, sub.amount, sub.duration, count), program_id@) {
                    Err(e) => Err(e),
                    Ok(bump) => if a[2].key@ != sub.deposit_vault@ || a[3].key@ != sub.deposit_mint@ || a[4].key@ != sub.payee@ {
                        Err(bad_address())
                    } else {
                        match token_account_check(a[2], a[1].key@, sub.deposit_mint@) {
                            Err(e) => Err(e),
                            Ok(balance) => Ok((sub, bump, balance)),
                        }
                    },
                }
            },
        }
    }
}

/// The signer of a subscription's authority.
pub open spec fn subscription_signer(sub: Subscription, count: u64, bump: u8) -> Signer {
    Signer::Subscription { payee: sub.payee, amount: sub.amount, duration: sub.duration, count, bump }
}

/// The effects of a paid renewal after the payee's and caller's token
/// accounts are ready: payout, fee, the new credential minted to the
/// receiver with its supply frozen, and the new record.
pub open spec fn paid_effects(a: Seq<AccountView>, sub: Subscription, signer: Signer, mint_bump: u8, payout: u64, fee: u64, next: Subscription) -> Seq<Effect> {
    let authority = a[1].key;
    let credential = a[7].key;
    seq![
        Effect::Transfer { source: a[2].key, destination: a[5].key, authority, amount: payout, signed_by: Some(signer) },
        Effect::Transfer { source: a[2].key, destination: a[6].key, authority, amount: fee, signed_by: Some(signer) },
        Effect::CreateCredentialMint {
            funder: a[0].key,
            mint: credential,
            authority,
            signer: Signer::Mint { subscription: authority, generation: sub.renewal_count, bump: mint_bump },
        },
        Effect::CreateTokenAccount { funder: a[0].key, wallet: a[8].key, mint: credential },
        Effect::MintCredential { mint: credential, destination: a[9].key, authority, amount: 1, signer },
        Effect::FreezeCredentialSupply { mint: credential, authority, signer },
        Effect::WriteSubscription { account: authority, record: next },
    ]
}

/// A paid renewal once the context and decision are known.
pub open spec fn paid_renewal_spec(program_id: Address, a: Seq<AccountView>, count: u64, now: i64, sub: Subscription, bump: u8, payout: u64, fee: u64) -> Result<Seq<Effect>, ProcessError> {
    if !holds_credential(a[10], a[8].key, sub) {
        Err(ProcessError::Subscription(SubscriptionError::InvalidReceiver))
    } else {
        match token_destination_spec(a[5], a[0].key, sub.payee, sub.deposit_mint) {
            Err(e) => Err(e),
            Ok(pe) => match token_destination_spec(a[6], a[0].key, a[0].key, sub.deposit_mint) {
                Err(e) => Err(e),
                Ok(ce) => match pda_check(a[7].key@, mint_seeds_spec(a[1].key@, sub.renewal_count), program_id@) {
                    Err(e) => Err(e),
                    Ok(mint_bump) => if a[7].data@.len() != 0 {
                        Err(ProcessError::AccountAlreadyInitialized)
                    } else if !is_associated_account(a[9].key@, a[8].key@, a[7].key@) {
                        Err(bad_address())
                    } else {
                        match renewed_spec(sub, a[7].key, now) {
                            None => Err(ProcessError::ArithmeticOverflow),
                            Some(next) => Ok(pe + ce + paid_effects(a, sub, subscription_signer(sub, count, bump), mint_bump, payout, fee, next)),
                        }
                    },
                },
            },
        }
    }
}

/// A renewal attempt at time `now` on the `count`-th subscription of its plan.
pub open spec fn renew_spec(program_id: Address, a: Seq<AccountView>, count: u64, now: i64) -> Result<(RenewOutcome, Seq<Effect>), ProcessError> {
    match renew_context_spec(program_id, a, count) {
        Err(e) => Err(e),
        Ok((sub, bump, balance)) => match renew_decision_spec(sub, balance, now) {
            Err(e) => Err(ProcessError::Subscription(e)),
            Ok(RenewOutcome::Deactivated) => Ok(
                (RenewOutcome::Deactivated, seq![Effect::WriteSubscription { account: a[1].key, record: deactivated_spec(sub) }]),
            ),
            Ok(RenewOutcome::Renewed { payout, fee }) => match paid_renewal_spec(program_id, a, count, now, sub, bump, payout, fee) {
                Err(e) => Err(e),
                Ok(effects) => Ok((RenewOutcome::Renewed { payout, fee }, effects)),
            },
        },
    }
}

fn renew_context(program_id: &Address, accounts: &[AccountView], count: u64) -> (r: Result<(Subscription, u8, u64), ProcessError>)
    ensures
        r == renew_context_spec(*program_id, accounts@, count),
{
    if accounts.len() < RENEW_ACCOUNTS {
        return Err(ProcessError::NotEnoughAccountKeys);
    }
    let caller = &accounts[0];
    let subscription = &accounts[1];
    check_signer(caller)?;
    check_writable(caller)?;
    check_writable(subscription)?;
    check_writable(&accounts[2])?;
    check_writable(&accounts[5])?;
    check_writable(&accounts[6])?;
    check_writable(&accounts[7])?;
    check_writable(&accounts[9])?;
    check_program_id(&accounts[11], &system_program_id())?;
    check_program_id(&accounts[12], &rent_sysvar_id())?;
    check_program_id(&accounts[13], &token_program_id())?;
    check_program_id(&accounts[14], &associated_token_program_id())?;
    let sub = load_record(subscription)?;
    if !subscription.owner.same_as(program_id) {
        return Err(ProcessError::IllegalOwner);
    }
    let bump = check_pda(subscription, &subscription_seeds(&sub.payee, sub.amount, sub.duration, count), program_id)?;
    if !accounts[2].key.same_as(&sub.deposit_vault) || !accounts[3].key.same_as(&sub.deposit_mint) || !accounts[4].key.same_as(&sub.payee) {
        return Err(ProcessError::Utils(crate::error::UtilsError::InvalidProgramAddress));
    }
    let balance = check_ata_initialized(&accounts[2], &subscription.key, &sub.deposit_mint)?;
    Ok((sub, bump, balance))
}

fn paid_renewal(
    program_id: &Address,
    accounts: &[AccountView],
    count: u64,
    now: i64,
    sub: &Subscription,
    bump: u8,
    payout: u64,
    fee: u64,
) -> (r: Result<Vec<Effect>, ProcessError>)
    requires
        accounts@.len() >= RENEW_ACCOUNTS,
    ensures
        r matches Ok(v) ==> paid_renewal_spec(*program_id, accounts@, count, now, *sub, bump, payout, fee) == Ok::<Seq<Effect>, ProcessError>(v@),
        r matches Err(e) ==> paid_renewal_spec(*program_id, accounts@, count, now, *sub, bump, payout, fee) == Err::<Seq<Effect>, ProcessError>(e),
{
    if !credential_held(&accounts[10], &accounts[8].key, sub) {
        return Err(ProcessError::Subscription(SubscriptionError::InvalidReceiver));
    }
    let caller = &accounts[0];
    let subscription = &accounts[1];
    let vault = &accounts[2];
    let credential = &accounts[7];
    let receiver = &accounts[8];
    let mut effects = token_destination(&accounts[5], &caller.key, &sub.payee, &sub.deposit_mint)?;
    let caller_effects = token_destination(&accounts[6], &caller.key, &caller.key, &sub.deposit_mint)?;
    let mint_bump = check_pda(credential, &mint_seeds(&subscription.key, sub.renewal_count), program_id)?;
    if credential.data.len() != 0 {
        return Err(ProcessError::AccountAlreadyInitialized);
    }
    check_ata(&accounts[9], &receiver.key, &credential.key)?;
    let next = renewed(sub, &credential.key, now)?;
    let ghost pe = effects@;
    let ghost ce = caller_effects@;
    let signer = Signer::Subscription { payee: sub.payee, amount: sub.amount, duration: sub.duration, count, bump };
    let mut i: usize = 0;
    while i < caller_effects.len()
        invariant
            i <= ce.len(),
            ce == caller_effects@,
            effects@ == pe + ce.subrange(0, i as int),
        decreases ce.len() - i,
    {
        effects.push(caller_effects[i]);
        i = i + 1;
        assert(effects@ =~= pe + ce.subrange(0, i as int));
    }
    assert(ce.subrange(0, ce.len() as int) =~= ce);
    let authority = subscription.key;
    effects.push(Effect::Transfer { source: vault.key, destination: accounts[5].key, authority, amount: payout, signed_by: Some(signer) });
    effects.push(Effect::Transfer { source: vault.key, destination: accounts[6].key, authority, amount: fee, signed_by: Some(signer) });
    effects.push(Effect::CreateCredentialMint {
        funder: caller.key,
        mint: credential.key,
        authority,
        signer: Signer::Mint { subscription: authority, generation: sub.renewal_count, bump: mint_bump },
    });
    effects.push(Effect::CreateTokenAccount { funder: caller.key, wallet: receiver.key, mint: credential.key });
    effects.push(Effect::MintCredential { mint: credential.key, destination: accounts[9].key, authority, amount: 1, signer });
    effects.push(Effect::FreezeCredentialSupply { mint: credential.key, authority, signer });
    effects.push(Effect::WriteSubscription { account: authority, record: next });
    assert(effects@ =~= pe + ce + paid_effects(accounts@, *sub, signer, mint_bump, payout, fee, next));
    Ok(effects)
}

/// Renews the `count`-th subscription of its plan at time `now`.
///
/// Before the next renewal time it fails with `EarlyRenew`. Where the vault
/// cannot pay, an active subscription is deactivated with no transfer, and
/// an inactive one fails with `AlreadyExpired`. Otherwise the payee gets the
/// amount less the fee, the caller the fee, and a new credential is minted
/// to the receiver, which must hold the current one where there is one.
pub fn process_renew(program_id: &Address, accounts: &[AccountView], count: u64, now: i64) -> (r: Result<(RenewOutcome, Vec<Effect>), ProcessError>)
    ensures
        r matches Ok((o, v)) ==> renew_spec(*program_id, accounts@, count, now) == Ok::<(RenewOutcome, Seq<Effect>), ProcessError>((o, v@)),
        r matches Err(e) ==> renew_spec(*program_id, accounts@, count, now) == Err::<(RenewOutcome, Seq<Effect>), ProcessError>(e),
{
    let (sub, bump, balance) = renew_context(program_id, accounts, count)?;
    match renew_decision(&sub, balance, now) {
        Err(e) => Err(ProcessError::Subscription(e)),
        Ok(RenewOutcome::Deactivated) => {
            let mut effects: Vec<Effect> = Vec::new();
            effects.push(Effect::WriteSubscription { account: accounts[1].key, record: deactivated(&sub) });
            assert(effects@ =~= seq![Effect::WriteSubscription { account: accounts@[1].key, record: deactivated_spec(sub) }]);
            Ok((RenewOutcome::Deactivated, effects))
        },
        Ok(RenewOutcome::Renewed { payout, fee }) => {
            let effects = paid_renewal(program_id, accounts, count, now, &sub, bump, payout, fee)?;
            Ok((RenewOutcome::Renewed { payout, fee }, effects))
        },
    }
}

/// Whether an effect moves funds.
pub open spec fn is_transfer(e: Effect) -> bool {
    e is Transfer
}

/// A renewal attempt before the next renewal time fails with `EarlyRenew`:
/// no effect at all is applied.
pub proof fn lemma_renew_early_is_noop(program_id: Address, a: Seq<AccountView>, count: u64, now: i64)
    requires
        renew_context_spec(program_id, a, count) matches Ok((sub, _, _)) && now < sub.next_renew_time,
    ensures
        renew_spec(program_id, a, count, now) == Err::<(RenewOutcome, Seq<Effect>), ProcessError>(
            ProcessError::Subscription(SubscriptionError::EarlyRenew),
        ),
{
}

/// Where the vault cannot pay an active subscription, one renewal attempt
/// deactivates it and moves no funds; once that record is stored, a second
/// attempt with the same accounts fails with `AlreadyExpired`.
pub proof fn lemma_renew_deactivates_once(
    program_id: Address,
    a: Seq<AccountView>,
    count: u64,
    now: i64,
    after: Seq<AccountView>,
)
    requires
        renew_context_spec(program_id, a, count) is Ok,
        renew_context_spec(program_id, a, count).unwrap().0.active,
        renew_context_spec(program_id, a, count).unwrap().2 < renew_context_spec(program_id, a, count).unwrap().0.amount,
        now >= renew_context_spec(program_id, a, count).unwrap().0.next_renew_time,
        after.len() == a.len(),
        forall|i: int| 0 <= i < a.len() && i != 1 ==> after[i] == a[i],
        after[1].key == a[1].key,
        after[1].owner == a[1].owner,
        after[1].is_signer == a[1].is_signer,
        after[1].is_writable == a[1].is_writable,
        after[1].data@ == subscription_bytes(deactivated_spec(renew_context_spec(program_id, a, count).unwrap().0)),
    ensures
        renew_spec(program_id, a, count, now) matches Ok((o, effects)) && o == RenewOutcome::Deactivated
            && effects.len() == 1 && !is_transfer(effects[0]),
        renew_spec(program_id, after, count, now) == Err::<(RenewOutcome, Seq<Effect>), ProcessError>(
            ProcessError::Subscription(SubscriptionError::AlreadyExpired),
        ),
{
    let (sub, bump, balance) = renew_context_spec(program_id, a, count).unwrap();
    let next = deactivated_spec(sub);
    lemma_subscription_round_trip(next);
    assert(load_record_spec(after[1].data@) == Ok::<Subscription, ProcessError>(next));
    assert(renew_writable(after) == renew_writable(a));
    assert(renew_collaborators(after) == renew_collaborators(a));
    assert(renew_context_spec(program_id, after, count) == Ok::<(Subscription, u8, u64), ProcessError>((next, bump, balance)));
}

/// Whether `effects` mint one unit of `mint` to `destination` at index `i`,
/// freeze its supply right after, and mint nothing anywhere else.
pub open spec fn mints_once_at(effects: Seq<Effect>, i: int, mint: Address, destination: Address) -> bool {
    &&& 0 <= i < effects.len() - 1
    &&& effects[i] matches Effect::MintCredential { mint: m, destination: d, amount, .. } && m == mint && d == destination
        && amount == 1
    &&& effects[i + 1] matches Effect::FreezeCredentialSupply { mint: m, .. } && m == mint
    &&& forall|j: int| 0 <= j < effects.len() && j != i ==> !(#[trigger] effects[j] is MintCredential)
}

/// A paid renewal splits the amount exactly between payee and caller, and
/// mints exactly one unit of exactly one new credential, to the receiver's
/// associated account for it, and freezes that credential's supply right
/// after: every credential, the previous one included, can never be
/// minted again.
pub proof fn lemma_renew_conserves_and_mints_once(program_id: Address, a: Seq<AccountView>, count: u64, now: i64)
    requires
        renew_spec(program_id, a, count, now) matches Ok((RenewOutcome::Renewed { .. }, _)),
    ensures
        renew_spec(program_id, a, count, now).unwrap().0 matches RenewOutcome::Renewed { payout, fee }
            && payout + fee == renew_context_spec(program_id, a, count).unwrap().0.amount,
        exists|i: int| #[trigger] mints_once_at(renew_spec(program_id, a, count, now).unwrap().1, i, a[7].key, a[9].key),
        is_associated_account(a[9].key@, a[8].key@, a[7].key@),
{
    let (sub, bump, balance) = renew_context_spec(program_id, a, count).unwrap();
    let (payout, fee) = match renew_decision_spec(sub, balance, now) {
        Ok(RenewOutcome::Renewed { payout, fee }) => (payout, fee),
        _ => (0u64, 0u64),
    };
    let pe = token_destination_spec(a[5], a[0].key, sub.payee, sub.deposit_mint).unwrap();
    let ce = token_destination_spec(a[6], a[0].key, a[0].key, sub.deposit_mint).unwrap();
    let mint_bump = pda_check(a[7].key@, mint_seeds_spec(a[1].key@, sub.renewal_count), program_id@).unwrap();
    let next = renewed_spec(sub, a[7].key, now).unwrap();
    let tail = paid_effects(a, sub, subscription_signer(sub, count, bump), mint_bump, payout, fee, next);
    let effects = pe + ce + tail;
    assert(renew_spec(program_id, a, count, now) == Ok::<(RenewOutcome, Seq<Effect>), ProcessError>((RenewOutcome::Renewed { payout, fee }, effects)));
    let i: int = (pe.len() + ce.len() + 4) as int;
    assert(pe.len() <= 1 && ce.len() <= 1);
    assert forall|j: int| 0 <= j < effects.len() && j != i implies !(#[trigger] effects[j] is MintCredential) by {
        if j < pe.len() {
            assert(effects[j] == pe[j]);
        } else if j < pe.len() + ce.len() {
            assert(effects[j] == ce[j - pe.len()]);
        } else {
            assert(effects[j] == tail[j - pe.len() - ce.len()]);
        }
    }
    assert(effects[i] == tail[4]);
    assert(effects[i + 1] == tail[5]);
    assert(mints_once_at(effects, i, a[7].key, a[9].key));
    assert(renew_spec(program_id, a, count, now).unwrap().1 == effects);
    assert(mints_once_at(renew_spec(program_id, a, count, now).unwrap().1, i, a[7].key, a[9].key));
    assert(payout + fee == sub.amount);
    assert(renew_context_spec(program_id, a, count) == Ok::<(Subscription, u8, u64), ProcessError>((sub, bump, balance)));
}

/// The record a paid renewal stores keeps the subscription's derived
/// accounts re-derivable: its credential is the mint derived from the
/// subscription and the generation before its renewal count, and its vault
/// is still the subscription's associated account for its currency.
pub proof fn lemma_renew_keeps_derivations(program_id: Address, a: Seq<AccountView>, count: u64, now: i64)
    requires
        renew_spec(program_id, a, count, now) matches Ok((RenewOutcome::Renewed { .. }, _)),
    ensures
        renew_spec(program_id, a, count, now).unwrap().1.last() matches Effect::WriteSubscription { account, record }
            && account == a[1].key && record.mint == Some(a[7].key) && record.renewal_count > 0
            && pda_check(a[7].key@, mint_seeds_spec(a[1].key@, (record.renewal_count - 1) as u64), program_id@) is Ok
            && is_associated_account(record.deposit_vault@, a[1].key@, record.deposit_mint@),
{
    let (sub, bump, balance) = renew_context_spec(program_id, a, count).unwrap();
    let (payout, fee) = match renew_decision_spec(sub, balance, now) {
        Ok(RenewOutcome::Renewed { payout, fee }) => (payout, fee),
        _ => (0u64, 0u64),
    };
    let pe = token_destination_spec(a[5], a[0].key, sub.payee, sub.deposit_mint).unwrap();
    let ce = token_destination_spec(a[6], a[0].key, a[0].key, sub.deposit_mint).unwrap();
    let mint_bump = pda_check(a[7].key@, mint_seeds_spec(a[1].key@, sub.renewal_count), program_id@).unwrap();
    let next = renewed_spec(sub, a[7].key, now).unwrap();
    let tail = paid_effects(a, sub, subscription_signer(sub, count, bump), mint_bump, payout, fee, next);
    let effects = pe + ce + tail;
    assert(renew_spec(program_id, a, count, now) == Ok::<(RenewOutcome, Seq<Effect>), ProcessError>((RenewOutcome::Renewed { payout, fee }, effects)));
    assert(effects.last() == tail[6]);
    assert((next.renewal_count - 1) as u64 == sub.renewal_count);
    assert(a[2].key@ == sub.deposit_vault@);
}

} // verus!
