//! Registration: adds a subscription's plan to the registry of plans.
use crate::address::{
    registry_seeds, registry_seeds_spec, rent_sysvar_bytes, rent_sysvar_id, subscription_seeds,
    subscription_seeds_spec, system_program_bytes, system_program_id, Address,
};
use crate::effects::{Effect, Signer};
use crate::error::ProcessError;
use crate::processor::{load_record, load_record_spec};
use crate::registry::{fingerprint_spec, register, register_spec, FINGERPRINT_LEN};
use crate::utils::{check_pda, check_program_id, check_signer, check_writable, pda_check, AccountView};
use vstd::prelude::*;

verus! {

/// The number of accounts a registration names: user, registry,
/// subscription, system program, rent sysvar.
pub const REGISTRY_ACCOUNTS: usize = 5;

/// The effects that store the plan `(payee, amount, duration)` in a
/// registry holding `len` bytes: the registry is created or grown by one
/// fingerprint, then the fingerprint is written at its end.
pub open spec fn registry_effects(program_id: Address, a: Seq<AccountView>, bump: u8, payee: Address, amount: u64, duration: i64) -> Seq<Effect> {
    let len = a[1].data@.len();
    (if len == 0 {
        seq![
            Effect::CreateAccount {
                funder: a[0].key,
                account: a[1].key,
                space: FINGERPRINT_LEN as u64,
                owner: program_id,
                signer: Signer::Registry { bump },
            },
        ]
    } else {
        seq![Effect::ResizeRecord { account: a[1].key, funder: a[0].key, len: (len + FINGERPRINT_LEN) as u64 }]
    }) + seq![Effect::WriteRegistryEntry { account: a[1].key, offset: len as u64, payee, amount, duration }]
}

/// Registering the plan of the `count`-th subscription of its plan.
pub open spec fn registry_spec(program_id: Address, a: Seq<AccountView>, count: u64) -> Result<Seq<Effect>, ProcessError> {
    if a.len() < REGISTRY_ACCOUNTS {
        Err(ProcessError::NotEnoughAccountKeys)
    } else if !a[0].is_signer || !a[0].is_writable || !a[1].is_writable {
        Err(ProcessError::MissingRequiredSignature)
    } else if a[3].key@ != system_program_bytes() || a[4].key@ != rent_sysvar_bytes() {
        Err(ProcessError::IncorrectProgramId)
    } else {
        match pda_check(a[1].key@, registry_seeds_spec(), program_id@) {
            Err(e) => Err(e),
            Ok(bump) => match load_record_spec(a[2].data@) {
                Err(e) => Err(e),
                Ok(sub) => if a[2].owner@ != program_id@ {
                    Err(ProcessError::IllegalOwner)
                } else {
                    match pda_check(a[2].key@, subscription_seeds_spec(sub.payee@, sub.amount, sub.duration, count), program_id@) {
                        Err(e) => Err(e),
                        Ok(_) => match register_spec(a[1].data@, fingerprint_spec(sub.payee@, sub.amount, sub.duration)) {
                            Err(e) => Err(e),
                            Ok(_) => if a[1].data@.len() + FINGERPRINT_LEN > u64::MAX {
                                Err(ProcessError::ArithmeticOverflow)
                            } else {
                                Ok(registry_effects(program_id, a, bump, sub.payee, sub.amount, sub.duration))
                            },
                        },
                    }
                },
            },
        }
    }
}

/// Adds the plan of the `count`-th subscription of its plan to the
/// registry, unless it is there already.
pub fn process_registry(program_id: &Address, accounts: &[AccountView], count: u64) -> (r: Result<Vec<Effect>, ProcessError>)
    ensures
        r matches Ok(v) ==> registry_spec(*program_id, accounts@, count) == Ok::<Seq<Effect>, ProcessError>(v@),
        r matches Err(e) ==> registry_spec(*program_id, accounts@, count) == Err::<Seq<Effect>, ProcessError>(e),
{
    if accounts.len() < REGISTRY_ACCOUNTS {
        return Err(ProcessError::NotEnoughAccountKeys);
    }
    let user = &accounts[0];
    let registry = &accounts[1];
    let subscription = &accounts[2];
    check_signer(user)?;
    check_writable(user)?;
    check_writable(registry)?;
    check_program_id(&accounts[3], &system_program_id())?;
    check_program_id(&accounts[4], &rent_sysvar_id())?;
    let bump = check_pda(registry, &registry_seeds(), program_id)?;
    let sub = load_record(subscription)?;
    if !subscription.owner.same_as(program_id) {
        return Err(ProcessError::IllegalOwner);
    }
    check_pda(subscription, &subscription_seeds(&sub.payee, sub.amount, sub.duration, count), program_id)?;
    register(registry.data.as_slice(), &sub.payee, sub.amount, sub.duration)?;
    let len = registry.data.len();
    if len as u64 > u64::MAX - FINGERPRINT_LEN as u64 {
        return Err(ProcessError::ArithmeticOverflow);
    }
    let mut effects: Vec<Effect> = Vec::new();
    if len == 0 {
        effects.push(Effect::CreateAccount {
            funder: user.key,
            account: registry.key,
            space: FINGERPRINT_LEN as u64,
            owner: *program_id,
            signer: Signer::Registry { bump },
        });
    } else {
        effects.push(Effect::ResizeRecord { account: registry.key, funder: user.key, len: len as u64 + FINGERPRINT_LEN as u64 });
    }
    effects.push(Effect::WriteRegistryEntry {
        account: registry.key,
        offset: len as u64,
        payee: sub.payee,
        amount: sub.amount,
        duration: sub.duration,
    });
    assert(effects@ =~= registry_effects(*program_id, accounts@, bump, sub.payee, sub.amount, sub.duration));
    Ok(effects)
}

} // verus!
