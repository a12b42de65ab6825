//! Initialization: creates the `count`-th subscription of a plan, its
//! vault, and the plan's counter where it does not exist yet.
use crate::address::{
    associated_token_program_bytes, associated_token_program_id, canonical_address, counter_seeds,
    counter_seeds_spec, rent_sysvar_bytes, rent_sysvar_id, subscription_seeds,
    subscription_seeds_spec, system_program_bytes, system_program_id, token_program_bytes,
    token_program_id, Address,
};
use crate::codec::read_u64;
use crate::effects::{Effect, Signer};
use crate::error::{ProcessError, SubscriptionError};
use crate::state::{Subscription, COUNTER_LEN, SUBSCRIPTION_LEN};
use crate::utils::{
    bad_address, check_ata, check_pda, check_program_id, check_signer, check_writable,
    is_associated_account, pda_check, AccountView,
};
use vstd::bytes::{spec_u64_from_le_bytes, spec_u64_to_le_bytes, lemma_auto_spec_u64_to_from_le_bytes};
use vstd::prelude::*;

verus! {

/// The number of accounts an initialization names: user, counter,
/// subscription, vault, currency, system program, rent sysvar, token
/// program, associated-token program.
pub const INITIALIZE_ACCOUNTS: usize = 9;

/// The count stored in a counter account: 0 where it does not exist yet.
pub open spec fn counter_state_spec(d: Seq<u8>) -> Result<u64, ProcessError> {
    if d.len() == 0 {
        Ok(0)
    } else if d.len() == COUNTER_LEN {
        Ok(spec_u64_from_le_bytes(d))
    } else {
        Err(ProcessError::Subscription(SubscriptionError::CorruptRecord))
    }
}

/// The record of the `count`-th subscription of a plan, created by
/// `payer`: inactive, with no credential.
pub open spec fn initial_record(vault: Address, currency: Address, payee: Address, payer: Address, amount: u64, duration: i64, count: u64) -> Subscription {
    Subscription {
        active: false,
        mint: None,
        deposit_vault: vault,
        deposit_mint: currency,
        payee,
        payer,
        amount,
        duration,
        next_renew_time: 0,
        renewal_count: 0,
        count,
    }
}

/// Whether the collaborator accounts of an initialization are the collaborators.
pub open spec fn initialize_collaborators(a: Seq<AccountView>) -> bool {
    &&& a[5].key@ == system_program_bytes()
    &&& a[6].key@ == rent_sysvar_bytes()
    &&& a[7].key@ == token_program_bytes()
    &&& a[8].key@ == associated_token_program_bytes()
}

/// The effects of a successful initialization.
pub open spec fn initialize_effects(
    program_id: Address,
    a: Seq<AccountView>,
    payee: Address,
    amount: u64,
    duration: i64,
    count: u64,
    counter_bump: u8,
    subscription_bump: u8,
) -> Seq<Effect> {
    seq![
        Effect::CreateTokenAccount { funder: a[0].key, wallet: a[2].key, mint: a[4].key },
        Effect::CreateAccount {
            funder: a[0].key,
            account: a[2].key,
            space: SUBSCRIPTION_LEN as u64,
            owner: program_id,
            signer: Signer::Subscription { payee, amount, duration, count, bump: subscription_bump },
        },
        Effect::WriteSubscription { account: a[2].key, record: initial_record(a[3].key, a[4].key, payee, a[0].key, amount, duration, count) },
    ] + (if a[1].data@.len() == 0 {
        seq![
            Effect::CreateAccount {
                funder: a[0].key,
                account: a[1].key,
                space: COUNTER_LEN as u64,
                owner: program_id,
                signer: Signer::Counter { payee, amount, duration, bump: counter_bump },
            },
        ]
    } else {
        Seq::empty()
    }) + seq![Effect::WriteCounter { account: a[1].key, count: (count + 1) as u64 }]
}

/// An initialization of the plan `(payee, amount, duration)`.
pub open spec fn initialize_spec(program_id: Address, a: Seq<AccountView>, payee: Address, amount: u64, duration: i64) -> Result<Seq<Effect>, ProcessError> {
    if a.len() < INITIALIZE_ACCOUNTS {
        Err(ProcessError::NotEnoughAccountKeys)
    } else if !a[0].is_signer || !a[0].is_writable || !a[1].is_writable || !a[2].is_writable || !a[3].is_writable {
        Err(ProcessError::MissingRequiredSignature)
    } else {
        match counter_state_spec(a[1].data@) {
            Err(e) => Err(e),
            Ok(count) => match pda_check(a[1].key@, counter_seeds_spec(payee@, amount, duration), program_id@) {
                Err(e) => Err(e),
                Ok(counter_bump) => match pda_check(
                    a[2].key@,
                    subscription_seeds_spec(payee@, amount, duration, count),
                    program_id@,
                ) {
                    Err(e) => Err(e),
                    Ok(subscription_bump) => if a[2].data@.len() != 0 {
                        Err(ProcessError::Subscription(SubscriptionError::AlreadyInitialized))
                    } else if !is_associated_account(a[3].key@, a[2].key@, a[4].key@) {
                        Err(bad_address())
                    } else if !initialize_collaborators(a) {
                        Err(ProcessError::IncorrectProgramId)
                    } else if count == u64::MAX {
                        Err(ProcessError::ArithmeticOverflow)
                    } else {
                        Ok(initialize_effects(program_id, a, payee, amount, duration, count, counter_bump, subscription_bump))
                    },
                },
            },
        }
    }
}

fn counter_state(counter: &AccountView) -> (r: Result<u64, ProcessError>)
    ensures
        r == counter_state_spec(counter.data@),
{
    let n = counter.data.len();
    if n == 0 {
        Ok(0)
    } else if n == COUNTER_LEN {
        let c = read_u64(counter.data.as_slice(), 0);
        assert(counter.data@.subrange(0, 8) =~= counter.data@);
        Ok(c)
    } else {
        Err(ProcessError::Subscription(SubscriptionError::CorruptRecord))
    }
}

/// Initializes the next subscription of the plan `(payee, amount, duration)`:
/// its address is derived from the count the plan's counter holds (0 where
/// the counter does not exist yet), and the counter then holds one more.
pub fn process_initialize(program_id: &Address, accounts: &[AccountView], payee: &Address, amount: u64, duration: i64) -> (r: Result<Vec<Effect>, ProcessError>)
    ensures
        r matches Ok(v) ==> initialize_spec(*program_id, accounts@, *payee, amount, duration) == Ok::<Seq<Effect>, ProcessError>(v@),
        r matches Err(e) ==> initialize_spec(*program_id, accounts@, *payee, amount, duration) == Err::<Seq<Effect>, ProcessError>(e),
{
    if accounts.len() < INITIALIZE_ACCOUNTS {
        return Err(ProcessError::NotEnoughAccountKeys);
    }
    let user = &accounts[0];
    let counter = &accounts[1];
    let subscription = &accounts[2];
    let vault = &accounts[3];
    let currency = &accounts[4];
    check_signer(user)?;
    check_writable(user)?;
    check_writable(counter)?;
    check_writable(subscription)?;
    check_writable(vault)?;
    let count = counter_state(counter)?;
    let counter_bump = check_pda(counter, &counter_seeds(payee, amount, duration), program_id)?;
    let subscription_bump = check_pda(subscription, &subscription_seeds(payee, amount, duration, count), program_id)?;
    if subscription.data.len() != 0 {
        return Err(ProcessError::Subscription(SubscriptionError::AlreadyInitialized));
    }
    check_ata(vault, &subscription.key, &currency.key)?;
    check_program_id(&accounts[5], &system_program_id())?;
    check_program_id(&accounts[6], &rent_sysvar_id())?;
    check_program_id(&accounts[7], &token_program_id())?;
    check_program_id(&accounts[8], &associated_token_program_id())?;
    if count == u64::MAX {
        return Err(ProcessError::ArithmeticOverflow);
    }
    let record = Subscription {
        active: false,
        mint: None,
        deposit_vault: vault.key,
        deposit_mint: currency.key,
        payee: *payee,
        payer: user.key,
        amount,
        duration,
        next_renew_time: 0,
        renewal_count: 0,
        count,
    };
    let mut effects: Vec<Effect> = Vec::new();
    effects.push(Effect::CreateTokenAccount { funder: user.key, wallet: subscription.key, mint: currency.key });
    effects.push(Effect::CreateAccount {
        funder: user.key,
        account: subscription.key,
        space: SUBSCRIPTION_LEN as u64,
        owner: *program_id,
        signer: Signer::Subscription { payee: *payee, amount, duration, count, bump: subscription_bump },
    });
    effects.push(Effect::WriteSubscription { account: subscription.key, record });
    if counter.data.len() == 0 {
        effects.push(Effect::CreateAccount {
            funder: user.key,
            account: counter.key,
            space: COUNTER_LEN as u64,
            owner: *program_id,
            signer: Signer::Counter { payee: *payee, amount, duration, bump: counter_bump },
        });
    }
    effects.push(Effect::WriteCounter { account: counter.key, count: count + 1 });
    assert(effects@ =~= initialize_effects(*program_id, accounts@, *payee, amount, duration, count, counter_bump, subscription_bump));
    Ok(effects)
}

/// The count that the last effect of an initialization stores in the counter.
pub open spec fn written_count(effects: Seq<Effect>) -> u64 {
    match effects.last() {
        Effect::WriteCounter { count, .. } => count,
        _ => 0,
    }
}

/// One successful initialization: it derives the subscription's address
/// from the count its counter holds and stores one more.
pub proof fn lemma_initialize_step(program_id: Address, a: Seq<AccountView>, payee: Address, amount: u64, duration: i64)
    requires
        initialize_spec(program_id, a, payee, amount, duration) is Ok,
    ensures
        counter_state_spec(a[1].data@) is Ok,
        canonical_address(
            subscription_seeds_spec(payee@, amount, duration, counter_state_spec(a[1].data@).unwrap()),
            program_id@,
        ) matches Some((addr, _)) && addr == a[2].key@,
        written_count(initialize_spec(program_id, a, payee, amount, duration).unwrap()) == counter_state_spec(a[1].data@).unwrap() + 1,
{
}

/// The counter account's data after an initialization attempt: the count
/// a successful one writes, unchanged after a failed one (a failed
/// operation is discarded whole).
pub open spec fn counter_after(program_id: Address, a: Seq<AccountView>, payee: Address, amount: u64, duration: i64) -> Seq<u8> {
    match initialize_spec(program_id, a, payee, amount, duration) {
        Ok(effects) => spec_u64_to_le_bytes(written_count(effects)),
        Err(_) => a[1].data@,
    }
}

/// The number of successful attempts among `runs`.
pub open spec fn successes(program_id: Address, payee: Address, amount: u64, duration: i64, runs: Seq<Seq<AccountView>>) -> nat
    decreases runs.len(),
{
    if runs.len() == 0 {
        0
    } else {
        successes(program_id, payee, amount, duration, runs.drop_last()) + if initialize_spec(
            program_id,
            runs.last(),
            payee,
            amount,
            duration,
        ) is Ok {
            1nat
        } else {
            0nat
        }
    }
}

/// Whether `runs` are successive initialization attempts for one plan, each
/// naming at least its accounts and seeing the counter data the one before
/// left, the first seeing no counter at all.
pub open spec fn chained_attempts(program_id: Address, payee: Address, amount: u64, duration: i64, runs: Seq<Seq<AccountView>>) -> bool {
    &&& forall|k: int| 0 <= k < runs.len() ==> (#[trigger] runs[k]).len() >= INITIALIZE_ACCOUNTS
    &&& runs.len() > 0 ==> runs[0][1].data@.len() == 0
    &&& forall|k: int|
        0 < k < runs.len() ==> (#[trigger] runs[k])[1].data@ == counter_after(program_id, runs[k - 1], payee, amount, duration)
}

/// Repeated initialization attempts for one plan, each seeing the counter
/// the one before left: before the `k`-th attempt the counter holds the
/// number of earlier successes, so each success derives its subscription
/// address from a count one higher than the success before it, and a
/// failure leaves the counter as it was.
pub proof fn lemma_repeated_initialize(
    program_id: Address,
    payee: Address,
    amount: u64,
    duration: i64,
    runs: Seq<Seq<AccountView>>,
    k: int,
)
    requires
        chained_attempts(program_id, payee, amount, duration, runs),
        0 <= k < runs.len(),
    ensures
        successes(program_id, payee, amount, duration, runs.subrange(0, k)) <= u64::MAX,
        counter_state_spec(runs[k][1].data@) == Ok::<u64, ProcessError>(
            successes(program_id, payee, amount, duration, runs.subrange(0, k)) as u64,
        ),
        initialize_spec(program_id, runs[k], payee, amount, duration) is Ok ==> {
            &&& canonical_address(
                subscription_seeds_spec(payee@, amount, duration, successes(program_id, payee, amount, duration, runs.subrange(0, k)) as u64),
                program_id@,
            ) matches Some((addr, _)) && addr == runs[k][2].key@
            &&& written_count(initialize_spec(program_id, runs[k], payee, amount, duration).unwrap())
                == successes(program_id, payee, amount, duration, runs.subrange(0, k)) + 1
        },
    decreases k,
{
    lemma_auto_spec_u64_to_from_le_bytes();
    if k > 0 {
        lemma_repeated_initialize(program_id, payee, amount, duration, runs, k - 1);
        let prev = runs[k - 1];
        assert(runs.subrange(0, k).drop_last() =~= runs.subrange(0, k - 1));
        assert(runs.subrange(0, k).last() == prev);
        assert(runs[k][1].data@ == counter_after(program_id, prev, payee, amount, duration));
        if initialize_spec(program_id, prev, payee, amount, duration) is Ok {
            lemma_initialize_step(program_id, prev, payee, amount, duration);
        }
    } else {
        assert(runs.subrange(0, 0).len() == 0);
    }
    if initialize_spec(program_id, runs[k], payee, amount, duration) is Ok {
        lemma_initialize_step(program_id, runs[k], payee, amount, duration);
    }
}

} // verus!
