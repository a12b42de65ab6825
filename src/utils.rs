//! Validation of the accounts that an operation names.
use crate::address::{
    associated_seeds, associated_token_address, associated_token_program_bytes, canonical_address,
    counter_seeds, counter_seeds_spec, create_program_address, find_program_address, mint_seeds,
    mint_seeds_spec, program_address, seeds_view, seeds_within_limits, subscription_seeds,
    subscription_seeds_spec, token_program_bytes, token_program_id, with_bump, Address, MAX_SEEDS,
    MAX_SEED_LEN,
};
use crate::error::{ProcessError, UtilsError};
use crate::token::{
    token_account_layout_ok, token_amount, token_mint_bytes, token_owner_bytes,
    unpack_token_account,
};
use vstd::prelude::*;

verus! {

/// What an operation sees of one account it names.
#[derive(Debug, Clone, PartialEq, Eq)]
pub struct AccountView {
    /// The account's address.
    pub key: Address,
    /// Whether the operation carries the account's signature.
    pub is_signer: bool,
    /// Whether the operation may write the account.
    pub is_writable: bool,
    /// The program that owns the account.
    pub owner: Address,
    /// The account's balance of the base currency.
    pub lamports: u64,
    /// The account's data.
    pub data: Vec<u8>,
}

/// The error of an address that is not the one its derivation gives.
pub open spec fn bad_address() -> ProcessError {
    ProcessError::Utils(UtilsError::InvalidProgramAddress)
}

/// Checking an account against the canonical derivation of `seeds`: the
/// bump seed where the account's address is the derived one.
pub open spec fn pda_check(key: Seq<u8>, seeds: Seq<Seq<u8>>, program: Seq<u8>) -> Result<u8, ProcessError> {
    match canonical_address(seeds, program) {
        Some((a, b)) => if a == key {
            Ok(b)
        } else {
            Err(bad_address())
        },
        None => Err(bad_address()),
    }
}

/// Whether `key` is the associated token account of `wallet` for `mint`.
pub open spec fn is_associated_account(key: Seq<u8>, wallet: Seq<u8>, mint: Seq<u8>) -> bool {
    match canonical_address(associated_seeds(wallet, mint), associated_token_program_bytes()) {
        Some((a, _)) => a == key,
        None => false,
    }
}

/// Checking a token account: it must be the associated account of
/// `wallet` for `mint`, owned by the token program, well formed, held by
/// `wallet` and of currency `mint`. Gives its balance.
pub open spec fn token_account_check(acc: AccountView, wallet: Seq<u8>, mint: Seq<u8>) -> Result<u64, ProcessError> {
    if !is_associated_account(acc.key@, wallet, mint) {
        Err(bad_address())
    } else if acc.owner@ != token_program_bytes() {
        Err(ProcessError::IllegalOwner)
    } else if !token_account_layout_ok(acc.data@) {
        Err(ProcessError::InvalidAccountData)
    } else if token_owner_bytes(acc.data@) != wallet {
        Err(ProcessError::TokenOwnerMismatch)
    } else if token_mint_bytes(acc.data@) != mint {
        Err(ProcessError::TokenMintMismatch)
    } else {
        Ok(token_amount(acc.data@))
    }
}

/// Fails with `err` unless `statement` holds.
pub fn assert_msg(statement: bool, err: ProcessError) -> (r: Result<(), ProcessError>)
    ensures
        r == (if statement {
            Ok::<(), ProcessError>(())
        } else {
            Err(err)
        }),
{
    if !statement {
        Err(err)
    } else {
        Ok(())
    }
}

/// The account must carry a signature.
pub fn check_signer(account: &AccountView) -> (r: Result<(), ProcessError>)
    ensures
        r is Ok <==> account.is_signer,
        r is Err ==> r == Err::<(), ProcessError>(ProcessError::MissingRequiredSignature),
{
    if !account.is_signer {
        Err(ProcessError::MissingRequiredSignature)
    } else {
        Ok(())
    }
}

/// The account must be writable.
pub fn check_writable(account: &AccountView) -> (r: Result<(), ProcessError>)
    ensures
        r is Ok <==> account.is_writable,
        r is Err ==> r == Err::<(), ProcessError>(ProcessError::MissingRequiredSignature),
{
    if !account.is_writable {
        Err(ProcessError::MissingRequiredSignature)
    } else {
        Ok(())
    }
}

/// The account's address must be the canonical derivation of `seeds`
/// under `program_id`; gives the derivation's bump seed.
pub fn check_pda(account: &AccountView, seeds: &Vec<Vec<u8>>, program_id: &Address) -> (r: Result<u8, ProcessError>)
    ensures
        r == pda_check(account.key@, seeds_view(seeds@), program_id@),
{
    match find_program_address(seeds, program_id) {
        Some((pda, bump)) => if account.key.same_as(&pda) {
            Ok(bump)
        } else {
            Err(ProcessError::Utils(UtilsError::InvalidProgramAddress))
        },
        None => Err(ProcessError::Utils(UtilsError::InvalidProgramAddress)),
    }
}

/// Checking an account against the derivation of `seeds`, which end in a
/// bump seed: too many or too long seeds, seeds that derive no address,
/// and an address that is not the account's are refused in that order.
pub open spec fn pda_with_bump_check(key: Seq<u8>, seeds: Seq<Seq<u8>>, program: Seq<u8>) -> Result<(), ProcessError> {
    if !seeds_within_limits(seeds) {
        Err(ProcessError::MaxSeedLengthExceeded)
    } else {
        match program_address(seeds, program) {
            None => Err(ProcessError::InvalidSeeds),
            Some(a) => if a == key {
                Ok(())
            } else {
                Err(bad_address())
            },
        }
    }
}

fn within_limits(seeds: &Vec<Vec<u8>>) -> (r: bool)
    ensures
        r == seeds_within_limits(seeds_view(seeds@)),
{
    if seeds.len() > MAX_SEEDS {
        return false;
    }
    let mut i: usize = 0;
    while i < seeds.len()
        invariant
            i <= seeds@.len() <= MAX_SEEDS,
            forall|j: int| 0 <= j < i ==> #[trigger] seeds_view(seeds@)[j].len() <= MAX_SEED_LEN,
        decreases seeds@.len() - i,
    {
        if seeds[i].len() > MAX_SEED_LEN {
            assert(seeds_view(seeds@)[i as int].len() > MAX_SEED_LEN);
            return false;
        }
        i = i + 1;
    }
    true
}

/// The account's address must be what `seeds`, which end in a bump seed,
/// derive under `program_id`.
pub fn check_pda_with_bump(account: &AccountView, seeds: &Vec<Vec<u8>>, program_id: &Address) -> (r: Result<(), ProcessError>)
    ensures
        r == pda_with_bump_check(account.key@, seeds_view(seeds@), program_id@),
{
    if !within_limits(seeds) {
        return Err(ProcessError::MaxSeedLengthExceeded);
    }
    match create_program_address(seeds, program_id) {
        Some(pda) => if account.key.same_as(&pda) {
            Ok(())
        } else {
            Err(ProcessError::Utils(UtilsError::InvalidProgramAddress))
        },
        None => Err(ProcessError::InvalidSeeds),
    }
}

/// The account must be the associated token account of `user_address`
/// for `mint_address`.
pub fn check_ata(account: &AccountView, user_address: &Address, mint_address: &Address) -> (r: Result<(), ProcessError>)
    ensures
        r is Ok <==> is_associated_account(account.key@, user_address@, mint_address@),
        r is Err ==> r == Err::<(), ProcessError>(bad_address()),
{
    match associated_token_address(user_address, mint_address) {
        Some(ata) => if account.key.same_as(&ata) {
            Ok(())
        } else {
            Err(ProcessError::Utils(UtilsError::InvalidProgramAddress))
        },
        None => Err(ProcessError::Utils(UtilsError::InvalidProgramAddress)),
    }
}

/// The account must be an existing token account: the associated account
/// of `user_address` for `mint_address`, owned by the token program, held
/// by `user_address` and of currency `mint_address`. Gives its balance.
pub fn check_ata_initialized(account: &AccountView, user_address: &Address, mint_address: &Address) -> (r: Result<u64, ProcessError>)
    ensures
        r == token_account_check(*account, user_address@, mint_address@),
{
    check_ata(account, user_address, mint_address)?;
    let token_program = token_program_id();
    if !account.owner.same_as(&token_program) {
        return Err(ProcessError::IllegalOwner);
    }
    let token_account = unpack_token_account(account.data.as_slice())?;
    if !token_account.owner.same_as(user_address) {
        return Err(ProcessError::TokenOwnerMismatch);
    }
    if !token_account.mint.same_as(mint_address) {
        return Err(ProcessError::TokenMintMismatch);
    }
    Ok(token_account.amount)
}

/// The account must be the collaborator whose address is `program_id`.
pub fn check_program_id(account: &AccountView, program_id: &Address) -> (r: Result<(), ProcessError>)
    ensures
        r is Ok <==> account.key@ == program_id@,
        r is Err ==> r == Err::<(), ProcessError>(ProcessError::IncorrectProgramId),
{
    if !account.key.same_as(program_id) {
        Err(ProcessError::IncorrectProgramId)
    } else {
        Ok(())
    }
}

/// The account must be the counter of the plan `(payee, amount, duration)`:
/// derived with `bump` where one is given, canonically otherwise.
pub fn check_subscription_counter_address(
    account: &AccountView,
    payee: &Address,
    amount: u64,
    duration: i64,
    bump: Option<u8>,
    program_id: &Address,
) -> (r: Result<(), ProcessError>)
    ensures
        bump is None ==> (r is Ok <==> pda_check(account.key@, counter_seeds_spec(payee@, amount, duration), program_id@) is Ok),
        bump is None && r is Err ==> r == Err::<(), ProcessError>(bad_address()),
        bump matches Some(b) ==> r == pda_with_bump_check(account.key@, counter_seeds_spec(payee@, amount, duration).push(seq![b]), program_id@),
{
    let seeds = counter_seeds(payee, amount, duration);
    match bump {
        Some(b) => check_pda_with_bump(account, &with_bump(&seeds, b), program_id),
        None => match check_pda(account, &seeds, program_id) {
            Ok(_) => Ok(()),
            Err(e) => Err(e),
        },
    }
}

/// The account must be the `count`-th subscription of the plan
/// `(payee, amount, duration)`: derived with `bump` where one is given,
/// canonically otherwise.
pub fn check_subscription_address(
    account: &AccountView,
    payee: &Address,
    amount: u64,
    duration: i64,
    count: u64,
    bump: Option<u8>,
    program_id: &Address,
) -> (r: Result<(), ProcessError>)
    ensures
        bump is None ==> (r is Ok <==> pda_check(account.key@, subscription_seeds_spec(payee@, amount, duration, count), program_id@) is Ok),
        bump is None && r is Err ==> r == Err::<(), ProcessError>(bad_address()),
        bump matches Some(b) ==> r == pda_with_bump_check(account.key@, subscription_seeds_spec(payee@, amount, duration, count).push(seq![b]), program_id@),
{
    let seeds = subscription_seeds(payee, amount, duration, count);
    match bump {
        Some(b) => check_pda_with_bump(account, &with_bump(&seeds, b), program_id),
        None => match check_pda(account, &seeds, program_id) {
            Ok(_) => Ok(()),
            Err(e) => Err(e),
        },
    }
}

/// The account must be the credential mint of generation `generation` of
/// the subscription `subscription_key`: derived with `bump` where one is
/// given, canonically otherwise.
pub fn check_subscription_mint_address(
    account: &AccountView,
    subscription_key: &Address,
    generation: u64,
    bump: Option<u8>,
    program_id: &Address,
) -> (r: Result<(), ProcessError>)
    ensures
        bump is None ==> (r is Ok <==> pda_check(account.key@, mint_seeds_spec(subscription_key@, generation), program_id@) is Ok),
        bump is None && r is Err ==> r == Err::<(), ProcessError>(bad_address()),
        bump matches Some(b) ==> r == pda_with_bump_check(account.key@, mint_seeds_spec(subscription_key@, generation).push(seq![b]), program_id@),
{
    let seeds = mint_seeds(subscription_key, generation);
    match bump {
        Some(b) => check_pda_with_bump(account, &with_bump(&seeds, b), program_id),
        None => match check_pda(account, &seeds, program_id) {
            Ok(_) => Ok(()),
            Err(e) => Err(e),
        },
    }
}

} // verus!
