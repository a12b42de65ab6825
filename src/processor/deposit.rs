//! Deposit: a payer moves funds from its token account into a vault.
use crate::address::{token_program_bytes, token_program_id};
use crate::effects::Effect;
use crate::error::ProcessError;
use crate::token::{token_account_layout_ok, token_mint_bytes, token_owner_bytes, unpack_token_account};
use crate::utils::{check_program_id, check_signer, check_writable, AccountView};
use vstd::prelude::*;

verus! {

/// The number of accounts a deposit names: payer, payer's token account,
/// vault, token program.
pub const DEPOSIT_ACCOUNTS: usize = 4;

/// A deposit of `amount` units.
pub open spec fn deposit_spec(a: Seq<AccountView>, amount: u64) -> Result<Seq<Effect>, ProcessError> {
    if a.len() < DEPOSIT_ACCOUNTS {
        Err(ProcessError::NotEnoughAccountKeys)
    } else if a[3].key@ != token_program_bytes() {
        Err(ProcessError::IncorrectProgramId)
    } else if !a[0].is_signer || !a[0].is_writable || !a[1].is_writable || !a[2].is_writable {
        Err(ProcessError::MissingRequiredSignature)
    } else if a[1].owner@ != token_program_bytes() || a[2].owner@ != token_program_bytes() {
        Err(ProcessError::IllegalOwner)
    } else if !token_account_layout_ok(a[1].data@) || !token_account_layout_ok(a[2].data@) {
        Err(ProcessError::InvalidAccountData)
    } else if token_owner_bytes(a[1].data@) != a[0].key@ {
        Err(ProcessError::TokenOwnerMismatch)
    } else if token_mint_bytes(a[2].data@) != token_mint_bytes(a[1].data@) {
        Err(ProcessError::TokenMintMismatch)
    } else {
        Ok(seq![Effect::Transfer { source: a[1].key, destination: a[2].key, authority: a[0].key, amount, signed_by: None }])
    }
}

/// Deposits `amount` units from the payer's token account into the vault,
/// which must hold the same currency.
pub fn process_deposit(accounts: &[AccountView], amount: u64) -> (r: Result<Vec<Effect>, ProcessError>)
    ensures
        r matches Ok(v) ==> deposit_spec(accounts@, amount) == Ok::<Seq<Effect>, ProcessError>(v@),
        r matches Err(e) ==> deposit_spec(accounts@, amount) == Err::<Seq<Effect>, ProcessError>(e),
{
    if accounts.len() < DEPOSIT_ACCOUNTS {
        return Err(ProcessError::NotEnoughAccountKeys);
    }
    let payer = &accounts[0];
    let payer_token = &accounts[1];
    let vault = &accounts[2];
    check_program_id(&accounts[3], &token_program_id())?;
    check_signer(payer)?;
    check_writable(payer)?;
    check_writable(payer_token)?;
    check_writable(vault)?;
    let token_program = token_program_id();
    if !payer_token.owner.same_as(&token_program) || !vault.owner.same_as(&token_program) {
        return Err(ProcessError::IllegalOwner);
    }
    let payer_account = unpack_token_account(payer_token.data.as_slice())?;
    let vault_account = unpack_token_account(vault.data.as_slice())?;
    if !payer_account.owner.same_as(&payer.key) {
        return Err(ProcessError::TokenOwnerMismatch);
    }
    if !vault_account.mint.same_as(&payer_account.mint) {
        return Err(ProcessError::TokenMintMismatch);
    }
    let mut effects: Vec<Effect> = Vec::new();
    effects.push(Effect::Transfer { source: payer_token.key, destination: vault.key, authority: payer.key, amount, signed_by: None });
    assert(effects@ =~= deposit_spec(accounts@, amount).unwrap());
    Ok(effects)
}

} // verus!
