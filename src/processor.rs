//! The protocol's operations, each from the accounts it names to the
//! effects the ledger runtime must apply, or the error that discards it.
use crate::address::Address;
use crate::instruction::{decode_instruction, decode_instruction_spec, SubscriptionInstruction};
use crate::processor::close::{close_spec, process_close};
use crate::processor::deposit::{deposit_spec, process_deposit};
use crate::processor::initialize::{initialize_spec, process_initialize};
use crate::processor::initialize2::process_initialize2;
use crate::processor::registry::{process_registry, registry_spec};
use crate::processor::renew::{process_renew, renew_spec};
use crate::processor::renew2::{process_renew2, renew2_spec};
use crate::processor::withdraw::{process_withdraw, withdraw_spec};
use crate::effects::Effect;
use crate::error::ProcessError;
use crate::state::{decode_subscription, load_subscription_spec, Subscription};
use crate::utils::{
    bad_address, check_ata, check_ata_initialized, is_associated_account, token_account_check,
    AccountView,
};
use vstd::prelude::*;

pub mod close;
pub mod deposit;
pub mod initialize;
pub mod initialize2;
pub mod registry;
pub mod renew;
pub mod renew2;
pub mod withdraw;

verus! {

/// Loading a subscription record, its errors as operation errors.
pub open spec fn load_record_spec(d: Seq<u8>) -> Result<Subscription, ProcessError> {
    match load_subscription_spec(d) {
        Ok(s) => Ok(s),
        Err(e) => Err(ProcessError::Subscription(e)),
    }
}

/// Loads the subscription record of an account.
pub fn load_record(account: &AccountView) -> (r: Result<Subscription, ProcessError>)
    ensures
        r == load_record_spec(account.data@),
{
    match decode_subscription(account.data.as_slice()) {
        Ok(s) => Ok(s),
        Err(e) => Err(ProcessError::Subscription(e)),
    }
}

/// Whether `holder` holds the subscription's current credential in its
/// account `holding`, where there is one: that account passes the
/// token-account check for the credential and holds a unit of it. Before
/// the first renewal there is no credential and nothing to prove.
pub open spec fn holds_credential(holding: AccountView, holder: Address, sub: Subscription) -> bool {
    match sub.mint {
        None => true,
        Some(m) => match token_account_check(holding, holder@, m@) {
            Ok(units) => units > 0,
            Err(_) => false,
        },
    }
}

/// Whether `holder` holds the subscription's current credential.
pub fn credential_held(holding: &AccountView, holder: &Address, sub: &Subscription) -> (r: bool)
    ensures
        r == holds_credential(*holding, *holder, *sub),
{
    match &sub.mint {
        None => true,
        Some(m) => match check_ata_initialized(holding, holder, m) {
            Ok(units) => units > 0,
            Err(_) => false,
        },
    }
}

/// Whether `holder` owns the subscription: it holds the current credential
/// in `holding` where there is one, and it is the recorded payer before
/// the first credential exists.
pub open spec fn owns_subscription(holding: AccountView, holder: Address, sub: Subscription) -> bool {
    match sub.mint {
        None => holder@ == sub.payer@,
        Some(_) => holds_credential(holding, holder, sub),
    }
}

/// Whether `holder` owns the subscription.
pub fn subscription_owned(holding: &AccountView, holder: &Address, sub: &Subscription) -> (r: bool)
    ensures
        r == owns_subscription(*holding, *holder, *sub),
{
    match &sub.mint {
        None => holder.same_as(&sub.payer),
        Some(_) => credential_held(holding, holder, sub),
    }
}

/// A token account that receives funds: where it does not exist yet it
/// must be the associated account of `wallet` for `mint` and is created,
/// paid by `funder`; where it exists it must pass the token-account check.
pub open spec fn token_destination_spec(acc: AccountView, funder: Address, wallet: Address, mint: Address) -> Result<Seq<Effect>, ProcessError> {
    if acc.data@.len() == 0 {
        if is_associated_account(acc.key@, wallet@, mint@) {
            Ok(seq![Effect::CreateTokenAccount { funder, wallet, mint }])
        } else {
            Err(bad_address())
        }
    } else {
        match token_account_check(acc, wallet@, mint@) {
            Ok(_) => Ok(Seq::empty()),
            Err(e) => Err(e),
        }
    }
}

/// The effects that make a token account ready to receive funds.
pub fn token_destination(acc: &AccountView, funder: &Address, wallet: &Address, mint: &Address) -> (r: Result<Vec<Effect>, ProcessError>)
    ensures
        r matches Ok(v) ==> token_destination_spec(*acc, *funder, *wallet, *mint) == Ok::<Seq<Effect>, ProcessError>(v@),
        r matches Err(e) ==> token_destination_spec(*acc, *funder, *wallet, *mint) == Err::<Seq<Effect>, ProcessError>(e),
{
    let mut v: Vec<Effect> = Vec::new();
    if acc.data.len() == 0 {
        check_ata(acc, wallet, mint)?;
        v.push(Effect::CreateTokenAccount { funder: *funder, wallet: *wallet, mint: *mint });
        assert(v@ =~= seq![Effect::CreateTokenAccount { funder: *funder, wallet: *wallet, mint: *mint }]);
    } else {
        check_ata_initialized(acc, wallet, mint)?;
        assert(v@ =~= Seq::<Effect>::empty());
    }
    Ok(v)
}

/// What an operation given as `data` does at time `now`.
pub open spec fn process_instruction_spec(program_id: Address, a: Seq<AccountView>, data: Seq<u8>, now: i64) -> Result<Seq<Effect>, ProcessError> {
    match decode_instruction_spec(data) {
        Err(e) => Err(e),
        Ok(SubscriptionInstruction::Initialize { payee, amount, duration }) => initialize_spec(program_id, a, payee, amount, duration),
        Ok(SubscriptionInstruction::Deposit { amount }) => deposit_spec(a, amount),
        Ok(SubscriptionInstruction::Withdraw { amount, count }) => withdraw_spec(program_id, a, amount, count),
        Ok(SubscriptionInstruction::Renew { count }) => match renew_spec(program_id, a, count, now) {
            Ok((_, effects)) => Ok(effects),
            Err(e) => Err(e),
        },
        Ok(SubscriptionInstruction::Close { count }) => close_spec(program_id, a, count),
        Ok(SubscriptionInstruction::Registry { count }) => registry_spec(program_id, a, count),
        Ok(SubscriptionInstruction::Renew2 {  }) => match renew2_spec(program_id, a, now) {
            Ok((_, effects)) => Ok(effects),
            Err(e) => Err(e),
        },
        Ok(SubscriptionInstruction::Initialize2 { .. }) => Err(ProcessError::InvalidInstructionData),
    }
}

/// The protocol's entry point.
pub struct Processor {}

impl Processor {
    /// Decodes the operation in `instruction_data` and performs it at time
    /// `now` on the named accounts.
    pub fn process_instruction(program_id: &Address, accounts: &[AccountView], instruction_data: &[u8], now: i64) -> (r: Result<Vec<Effect>, ProcessError>)
        ensures
            r matches Ok(v) ==> process_instruction_spec(*program_id, accounts@, instruction_data@, now) == Ok::<Seq<Effect>, ProcessError>(v@),
            r matches Err(e) ==> process_instruction_spec(*program_id, accounts@, instruction_data@, now) == Err::<Seq<Effect>, ProcessError>(e),
    {
        let instruction = decode_instruction(instruction_data)?;
        match instruction {
            SubscriptionInstruction::Initialize { payee, amount, duration } => process_initialize(program_id, accounts, &payee, amount, duration),
            SubscriptionInstruction::Deposit { amount } => process_deposit(accounts, amount),
            SubscriptionInstruction::Withdraw { amount, count } => process_withdraw(program_id, accounts, amount, count),
            SubscriptionInstruction::Renew { count } => match process_renew(program_id, accounts, count, now) {
                Ok((_, effects)) => Ok(effects),
                Err(e) => Err(e),
            },
            SubscriptionInstruction::Initialize2 { payee, amount, duration, start_amount } => process_initialize2(
                program_id,
                accounts,
                &payee,
                amount,
                duration,
                start_amount,
            ),
            SubscriptionInstruction::Renew2 {  } => match process_renew2(program_id, accounts, now) {
                Ok((_, effects)) => Ok(effects),
                Err(e) => Err(e),
            },
            SubscriptionInstruction::Close { count } => process_close(program_id, accounts, count),
            SubscriptionInstruction::Registry { count } => process_registry(program_id, accounts, count),
        }
    }
}

} // verus!
