//! What a client computes before it submits an operation: the derived
//! addresses of a plan's accounts, the next count, whole instructions.
use crate::address::{
    associated_seeds, associated_token_address, associated_token_program_bytes,
    associated_token_program_id, canonical_address, counter_seeds, counter_seeds_spec,
    find_program_address, found_view, rent_sysvar_bytes, rent_sysvar_id, subscription_seeds,
    subscription_seeds_spec, system_program_bytes, system_program_id, token_program_bytes,
    token_program_id, Address,
};
use crate::codec::{append_address, append_u64, i64_to_bits, read_u64};
use crate::instruction::{
    initialize as initialize_instruction, instruction_bytes, names_collaborator, readonly, writable,
    AccountMeta, Instruction, SubscriptionInstruction,
};
use crate::state::COUNTER_LEN;
use vstd::bytes::spec_u64_from_le_bytes;
use vstd::prelude::*;

verus! {

/// The address of the counter of the plan `(payee, amount, duration)`
/// under the program `program_id`, with its bump seed.
pub fn get_counter_address(program_id: &Address, payee: &Address, amount: u64, duration: i64) -> (r: Option<(Address, u8)>)
    ensures
        found_view(r) == canonical_address(counter_seeds_spec(payee@, amount, duration), program_id@),
{
    find_program_address(&counter_seeds(payee, amount, duration), program_id)
}

/// The address of the `count`-th subscription of the plan
/// `(payee, amount, duration)` under the program `program_id`, with its
/// bump seed.
pub fn get_subscription_address(program_id: &Address, payee: &Address, amount: u64, duration: i64, count: u64) -> (r: Option<(Address, u8)>)
    ensures
        found_view(r) == canonical_address(subscription_seeds_spec(payee@, amount, duration, count), program_id@),
{
    find_program_address(&subscription_seeds(payee, amount, duration, count), program_id)
}

/// The count a plan's counter holds, given the counter account's data
/// where the account exists: 0 where it does not, `None` where its data
/// is not a counter record.
pub fn get_subscription_count(counter_data: Option<&[u8]>) -> (r: Option<u64>)
    ensures
        counter_data is None ==> r == Some(0u64),
        counter_data matches Some(d) ==> (r is Some <==> d@.len() == COUNTER_LEN),
        counter_data matches Some(d) ==> (r matches Some(c) ==> c == spec_u64_from_le_bytes(d@)),
{
    match counter_data {
        None => Some(0),
        Some(d) => if d.len() == COUNTER_LEN {
            let c = read_u64(d, 0);
            assert(d@.subrange(0, 8) =~= d@);
            Some(c)
        } else {
            None
        },
    }
}

/// Builds the `Initialize` instruction that creates the `count`-th
/// subscription of the plan `(payee, amount, duration)` with its vault in
/// `deposit_mint`; `None` where one of the addresses has no derivation.
pub fn initialize(
    program_id: &Address,
    user_pubkey: &Address,
    deposit_mint: &Address,
    payee: &Address,
    amount: u64,
    duration: i64,
    count: u64,
) -> (r: Option<Instruction>)
    ensures
        r is Some <==> ({
            &&& canonical_address(counter_seeds_spec(payee@, amount, duration), program_id@) is Some
            &&& canonical_address(subscription_seeds_spec(payee@, amount, duration, count), program_id@) matches Some((s, _))
                && canonical_address(associated_seeds(s, deposit_mint@), associated_token_program_bytes()) is Some
        }),
        r matches Some(ix) ==> {
            &&& ix.program_id == *program_id
            &&& ix.data@ == instruction_bytes(SubscriptionInstruction::Initialize { payee: *payee, amount, duration })
            &&& ix.accounts@.len() == 9
            &&& ix.accounts@[0] == writable(*user_pubkey, true)
            &&& ix.accounts@[1].pubkey@ == canonical_address(counter_seeds_spec(payee@, amount, duration), program_id@).unwrap().0
            &&& ix.accounts@[2].pubkey@ == canonical_address(subscription_seeds_spec(payee@, amount, duration, count), program_id@).unwrap().0
            &&& ix.accounts@[3].pubkey@ == canonical_address(
                associated_seeds(ix.accounts@[2].pubkey@, deposit_mint@),
                associated_token_program_bytes(),
            ).unwrap().0
            &&& ix.accounts@[4] == readonly(*deposit_mint)
        },
{
    let (counter, _) = match get_counter_address(program_id, payee, amount, duration) {
        Some(found) => found,
        None => return None,
    };
    let (subscription, _) = match get_subscription_address(program_id, payee, amount, duration, count) {
        Some(found) => found,
        None => return None,
    };
    let deposit_vault = match associated_token_address(&subscription, deposit_mint) {
        Some(a) => a,
        None => return None,
    };
    Some(initialize_instruction(program_id, user_pubkey, &counter, &subscription, &deposit_vault, deposit_mint, payee, amount, duration))
}

/// Builds an `Initialize` instruction from its accounts, writing the
/// operation's bytes directly: tag 0, payee, amount, duration.
pub fn initialize_raw(
    program_id: &Address,
    user_pubkey: &Address,
    counter_pubkey: &Address,
    subscription_pubkey: &Address,
    vault_pubkey: &Address,
    vault_mint_pubkey: &Address,
    payee: &Address,
    amount: u64,
    duration: i64,
) -> (r: Instruction)
    ensures
        r.program_id == *program_id,
        r.data@ == instruction_bytes(SubscriptionInstruction::Initialize { payee: *payee, amount, duration }),
        r.accounts@.len() == 9,
        r.accounts@.subrange(0, 5) == seq![
            writable(*user_pubkey, true),
            writable(*counter_pubkey, false),
            writable(*subscription_pubkey, false),
            writable(*vault_pubkey, false),
            readonly(*vault_mint_pubkey),
        ],
        names_collaborator(r.accounts@[5], system_program_bytes()),
        names_collaborator(r.accounts@[6], rent_sysvar_bytes()),
        names_collaborator(r.accounts@[7], token_program_bytes()),
        names_collaborator(r.accounts@[8], associated_token_program_bytes()),
{
    let mut data: Vec<u8> = Vec::new();
    data.push(0u8);
    append_address(&mut data, payee);
    append_u64(&mut data, amount);
    append_u64(&mut data, i64_to_bits(duration));
    assert(data@ =~= instruction_bytes(SubscriptionInstruction::Initialize { payee: *payee, amount, duration }));
    let accounts = vec![
        AccountMeta { pubkey: *user_pubkey, is_signer: true, is_writable: true },
        AccountMeta { pubkey: *counter_pubkey, is_signer: false, is_writable: true },
        AccountMeta { pubkey: *subscription_pubkey, is_signer: false, is_writable: true },
        AccountMeta { pubkey: *vault_pubkey, is_signer: false, is_writable: true },
        AccountMeta { pubkey: *vault_mint_pubkey, is_signer: false, is_writable: false },
        AccountMeta { pubkey: system_program_id(), is_signer: false, is_writable: false },
        AccountMeta { pubkey: rent_sysvar_id(), is_signer: false, is_writable: false },
        AccountMeta { pubkey: token_program_id(), is_signer: false, is_writable: false },
        AccountMeta { pubkey: associated_token_program_id(), is_signer: false, is_writable: false },
    ];
    assert(accounts@.subrange(0, 5) =~= seq![
        writable(*user_pubkey, true),
        writable(*counter_pubkey, false),
        writable(*subscription_pubkey, false),
        writable(*vault_pubkey, false),
        readonly(*vault_mint_pubkey),
    ]);
    Instruction { program_id: *program_id, accounts, data }
}

} // verus!
