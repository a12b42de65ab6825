//! The protocol's operations as they travel: a tag byte, then the fields,
//! integers little-endian; and builders of whole instructions.
use crate::address::{
    associated_token_program_bytes, associated_token_program_id, rent_sysvar_bytes, rent_sysvar_id,
    system_program_bytes, system_program_id, token_program_bytes, token_program_id, Address,
};
use crate::codec::{append_address, append_u64, bits_to_i64, i64_le, i64_to_bits, lemma_i64_bits_injective, read_address, read_u64};
use crate::error::ProcessError;
use vstd::bytes::{lemma_auto_spec_u64_to_from_le_bytes, spec_u64_to_le_bytes};
use vstd::prelude::*;

verus! {

/// An operation on the protocol with its parameters.
#[derive(Debug, Clone, Copy, PartialEq, Eq)]
pub enum SubscriptionInstruction {
    /// Creates the next subscription of the plan `(payee, amount, duration)`.
    Initialize { payee: Address, amount: u64, duration: i64 },
    /// Moves `amount` units into a vault.
    Deposit { amount: u64 },
    /// Moves `amount` units out of the vault of the `count`-th subscription
    /// of its plan, to the holder of its credential.
    Withdraw { amount: u64, count: u64 },
    /// Renews, or deactivates, the `count`-th subscription of its plan.
    Renew { count: u64 },
    /// Creating a subscription active from the start; the protocol refuses it.
    Initialize2 { payee: Address, amount: u64, duration: i64, start_amount: u64 },
    /// Renews, or deactivates, the subscription that its account names,
    /// whose position is read from its record.
    Renew2 {},
    /// Closes the `count`-th subscription of its plan and empties its vault.
    Close { count: u64 },
    /// Adds the plan of the `count`-th subscription of its plan to the registry.
    Registry { count: u64 },
}

/// An account that an instruction names, with the privileges it grants.
#[derive(Debug, Clone, Copy, PartialEq, Eq)]
pub struct AccountMeta {
    pub pubkey: Address,
    pub is_signer: bool,
    pub is_writable: bool,
}

/// An instruction for the ledger runtime: the program, the accounts it
/// names in order, and the encoded operation.
#[derive(Debug, Clone, PartialEq, Eq)]
pub struct Instruction {
    pub program_id: Address,
    pub accounts: Vec<AccountMeta>,
    pub data: Vec<u8>,
}

/// The encoded form of an operation.
pub open spec fn instruction_bytes(i: SubscriptionInstruction) -> Seq<u8> {
    match i {
        SubscriptionInstruction::Initialize { payee, amount, duration } => seq![0u8] + payee@ + spec_u64_to_le_bytes(amount)
            + i64_le(duration),
        SubscriptionInstruction::Deposit { amount } => seq![1u8] + spec_u64_to_le_bytes(amount),
        SubscriptionInstruction::Withdraw { amount, count } => seq![2u8] + spec_u64_to_le_bytes(amount)
            + spec_u64_to_le_bytes(count),
        SubscriptionInstruction::Renew { count } => seq![3u8] + spec_u64_to_le_bytes(count),
        SubscriptionInstruction::Initialize2 { payee, amount, duration, start_amount } => seq![4u8] + payee@
            + spec_u64_to_le_bytes(amount) + i64_le(duration) + spec_u64_to_le_bytes(start_amount),
        SubscriptionInstruction::Renew2 {  } => seq![5u8],
        SubscriptionInstruction::Close { count } => seq![6u8] + spec_u64_to_le_bytes(count),
        SubscriptionInstruction::Registry { count } => seq![7u8] + spec_u64_to_le_bytes(count),
    }
}

/// The length of the encoding of the operation with tag `tag`.
pub open spec fn encoded_len(tag: u8) -> int {
    if tag == 0 {
        49
    } else if tag == 1 {
        9
    } else if tag == 2 {
        17
    } else if tag == 3 {
        9
    } else if tag == 4 {
        57
    } else if tag == 5 {
        1
    } else {
        9
    }
}

proof fn lemma_instruction_shape(i: SubscriptionInstruction)
    ensures
        instruction_bytes(i).len() >= 1,
        instruction_bytes(i)[0] <= 7,
        instruction_bytes(i).len() == encoded_len(instruction_bytes(i)[0]),
{
    lemma_auto_spec_u64_to_from_le_bytes();
    match i {
        SubscriptionInstruction::Initialize { payee, .. } => assert(payee@.len() == 32),
        SubscriptionInstruction::Initialize2 { payee, .. } => assert(payee@.len() == 32),
        _ => {},
    }
}

/// Two operations with the same encoding are the same.
pub proof fn lemma_instruction_bytes_injective(i: SubscriptionInstruction, j: SubscriptionInstruction)
    requires
        instruction_bytes(i) == instruction_bytes(j),
    ensures
        i == j,
{
    lemma_auto_spec_u64_to_from_le_bytes();
    let d = instruction_bytes(i);
    match i {
        SubscriptionInstruction::Initialize { payee, amount, duration } => {
            if let SubscriptionInstruction::Initialize { payee: payee_j, amount: a2, duration: d2 } = j {
                assert(payee@ =~= d.subrange(1, 33));
                assert(payee_j@ =~= d.subrange(1, 33));
                assert(payee.bytes =~= payee_j.bytes) by { assert(payee@ == payee_j@); }
                assert(spec_u64_to_le_bytes(amount) =~= d.subrange(33, 41));
                assert(spec_u64_to_le_bytes(a2) =~= d.subrange(33, 41));
                assert(i64_le(duration) =~= d.subrange(41, 49));
                assert(i64_le(d2) =~= d.subrange(41, 49));
                lemma_i64_bits_injective(duration, d2);
            } else {
                assert(d[0] == instruction_bytes(j)[0]);
            }
        },
        SubscriptionInstruction::Deposit { amount } => {
            if let SubscriptionInstruction::Deposit { amount: a2 } = j {
                assert(spec_u64_to_le_bytes(amount) =~= d.subrange(1, 9));
                assert(spec_u64_to_le_bytes(a2) =~= d.subrange(1, 9));
            } else {
                assert(d[0] == instruction_bytes(j)[0]);
            }
        },
        SubscriptionInstruction::Withdraw { amount, count } => {
            if let SubscriptionInstruction::Withdraw { amount: a2, count: c2 } = j {
                assert(spec_u64_to_le_bytes(amount) =~= d.subrange(1, 9));
                assert(spec_u64_to_le_bytes(a2) =~= d.subrange(1, 9));
                assert(spec_u64_to_le_bytes(count) =~= d.subrange(9, 17));
                assert(spec_u64_to_le_bytes(c2) =~= d.subrange(9, 17));
            } else {
                assert(d[0] == instruction_bytes(j)[0]);
            }
        },
        SubscriptionInstruction::Renew { count } => {
            if let SubscriptionInstruction::Renew { count: c2 } = j {
                assert(spec_u64_to_le_bytes(count) =~= d.subrange(1, 9));
                assert(spec_u64_to_le_bytes(c2) =~= d.subrange(1, 9));
            } else {
                assert(d[0] == instruction_bytes(j)[0]);
            }
        },
        SubscriptionInstruction::Close { count } => {
            if let SubscriptionInstruction::Close { count: c2 } = j {
                assert(spec_u64_to_le_bytes(count) =~= d.subrange(1, 9));
                assert(spec_u64_to_le_bytes(c2) =~= d.subrange(1, 9));
            } else {
                assert(d[0] == instruction_bytes(j)[0]);
            }
        },
        SubscriptionInstruction::Registry { count } => {
            if let SubscriptionInstruction::Registry { count: c2 } = j {
                assert(spec_u64_to_le_bytes(count) =~= d.subrange(1, 9));
                assert(spec_u64_to_le_bytes(c2) =~= d.subrange(1, 9));
            } else {
                assert(d[0] == instruction_bytes(j)[0]);
            }
        },
        SubscriptionInstruction::Initialize2 { payee, amount, duration, start_amount } => {
            if let SubscriptionInstruction::Initialize2 { payee: payee_j, amount: a2, duration: d2, start_amount: s2 } = j {
                assert(payee@ =~= d.subrange(1, 33));
                assert(payee_j@ =~= d.subrange(1, 33));
                assert(payee.bytes =~= payee_j.bytes) by { assert(payee@ == payee_j@); }
                assert(spec_u64_to_le_bytes(amount) =~= d.subrange(33, 41));
                assert(spec_u64_to_le_bytes(a2) =~= d.subrange(33, 41));
                assert(i64_le(duration) =~= d.subrange(41, 49));
                assert(i64_le(d2) =~= d.subrange(41, 49));
                lemma_i64_bits_injective(duration, d2);
                assert(spec_u64_to_le_bytes(start_amount) =~= d.subrange(49, 57));
                assert(spec_u64_to_le_bytes(s2) =~= d.subrange(49, 57));
            } else {
                assert(d[0] == instruction_bytes(j)[0]);
            }
        },
        _ => {
            assert(d[0] == instruction_bytes(j)[0]);
        },
    }
}

/// Encodes an operation.
pub fn encode_instruction(i: &SubscriptionInstruction) -> (r: Vec<u8>)
    ensures
        r@ == instruction_bytes(*i),
{
    let mut out: Vec<u8> = Vec::new();
    match i {
        SubscriptionInstruction::Initialize { payee, amount, duration } => {
            out.push(0u8);
            append_address(&mut out, payee);
            append_u64(&mut out, *amount);
            append_u64(&mut out, i64_to_bits(*duration));
        },
        SubscriptionInstruction::Deposit { amount } => {
            out.push(1u8);
            append_u64(&mut out, *amount);
        },
        SubscriptionInstruction::Withdraw { amount, count } => {
            out.push(2u8);
            append_u64(&mut out, *amount);
            append_u64(&mut out, *count);
        },
        SubscriptionInstruction::Renew { count } => {
            out.push(3u8);
            append_u64(&mut out, *count);
        },
        SubscriptionInstruction::Initialize2 { payee, amount, duration, start_amount } => {
            out.push(4u8);
            append_address(&mut out, payee);
            append_u64(&mut out, *amount);
            append_u64(&mut out, i64_to_bits(*duration));
            append_u64(&mut out, *start_amount);
        },
        SubscriptionInstruction::Renew2 {  } => {
            out.push(5u8);
        },
        SubscriptionInstruction::Close { count } => {
            out.push(6u8);
            append_u64(&mut out, *count);
        },
        SubscriptionInstruction::Registry { count } => {
            out.push(7u8);
            append_u64(&mut out, *count);
        },
    }
    assert(out@ =~= instruction_bytes(*i));
    out
}

fn expected_len(tag: u8) -> (r: usize)
    ensures
        r == encoded_len(tag),
{
    if tag == 0 {
        49
    } else if tag == 1 {
        9
    } else if tag == 2 {
        17
    } else if tag == 3 {
        9
    } else if tag == 4 {
        57
    } else if tag == 5 {
        1
    } else {
        9
    }
}

/// What decoding `d` gives: the operation it encodes, if any.
pub open spec fn decode_instruction_spec(d: Seq<u8>) -> Result<SubscriptionInstruction, ProcessError> {
    if exists|i: SubscriptionInstruction| instruction_bytes(i) == d {
        Ok(choose|i: SubscriptionInstruction| instruction_bytes(i) == d)
    } else {
        Err(ProcessError::InvalidInstructionData)
    }
}

/// Decodes an operation; `InvalidInstructionData` where `data` is the
/// encoding of none.
pub fn decode_instruction(data: &[u8]) -> (r: Result<SubscriptionInstruction, ProcessError>)
    ensures
        r == decode_instruction_spec(data@),
{
    let n = data.len();
    if n == 0 || data[0] > 7 || n != expected_len(data[0]) {
        proof {
            assert forall|i: SubscriptionInstruction| instruction_bytes(i) != data@ by {
                lemma_instruction_shape(i);
            }
        }
        return Err(ProcessError::InvalidInstructionData);
    }
    let tag = data[0];
    let r = if tag == 0 {
        SubscriptionInstruction::Initialize {
            payee: read_address(data, 1),
            amount: read_u64(data, 33),
            duration: bits_to_i64(read_u64(data, 41)),
        }
    } else if tag == 1 {
        SubscriptionInstruction::Deposit { amount: read_u64(data, 1) }
    } else if tag == 2 {
        SubscriptionInstruction::Withdraw { amount: read_u64(data, 1), count: read_u64(data, 9) }
    } else if tag == 3 {
        SubscriptionInstruction::Renew { count: read_u64(data, 1) }
    } else if tag == 4 {
        SubscriptionInstruction::Initialize2 {
            payee: read_address(data, 1),
            amount: read_u64(data, 33),
            duration: bits_to_i64(read_u64(data, 41)),
            start_amount: read_u64(data, 49),
        }
    } else if tag == 5 {
        SubscriptionInstruction::Renew2 {  }
    } else if tag == 6 {
        SubscriptionInstruction::Close { count: read_u64(data, 1) }
    } else {
        SubscriptionInstruction::Registry { count: read_u64(data, 1) }
    };
    assert(instruction_bytes(r) =~= data@);
    proof {
        let c = choose|i: SubscriptionInstruction| instruction_bytes(i) == data@;
        lemma_instruction_bytes_injective(r, c);
    }
    Ok(r)
}

/// Decoding gives back every operation that was encoded.
pub proof fn lemma_instruction_round_trip(i: SubscriptionInstruction)
    ensures
        decode_instruction_spec(instruction_bytes(i)) == Ok::<SubscriptionInstruction, ProcessError>(i),
{
    let d = instruction_bytes(i);
    assert(instruction_bytes(i) == d);
    let c = choose|j: SubscriptionInstruction| instruction_bytes(j) == d;
    lemma_instruction_bytes_injective(c, i);
}

/// An account named writable.
pub open spec fn writable(pubkey: Address, is_signer: bool) -> AccountMeta {
    AccountMeta { pubkey, is_signer, is_writable: true }
}

/// An account named read-only and unsigned.
pub open spec fn readonly(pubkey: Address) -> AccountMeta {
    AccountMeta { pubkey, is_signer: false, is_writable: false }
}

/// Whether `m` names the collaborator at `bytes`, read-only and unsigned.
pub open spec fn names_collaborator(m: AccountMeta, bytes: Seq<u8>) -> bool {
    m.pubkey@ == bytes && !m.is_signer && !m.is_writable
}

/// Builds an `Initialize` instruction; its accounts are those that
/// initialization reads, in order.
pub fn initialize(
    program_pubkey: &Address,
    user_pubkey: &Address,
    counter_pubkey: &Address,
    subscription_pubkey: &Address,
    vault_pubkey: &Address,
    vault_mint_pubkey: &Address,
    payee: &Address,
    amount: u64,
    duration: i64,
) -> (r: Instruction)
    ensures
        r.program_id == *program_pubkey,
        r.data@ == instruction_bytes(SubscriptionInstruction::Initialize { payee: *payee, amount, duration }),
        r.accounts@.len() == 9,
        r.accounts@.subrange(0, 5) == seq![
            writable(*user_pubkey, true),
            writable(*counter_pubkey, false),
            writable(*subscription_pubkey, false),
            writable(*vault_pubkey, false),
            readonly(*vault_mint_pubkey),
        ],
        names_collaborator(r.accounts@[5], system_program_bytes()),
        names_collaborator(r.accounts@[6], rent_sysvar_bytes()),
        names_collaborator(r.accounts@[7], token_program_bytes()),
        names_collaborator(r.accounts@[8], associated_token_program_bytes()),
{
    let data = encode_instruction(&SubscriptionInstruction::Initialize { payee: *payee, amount, duration });
    let accounts = vec![
        AccountMeta { pubkey: *user_pubkey, is_signer: true, is_writable: true },
        AccountMeta { pubkey: *counter_pubkey, is_signer: false, is_writable: true },
        AccountMeta { pubkey: *subscription_pubkey, is_signer: false, is_writable: true },
        AccountMeta { pubkey: *vault_pubkey, is_signer: false, is_writable: true },
        AccountMeta { pubkey: *vault_mint_pubkey, is_signer: false, is_writable: false },
        AccountMeta { pubkey: system_program_id(), is_signer: false, is_writable: false },
        AccountMeta { pubkey: rent_sysvar_id(), is_signer: false, is_writable: false },
        AccountMeta { pubkey: token_program_id(), is_signer: false, is_writable: false },
        AccountMeta { pubkey: associated_token_program_id(), is_signer: false, is_writable: false },
    ];
    assert(accounts@.subrange(0, 5) =~= seq![
        writable(*user_pubkey, true),
        writable(*counter_pubkey, false),
        writable(*subscription_pubkey, false),
        writable(*vault_pubkey, false),
        readonly(*vault_mint_pubkey),
    ]);
    Instruction { program_id: *program_pubkey, accounts, data }
}

/// Builds a `Withdraw` instruction; its accounts are those that a
/// withdrawal reads, in order.
pub fn withdraw(
    program_pubkey: &Address,
    payer_pubkey: &Address,
    destination_pubkey: &Address,
    vault_pubkey: &Address,
    subscription_pubkey: &Address,
    credential_account_pubkey: &Address,
    token_program_id: &Address,
    amount: u64,
    count: u64,
) -> (r: Result<Instruction, ProcessError>)
    ensures
        r matches Ok(ix) && ix.program_id == *program_pubkey && ix.data@ == instruction_bytes(
            SubscriptionInstruction::Withdraw { amount, count },
        ) && ix.accounts@ == seq![
            writable(*payer_pubkey, true),
            writable(*destination_pubkey, false),
            writable(*vault_pubkey, false),
            readonly(*subscription_pubkey),
            readonly(*credential_account_pubkey),
            readonly(*token_program_id),
        ],
{
    let data = encode_instruction(&SubscriptionInstruction::Withdraw { amount, count });
    let accounts = vec![
        AccountMeta { pubkey: *payer_pubkey, is_signer: true, is_writable: true },
        AccountMeta { pubkey: *destination_pubkey, is_signer: false, is_writable: true },
        AccountMeta { pubkey: *vault_pubkey, is_signer: false, is_writable: true },
        AccountMeta { pubkey: *subscription_pubkey, is_signer: false, is_writable: false },
        AccountMeta { pubkey: *credential_account_pubkey, is_signer: false, is_writable: false },
        AccountMeta { pubkey: *token_program_id, is_signer: false, is_writable: false },
    ];
    assert(accounts@ =~= seq![
        writable(*payer_pubkey, true),
        writable(*destination_pubkey, false),
        writable(*vault_pubkey, false),
        readonly(*subscription_pubkey),
        readonly(*credential_account_pubkey),
        readonly(*token_program_id),
    ]);
    Ok(Instruction { program_id: *program_pubkey, accounts, data })
}

/// Builds a `Renew` instruction; its accounts are those that a renewal
/// reads, in order.
pub fn renew_instruction(
    program_id: &Address,
    caller: &Address,
    subscription: &Address,
    deposit_vault: &Address,
    deposit_mint: &Address,
    payee: &Address,
    payee_deposit_account: &Address,
    caller_deposit_account: &Address,
    new_mint: &Address,
    receiver: &Address,
    receiver_new_token_account: &Address,
    receiver_current_token_account: &Address,
    count: u64,
) -> (r: Instruction)
    ensures
        r.program_id == *program_id,
        r.data@ == instruction_bytes(SubscriptionInstruction::Renew { count }),
        r.accounts@.len() == 15,
        r.accounts@.subrange(0, 11) == seq![
            writable(*caller, true),
            writable(*subscription, false),
            writable(*deposit_vault, false),
            readonly(*deposit_mint),
            readonly(*payee),
            writable(*payee_deposit_account, false),
            writable(*caller_deposit_account, false),
            writable(*new_mint, false),
            readonly(*receiver),
            writable(*receiver_new_token_account, false),
            readonly(*receiver_current_token_account),
        ],
        names_collaborator(r.accounts@[11], system_program_bytes()),
        names_collaborator(r.accounts@[12], rent_sysvar_bytes()),
        names_collaborator(r.accounts@[13], token_program_bytes()),
        names_collaborator(r.accounts@[14], associated_token_program_bytes()),
{
    let data = encode_instruction(&SubscriptionInstruction::Renew { count });
    let accounts = vec![
        AccountMeta { pubkey: *caller, is_signer: true, is_writable: true },
        AccountMeta { pubkey: *subscription, is_signer: false, is_writable: true },
        AccountMeta { pubkey: *deposit_vault, is_signer: false, is_writable: true },
        AccountMeta { pubkey: *deposit_mint, is_signer: false, is_writable: false },
        AccountMeta { pubkey: *payee, is_signer: false, is_writable: false },
        AccountMeta { pubkey: *payee_deposit_account, is_signer: false, is_writable: true },
        AccountMeta { pubkey: *caller_deposit_account, is_signer: false, is_writable: true },
        AccountMeta { pubkey: *new_mint, is_signer: false, is_writable: true },
        AccountMeta { pubkey: *receiver, is_signer: false, is_writable: false },
        AccountMeta { pubkey: *receiver_new_token_account, is_signer: false, is_writable: true },
        AccountMeta { pubkey: *receiver_current_token_account, is_signer: false, is_writable: false },
        AccountMeta { pubkey: system_program_id(), is_signer: false, is_writable: false },
        AccountMeta { pubkey: rent_sysvar_id(), is_signer: false, is_writable: false },
        AccountMeta { pubkey: token_program_id(), is_signer: false, is_writable: false },
        AccountMeta { pubkey: associated_token_program_id(), is_signer: false, is_writable: false },
    ];
    assert(accounts@.subrange(0, 11) =~= seq![
        writable(*caller, true),
        writable(*subscription, false),
        writable(*deposit_vault, false),
        readonly(*deposit_mint),
        readonly(*payee),
        writable(*payee_deposit_account, false),
        writable(*caller_deposit_account, false),
        writable(*new_mint, false),
        readonly(*receiver),
        writable(*receiver_new_token_account, false),
        readonly(*receiver_current_token_account),
    ]);
    Instruction { program_id: *program_id, accounts, data }
}

/// Builds an `Initialize2` instruction.
pub fn initialize2(
    program_id: &Address,
    user: &Address,
    user_deposit_account: &Address,
    user_subscription_token_account: &Address,
    payee: &Address,
    payee_deposit_account: &Address,
    subscription: &Address,
    subscription_counter: &Address,
    subscription_mint: &Address,
    deposit_vault: &Address,
    deposit_mint: &Address,
    amount: u64,
    duration: i64,
    start_amount: u64,
) -> (r: Instruction)
    ensures
        r.program_id == *program_id,
        r.data@ == instruction_bytes(SubscriptionInstruction::Initialize2 { payee: *payee, amount, duration, start_amount }),
        r.accounts@.len() == 14,
        r.accounts@.subrange(0, 10) == seq![
            writable(*user, true),
            writable(*user_deposit_account, false),
            writable(*user_subscription_token_account, false),
            readonly(*payee),
            writable(*payee_deposit_account, false),
            writable(*subscription, false),
            writable(*subscription_counter, false),
            writable(*subscription_mint, false),
            writable(*deposit_vault, false),
            readonly(*deposit_mint),
        ],
        names_collaborator(r.accounts@[10], system_program_bytes()),
        names_collaborator(r.accounts@[11], rent_sysvar_bytes()),
        names_collaborator(r.accounts@[12], token_program_bytes()),
        names_collaborator(r.accounts@[13], associated_token_program_bytes()),
{
    let data = encode_instruction(&SubscriptionInstruction::Initialize2 { payee: *payee, amount, duration, start_amount });
    let accounts = vec![
        AccountMeta { pubkey: *user, is_signer: true, is_writable: true },
        AccountMeta { pubkey: *user_deposit_account, is_signer: false, is_writable: true },
        AccountMeta { pubkey: *user_subscription_token_account, is_signer: false, is_writable: true },
        AccountMeta { pubkey: *payee, is_signer: false, is_writable: false },
        AccountMeta { pubkey: *payee_deposit_account, is_signer: false, is_writable: true },
        AccountMeta { pubkey: *subscription, is_signer: false, is_writable: true },
        AccountMeta { pubkey: *subscription_counter, is_signer: false, is_writable: true },
        AccountMeta { pubkey: *subscription_mint, is_signer: false, is_writable: true },
        AccountMeta { pubkey: *deposit_vault, is_signer: false, is_writable: true },
        AccountMeta { pubkey: *deposit_mint, is_signer: false, is_writable: false },
        AccountMeta { pubkey: system_program_id(), is_signer: false, is_writable: false },
        AccountMeta { pubkey: rent_sysvar_id(), is_signer: false, is_writable: false },
        AccountMeta { pubkey: token_program_id(), is_signer: false, is_writable: false },
        AccountMeta { pubkey: associated_token_program_id(), is_signer: false, is_writable: false },
    ];
    assert(accounts@.subrange(0, 10) =~= seq![
        writable(*user, true),
        writable(*user_deposit_account, false),
        writable(*user_subscription_token_account, false),
        readonly(*payee),
        writable(*payee_deposit_account, false),
        writable(*subscription, false),
        writable(*subscription_counter, false),
        writable(*subscription_mint, false),
        writable(*deposit_vault, false),
        readonly(*deposit_mint),
    ]);
    Instruction { program_id: *program_id, accounts, data }
}

/// Builds a `Renew2` instruction; it names the same accounts as a `Renew`
/// instruction.
pub fn renew2(
    program_id: &Address,
    caller: &Address,
    subscription: &Address,
    deposit_vault: &Address,
    deposit_mint: &Address,
    payee: &Address,
    payee_deposit_account: &Address,
    caller_deposit_account: &Address,
    new_mint: &Address,
    receiver: &Address,
    receiver_new_token_account: &Address,
    receiver_current_token_account: &Address,
) -> (r: Instruction)
    ensures
        r.program_id == *program_id,
        r.data@ == instruction_bytes(SubscriptionInstruction::Renew2 {  }),
        r.accounts@.len() == 15,
        r.accounts@.subrange(0, 11) == seq![
            writable(*caller, true),
            writable(*subscription, false),
            writable(*deposit_vault, false),
            readonly(*deposit_mint),
            readonly(*payee),
            writable(*payee_deposit_account, false),
            writable(*caller_deposit_account, false),
            writable(*new_mint, false),
            readonly(*receiver),
            writable(*receiver_new_token_account, false),
            readonly(*receiver_current_token_account),
        ],
        names_collaborator(r.accounts@[11], system_program_bytes()),
        names_collaborator(r.accounts@[12], rent_sysvar_bytes()),
        names_collaborator(r.accounts@[13], token_program_bytes()),
        names_collaborator(r.accounts@[14], associated_token_program_bytes()),
{
    let by_count = renew_instruction(
        program_id,
        caller,
        subscription,
        deposit_vault,
        deposit_mint,
        payee,
        payee_deposit_account,
        caller_deposit_account,
        new_mint,
        receiver,
        receiver_new_token_account,
        receiver_current_token_account,
        0,
    );
    let data = encode_instruction(&SubscriptionInstruction::Renew2 {  });
    Instruction { program_id: by_count.program_id, accounts: by_count.accounts, data }
}

} // verus!
