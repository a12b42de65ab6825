use buoyant::address::Address;
use buoyant::instruction::{self, Instruction};
use buoyant::processor::Processor;
use buoyant::utils::AccountView;
use solana_program::pubkey::Pubkey;
use spl_associated_token_account::get_associated_token_address;
use spl_token::native_mint;

fn addr(p: &Pubkey) -> Address {
    Address { bytes: p.to_bytes() }
}

/// Runs an instruction against fresh, empty accounts, as a ledger would
/// on its first submission.
fn submit(ix: &Instruction) -> Result<Vec<buoyant::effects::Effect>, buoyant::error::ProcessError> {
    let accounts: Vec<AccountView> = ix
        .accounts
        .iter()
        .map(|m| AccountView {
            key: m.pubkey,
            is_signer: m.is_signer,
            is_writable: m.is_writable,
            owner: Address { bytes: [0u8; 32] },
            lamports: 0,
            data: vec![],
        })
        .collect();
    Processor::process_instruction(&ix.program_id, &accounts, &ix.data, 0)
}

fn initialize_with(program_pubkey: Pubkey, payee_pubkey: Pubkey, user: Pubkey, amount: u64, duration: i64) -> Instruction {
    // Find uninitialized counter PDA
    let counter_seeds: &[&[u8]] = &[
        b"subscription_counter",
        payee_pubkey.as_ref(),
        &amount.to_le_bytes(),
        &duration.to_le_bytes(),
    ];
    let (counter, _) = Pubkey::find_program_address(counter_seeds, &program_pubkey);

    // Find uninitialized subscription PDA
    let count: u64 = 0;
    let subscription_seeds: &[&[u8]] = &[
        b"subscription_metadata",
        payee_pubkey.as_ref(),
        &amount.to_le_bytes(),
        &duration.to_le_bytes(),
        &count.to_le_bytes(),
    ];
    let (sub, _) = Pubkey::find_program_address(subscription_seeds, &program_pubkey);

    // Find vault (ATA of subscription PDA for a given token)
    let mint = native_mint::id();
    let vault = get_associated_token_address(&sub, &mint);

    instruction::initialize(
        &addr(&program_pubkey),
        &addr(&user),
        &addr(&counter),
        &addr(&sub),
        &addr(&vault),
        &addr(&mint),
        &addr(&payee_pubkey),
        amount,
        duration,
    )
}

#[test]
fn test_initialize() {
    let program_pubkey = Pubkey::new_unique();
    let payee_pubkey = Pubkey::new_unique();
    let user = Pubkey::new_unique();
    let amount: u64 = 1;
    let duration: i64 = 10;
    let ix = initialize_with(program_pubkey, payee_pubkey, user, amount, duration);
    assert!(matches!(submit(&ix), Ok(_)));
}

#[test]
fn test_init() {
    let program_pubkey = Pubkey::new_unique();
    let payee_pubkey = Pubkey::new_unique();
    let user = Pubkey::new_unique();
    let amount: u64 = 1;
    let duration: i64 = 10;
    let ix = initialize_with(program_pubkey, payee_pubkey, user, amount, duration);
    assert!(matches!(submit(&ix), Ok(_)));
}

#[test]
fn client_initialize_matches_hand_derivation() {
    let program_pubkey = Pubkey::new_unique();
    let payee_pubkey = Pubkey::new_unique();
    let user = Pubkey::new_unique();
    let by_hand = initialize_with(program_pubkey, payee_pubkey, user, 20, 30);
    let by_client = buoyant::client::initialize(
        &addr(&program_pubkey),
        &addr(&user),
        &addr(&native_mint::id()),
        &addr(&payee_pubkey),
        20,
        30,
        0,
    )
    .unwrap();
    assert_eq!(by_hand, by_client);
    let raw = buoyant::client::initialize_raw(
        &addr(&program_pubkey),
        &by_hand.accounts[0].pubkey,
        &by_hand.accounts[1].pubkey,
        &by_hand.accounts[2].pubkey,
        &by_hand.accounts[3].pubkey,
        &by_hand.accounts[4].pubkey,
        &addr(&payee_pubkey),
        20,
        30,
    );
    assert_eq!(raw, by_hand);
}

#[test]
fn instruction_builders_name_their_accounts() {
    let k = |b: u8| Address { bytes: [b; 32] };
    let ix = instruction::withdraw(&k(1), &k(2), &k(3), &k(4), &k(5), &k(6), &k(7), 50, 2).unwrap();
    assert_eq!(ix.accounts.len(), 6);
    assert!(ix.accounts[0].is_signer && ix.accounts[0].is_writable);
    assert!(!ix.accounts[3].is_writable);
    assert_eq!(ix.data[0], 2);
    let ix = instruction::renew_instruction(&k(1), &k(2), &k(3), &k(4), &k(5), &k(6), &k(7), &k(8), &k(9), &k(10), &k(11), &k(12), 3);
    assert_eq!(ix.accounts.len(), 15);
    assert_eq!(ix.data, vec![3u8, 3, 0, 0, 0, 0, 0, 0, 0]);
    assert_eq!(ix.accounts[13].pubkey, addr(&spl_token::id()));
    let ix = instruction::initialize2(&k(1), &k(2), &k(3), &k(4), &k(5), &k(6), &k(7), &k(8), &k(9), &k(10), &k(11), 200, 10, 201);
    assert_eq!(ix.accounts.len(), 14);
    assert_eq!(ix.data.len(), 57);
    assert_eq!(ix.accounts[10].pubkey, addr(&solana_program::system_program::id()));
    let ix = instruction::renew2(&k(1), &k(2), &k(3), &k(4), &k(5), &k(6), &k(7), &k(8), &k(9), &k(10), &k(11), &k(12));
    assert_eq!(ix.accounts.len(), 15);
    assert_eq!(ix.data, vec![5u8]);
    assert_eq!(ix.accounts[12].pubkey, addr(&solana_program::sysvar::rent::id()));
    assert_eq!(ix.accounts[14].pubkey, addr(&spl_associated_token_account::id()));
}
