use buoyant::address::{associated_token_address, mint_seeds, find_program_address, Address};
use buoyant::client::{get_counter_address, get_subscription_address};
use buoyant::effects::{Effect, Signer};
use buoyant::error::{ProcessError, SubscriptionError};
use buoyant::instruction::{encode_instruction, SubscriptionInstruction};
use buoyant::processor::renew::process_renew;
use buoyant::processor::Processor;
use buoyant::renewal::RenewOutcome;
use buoyant::state::{encode_subscription, Subscription, SUBSCRIPTION_LEN};
use buoyant::utils::AccountView;
use solana_program::program_pack::Pack;
use solana_program::pubkey::Pubkey;

fn addr(p: Pubkey) -> Address {
    Address { bytes: p.to_bytes() }
}

fn program() -> Address {
    Address { bytes: [7u8; 32] }
}

fn payee() -> Address {
    Address { bytes: [9u8; 32] }
}

fn caller() -> Address {
    Address { bytes: [3u8; 32] }
}

fn currency() -> Address {
    addr(spl_token::native_mint::id())
}

fn token_program() -> Address {
    addr(spl_token::id())
}

fn account(key: Address, signer: bool, writable: bool, owner: Address, data: Vec<u8>) -> AccountView {
    AccountView { key, is_signer: signer, is_writable: writable, owner, lamports: 0, data }
}

fn token_data(mint: Address, owner: Address, amount: u64) -> Vec<u8> {
    let acc = spl_token::state::Account {
        mint: Pubkey::new_from_array(mint.bytes),
        owner: Pubkey::new_from_array(owner.bytes),
        amount,
        state: spl_token::state::AccountState::Initialized,
        ..Default::default()
    };
    let mut data = vec![0u8; spl_token::state::Account::LEN];
    spl_token::state::Account::pack(acc, &mut data).unwrap();
    data
}

fn collaborators() -> Vec<AccountView> {
    vec![
        account(addr(solana_program::system_program::id()), false, false, Address { bytes: [0u8; 32] }, vec![]),
        account(addr(solana_program::sysvar::rent::id()), false, false, Address { bytes: [0u8; 32] }, vec![]),
        account(token_program(), false, false, Address { bytes: [0u8; 32] }, vec![]),
        account(addr(spl_associated_token_account::id()), false, false, Address { bytes: [0u8; 32] }, vec![]),
    ]
}

fn ata(wallet: &Address, mint: &Address) -> Address {
    associated_token_address(wallet, mint).unwrap()
}

fn initialize_accounts(counter_data: Vec<u8>, count: u64, amount: u64, duration: i64) -> Vec<AccountView> {
    let (counter, _) = get_counter_address(&program(), &payee(), amount, duration).unwrap();
    let (sub, _) = get_subscription_address(&program(), &payee(), amount, duration, count).unwrap();
    let mut a = vec![
        account(caller(), true, true, Address { bytes: [0u8; 32] }, vec![]),
        account(counter, false, true, program(), counter_data),
        account(sub, false, true, Address { bytes: [0u8; 32] }, vec![]),
        account(ata(&sub, &currency()), false, true, Address { bytes: [0u8; 32] }, vec![]),
        account(currency(), false, false, token_program(), vec![]),
    ];
    a.extend(collaborators());
    a
}

fn renew_accounts(sub_key: Address, record: &Subscription, vault_balance: u64) -> Vec<AccountView> {
    let (new_mint, _) = find_program_address(&mint_seeds(&sub_key, record.renewal_count), &program()).unwrap();
    let current = match record.mint {
        Some(m) => account(ata(&caller(), &m), false, false, token_program(), token_data(m, caller(), 1)),
        None => account(Address { bytes: [1u8; 32] }, false, false, token_program(), vec![]),
    };
    let mut a = vec![
        account(caller(), true, true, Address { bytes: [0u8; 32] }, vec![]),
        account(sub_key, false, true, program(), encode_subscription(record)),
        account(record.deposit_vault, false, true, token_program(), token_data(currency(), sub_key, vault_balance)),
        account(currency(), false, false, token_program(), vec![]),
        account(payee(), false, false, Address { bytes: [0u8; 32] }, vec![]),
        account(ata(&payee(), &currency()), false, true, Address { bytes: [0u8; 32] }, vec![]),
        account(ata(&caller(), &currency()), false, true, Address { bytes: [0u8; 32] }, vec![]),
        account(new_mint, false, true, Address { bytes: [0u8; 32] }, vec![]),
        account(caller(), false, false, Address { bytes: [0u8; 32] }, vec![]),
        account(ata(&caller(), &new_mint), false, true, Address { bytes: [0u8; 32] }, vec![]),
        current,
    ];
    a.extend(collaborators());
    a
}

fn written_record(effects: &[Effect]) -> Subscription {
    match effects.last() {
        Some(Effect::WriteSubscription { record, .. }) => *record,
        other => panic!("last effect is not a record write: {:?}", other),
    }
}

#[test]
fn scenario_full_lifecycle() {
    let amount: u64 = 100;
    let duration: i64 = 10;
    let accounts = initialize_accounts(vec![], 0, amount, duration);
    let data = encode_instruction(&SubscriptionInstruction::Initialize { payee: payee(), amount, duration });
    let effects = Processor::process_instruction(&program(), &accounts, &data, 0).unwrap();
    let sub_key = accounts[2].key;
    let record = match effects[2] {
        Effect::WriteSubscription { account, record } => {
            assert_eq!(account, sub_key);
            record
        }
        other => panic!("unexpected effect {:?}", other),
    };
    assert!(!record.active);
    assert_eq!(record.renewal_count, 0);
    assert_eq!(record.next_renew_time, 0);
    assert_eq!(record.mint, None);
    assert_eq!(effects.last(), Some(&Effect::WriteCounter { account: accounts[1].key, count: 1 }));

    // Deposit 100 into the vault.
    let payer_token = account(Address { bytes: [12u8; 32] }, false, true, token_program(), token_data(currency(), caller(), 100));
    let vault = account(record.deposit_vault, false, true, token_program(), token_data(currency(), sub_key, 0));
    let deposit = vec![
        account(caller(), true, true, Address { bytes: [0u8; 32] }, vec![]),
        payer_token.clone(),
        vault.clone(),
        account(token_program(), false, false, Address { bytes: [0u8; 32] }, vec![]),
    ];
    let data = encode_instruction(&SubscriptionInstruction::Deposit { amount: 100 });
    assert_eq!(
        Processor::process_instruction(&program(), &deposit, &data, 0),
        Ok(vec![Effect::Transfer { source: payer_token.key, destination: vault.key, authority: caller(), amount: 100, signed_by: None }])
    );

    // The vault now holds 100; renewal at time 0 pays 99 and 1.
    let a = renew_accounts(sub_key, &record, 100);
    let (outcome, effects) = process_renew(&program(), &a, 0, 0).unwrap();
    assert_eq!(outcome, RenewOutcome::Renewed { payout: 99, fee: 1 });
    let transfers: Vec<(Address, u64)> = effects
        .iter()
        .filter_map(|e| match e {
            Effect::Transfer { destination, amount, .. } => Some((*destination, *amount)),
            _ => None,
        })
        .collect();
    assert_eq!(transfers, vec![(a[5].key, 99), (a[6].key, 1)]);
    let mints: Vec<&Effect> = effects.iter().filter(|e| matches!(e, Effect::MintCredential { .. })).collect();
    assert_eq!(mints.len(), 1);
    match mints[0] {
        Effect::MintCredential { mint, destination, amount, .. } => {
            assert_eq!(*mint, a[7].key);
            assert_eq!(*destination, a[9].key);
            assert_eq!(*amount, 1);
        }
        _ => unreachable!(),
    }
    let renewed = written_record(&effects);
    assert!(renewed.active);
    assert_eq!(renewed.renewal_count, 1);
    assert_eq!(renewed.next_renew_time, 10);
    assert_eq!(renewed.mint, Some(a[7].key));

    // Immediately again: too early.
    let a = renew_accounts(sub_key, &renewed, 0);
    assert_eq!(
        process_renew(&program(), &a, 0, 5),
        Err(ProcessError::Subscription(SubscriptionError::EarlyRenew))
    );

    // After 10 seconds with an empty vault: deactivated, nothing moves.
    let (outcome, effects) = process_renew(&program(), &a, 0, 10).unwrap();
    assert_eq!(outcome, RenewOutcome::Deactivated);
    assert_eq!(effects.len(), 1);
    let expired = written_record(&effects);
    assert!(!expired.active);
    assert_eq!(expired.renewal_count, 1);

    // Once more: already expired.
    let a = renew_accounts(sub_key, &expired, 0);
    assert_eq!(
        process_renew(&program(), &a, 0, 20),
        Err(ProcessError::Subscription(SubscriptionError::AlreadyExpired))
    );
}

#[test]
fn repeated_initialize_counts_up() {
    let amount: u64 = 5;
    let duration: i64 = 60;
    let mut counter_data: Vec<u8> = vec![];
    for k in 0..3u64 {
        let accounts = initialize_accounts(counter_data.clone(), k, amount, duration);
        let data = encode_instruction(&SubscriptionInstruction::Initialize { payee: payee(), amount, duration });
        let effects = Processor::process_instruction(&program(), &accounts, &data, 0).unwrap();
        let creates_counter = effects.iter().any(|e| matches!(e, Effect::CreateAccount { signer: Signer::Counter { .. }, .. }));
        assert_eq!(creates_counter, k == 0);
        match effects.last() {
            Some(Effect::WriteCounter { count, .. }) => {
                assert_eq!(*count, k + 1);
                counter_data = count.to_le_bytes().to_vec();
            }
            other => panic!("unexpected {:?}", other),
        }
    }
}

#[test]
fn initialize_at_wrong_count_is_refused() {
    let accounts = initialize_accounts(1u64.to_le_bytes().to_vec(), 0, 5, 60);
    let data = encode_instruction(&SubscriptionInstruction::Initialize { payee: payee(), amount: 5, duration: 60 });
    assert_eq!(
        Processor::process_instruction(&program(), &accounts, &data, 0),
        Err(ProcessError::Utils(buoyant::error::UtilsError::InvalidProgramAddress))
    );
}

#[test]
fn initialize_twice_is_refused() {
    let mut accounts = initialize_accounts(vec![], 0, 5, 60);
    accounts[2].data = vec![0u8; SUBSCRIPTION_LEN];
    let data = encode_instruction(&SubscriptionInstruction::Initialize { payee: payee(), amount: 5, duration: 60 });
    assert_eq!(
        Processor::process_instruction(&program(), &accounts, &data, 0),
        Err(ProcessError::Subscription(SubscriptionError::AlreadyInitialized))
    );
}

#[test]
fn initialize_needs_signer() {
    let mut accounts = initialize_accounts(vec![], 0, 5, 60);
    accounts[0].is_signer = false;
    let data = encode_instruction(&SubscriptionInstruction::Initialize { payee: payee(), amount: 5, duration: 60 });
    assert_eq!(
        Processor::process_instruction(&program(), &accounts, &data, 0),
        Err(ProcessError::MissingRequiredSignature)
    );
}

#[test]
fn renew_requires_current_holder() {
    let (sub_key, _) = get_subscription_address(&program(), &payee(), 100, 10, 0).unwrap();
    let vault = ata(&sub_key, &currency());
    let old_mint = Address { bytes: [4u8; 32] };
    let record = Subscription {
        active: true,
        mint: Some(old_mint),
        deposit_vault: vault,
        deposit_mint: currency(),
        payee: payee(),
        payer: caller(),
        amount: 100,
        duration: 10,
        next_renew_time: 0,
        renewal_count: 1,
        count: 0,
    };
    let mut a = renew_accounts(sub_key, &record, 100);
    a[10].data = token_data(old_mint, caller(), 0);
    assert_eq!(
        process_renew(&program(), &a, 0, 0),
        Err(ProcessError::Subscription(SubscriptionError::InvalidReceiver))
    );
    a[10].data = token_data(old_mint, caller(), 1);
    assert!(process_renew(&program(), &a, 0, 0).is_ok());
}

#[test]
fn renew_with_too_few_accounts() {
    let a = collaborators();
    assert_eq!(process_renew(&program(), &a, 0, 0), Err(ProcessError::NotEnoughAccountKeys));
}

#[test]
fn renew_of_uninitialized_subscription() {
    let (sub_key, _) = get_subscription_address(&program(), &payee(), 100, 10, 0).unwrap();
    let record = Subscription {
        active: false,
        mint: None,
        deposit_vault: ata(&sub_key, &currency()),
        deposit_mint: currency(),
        payee: payee(),
        payer: caller(),
        amount: 100,
        duration: 10,
        next_renew_time: 0,
        renewal_count: 0,
        count: 0,
    };
    let mut a = renew_accounts(sub_key, &record, 100);
    a[1].data = vec![];
    assert_eq!(
        process_renew(&program(), &a, 0, 0),
        Err(ProcessError::Subscription(SubscriptionError::NotInitialized))
    );
    a[1].data = vec![2u8; SUBSCRIPTION_LEN];
    assert_eq!(
        process_renew(&program(), &a, 0, 0),
        Err(ProcessError::Subscription(SubscriptionError::CorruptRecord))
    );
}

#[test]
fn initialize_at_the_last_count_overflows() {
    let accounts = initialize_accounts(u64::MAX.to_le_bytes().to_vec(), u64::MAX, 5, 60);
    let data = encode_instruction(&SubscriptionInstruction::Initialize { payee: payee(), amount: 5, duration: 60 });
    assert_eq!(
        Processor::process_instruction(&program(), &accounts, &data, 0),
        Err(ProcessError::ArithmeticOverflow)
    );
}

#[test]
fn corrupt_counter_is_refused() {
    let accounts = initialize_accounts(vec![1u8, 2, 3], 0, 5, 60);
    let data = encode_instruction(&SubscriptionInstruction::Initialize { payee: payee(), amount: 5, duration: 60 });
    assert_eq!(
        Processor::process_instruction(&program(), &accounts, &data, 0),
        Err(ProcessError::Subscription(SubscriptionError::CorruptRecord))
    );
}

#[test]
fn undecodable_operation_is_refused() {
    let accounts = initialize_accounts(vec![], 0, 5, 60);
    assert_eq!(
        Processor::process_instruction(&program(), &accounts, &[9u8], 0),
        Err(ProcessError::InvalidInstructionData)
    );
    let renew2 = encode_instruction(&SubscriptionInstruction::Renew2 {});
    assert_eq!(
        Processor::process_instruction(&program(), &accounts[..3], &renew2, 0),
        Err(ProcessError::NotEnoughAccountKeys)
    );
}


fn renew_by_account(a: &[AccountView], now: i64) -> Result<Vec<Effect>, ProcessError> {
    let data = encode_instruction(&SubscriptionInstruction::Renew2 {});
    Processor::process_instruction(&program(), a, &data, now)
}

#[test]
fn scenario_through_renewal_by_account() {
    let amount: u64 = 100;
    let duration: i64 = 10;
    let accounts = initialize_accounts(vec![], 0, amount, duration);
    let data = encode_instruction(&SubscriptionInstruction::Initialize { payee: payee(), amount, duration });
    let effects = Processor::process_instruction(&program(), &accounts, &data, 0).unwrap();
    let sub_key = accounts[2].key;
    let record = match effects[2] {
        Effect::WriteSubscription { record, .. } => record,
        other => panic!("unexpected effect {:?}", other),
    };
    assert_eq!(record.count, 0);
    assert_eq!(record.payer, caller());

    let a = renew_accounts(sub_key, &record, 100);
    let effects = renew_by_account(&a, 0).unwrap();
    let transfers: Vec<(Address, u64)> = effects
        .iter()
        .filter_map(|e| match e {
            Effect::Transfer { destination, amount, .. } => Some((*destination, *amount)),
            _ => None,
        })
        .collect();
    assert_eq!(transfers, vec![(a[5].key, 99), (a[6].key, 1)]);
    assert!(effects.iter().any(|e| matches!(e, Effect::CreateTokenAccount { wallet, .. } if *wallet == payee())));
    assert!(effects.iter().any(|e| matches!(e, Effect::MintCredential { destination, amount: 1, .. } if *destination == a[9].key)));
    let renewed = written_record(&effects);
    assert!(renewed.active);
    assert_eq!(renewed.renewal_count, 1);
    assert_eq!(renewed.next_renew_time, 10);

    let a = renew_accounts(sub_key, &renewed, 0);
    assert_eq!(renew_by_account(&a, 5), Err(ProcessError::Subscription(SubscriptionError::EarlyRenew)));
    let effects = renew_by_account(&a, 10).unwrap();
    assert_eq!(effects.len(), 1);
    let expired = written_record(&effects);
    assert!(!expired.active);
    let a = renew_accounts(sub_key, &expired, 0);
    assert_eq!(renew_by_account(&a, 20), Err(ProcessError::Subscription(SubscriptionError::AlreadyExpired)));
}

#[test]
fn renewal_by_account_refuses_unsigned_caller() {
    let (sub_key, _) = get_subscription_address(&program(), &payee(), 100, 10, 0).unwrap();
    let record = Subscription {
        active: false,
        mint: None,
        deposit_vault: ata(&sub_key, &currency()),
        deposit_mint: currency(),
        payee: payee(),
        payer: caller(),
        amount: 100,
        duration: 10,
        next_renew_time: 0,
        renewal_count: 0,
        count: 0,
    };
    let mut a = renew_accounts(sub_key, &record, 100);
    a[0].is_signer = false;
    assert_eq!(renew_by_account(&a, 0), Err(ProcessError::MissingRequiredSignature));
}

#[test]
fn initialize2_is_refused() {
    let accounts = initialize_accounts(vec![], 0, 5, 60);
    let data = encode_instruction(&SubscriptionInstruction::Initialize2 { payee: payee(), amount: 200, duration: 10, start_amount: 201 });
    assert_eq!(
        Processor::process_instruction(&program(), &accounts, &data, 0),
        Err(ProcessError::InvalidInstructionData)
    );
}
