use buoyant::address::{
    associated_token_address, counter_seeds, create_program_address, find_program_address,
    with_bump, Address,
};
use buoyant::effects::{signer_seeds, Signer};
use buoyant::error::{ProcessError, SubscriptionError, UtilsError};
use buoyant::instruction::{decode_instruction, encode_instruction, SubscriptionInstruction};
use buoyant::renewal::{
    deactivated, fee_split, renew_decision, renewal_fee, renewed, RenewOutcome,
};
use buoyant::state::{
    decode_counter, decode_counter2, decode_subscription, encode_counter, encode_counter2,
    encode_subscription, Counter, Counter2, Subscription, SUBSCRIPTION_LEN,
};
use buoyant::token::unpack_token_account;
use buoyant::utils::{
    assert_msg, check_ata, check_ata_initialized, check_pda, check_pda_with_bump,
    check_program_id, check_signer, check_subscription_counter_address,
    check_subscription_mint_address, check_writable, AccountView,
};
use solana_program::program_pack::Pack;
use solana_program::pubkey::Pubkey;

fn k(b: u8) -> Address {
    Address { bytes: [b; 32] }
}

fn sample() -> Subscription {
    Subscription {
        active: true,
        mint: Some(k(1)),
        deposit_vault: k(2),
        deposit_mint: k(3),
        payee: k(4),
        payer: k(5),
        amount: 100,
        duration: 10,
        next_renew_time: -5,
        renewal_count: 7,
        count: 0,
    }
}

fn view(key: Address, data: Vec<u8>) -> AccountView {
    AccountView { key, is_signer: false, is_writable: false, owner: k(0), lamports: 0, data }
}

fn token_data(mint: Address, owner: Address, amount: u64) -> Vec<u8> {
    let acc = spl_token::state::Account {
        mint: Pubkey::new_from_array(mint.bytes),
        owner: Pubkey::new_from_array(owner.bytes),
        amount,
        state: spl_token::state::AccountState::Initialized,
        ..Default::default()
    };
    let mut data = vec![0u8; spl_token::state::Account::LEN];
    spl_token::state::Account::pack(acc, &mut data).unwrap();
    data
}

#[test]
fn subscription_record_round_trip() {
    let s = sample();
    let bytes = encode_subscription(&s);
    assert_eq!(bytes.len(), SUBSCRIPTION_LEN);
    assert_eq!(&bytes[131..163], &[5u8; 32]);
    assert_eq!(&bytes[163..171], &100u64.to_le_bytes());
    assert_eq!(&bytes[179..187], &(-5i64).to_le_bytes());
    assert_eq!(bytes[0], 2);
    assert_eq!(decode_subscription(&bytes), Ok(s));
    let mut none = s;
    none.mint = None;
    let bytes = encode_subscription(&none);
    assert_eq!(bytes[2], 0);
    assert_eq!(decode_subscription(&bytes), Ok(none));
}

#[test]
fn subscription_record_rejections() {
    assert_eq!(decode_subscription(&[]), Err(SubscriptionError::NotInitialized));
    // A record in the shorter unversioned layout is not guessed at.
    assert_eq!(decode_subscription(&vec![0u8; 162]), Err(SubscriptionError::CorruptRecord));
    let mut bytes = encode_subscription(&sample());
    bytes[0] = 1;
    assert_eq!(decode_subscription(&bytes), Err(SubscriptionError::CorruptRecord));
    let mut bytes = encode_subscription(&sample());
    bytes[0] = 3;
    assert_eq!(decode_subscription(&bytes), Err(SubscriptionError::CorruptRecord));
    let mut none = sample();
    none.mint = None;
    let mut bytes = encode_subscription(&none);
    bytes[10] = 1;
    assert_eq!(decode_subscription(&bytes), Err(SubscriptionError::CorruptRecord));
    let mut bytes = encode_subscription(&sample());
    bytes[1] = 2;
    assert_eq!(decode_subscription(&bytes), Err(SubscriptionError::CorruptRecord));
}

#[test]
fn counter_records() {
    let bytes = encode_counter(&Counter { count: 258 });
    assert_eq!(bytes, vec![2u8, 1, 0, 0, 0, 0, 0, 0]);
    assert_eq!(decode_counter(&bytes), Some(Counter { count: 258 }));
    assert_eq!(decode_counter(&[1u8, 2, 3]), None);
    let bytes = encode_counter2(&Counter2 { bump: 254, count: 3 });
    assert_eq!(bytes, vec![254u8, 3, 0, 0, 0, 0, 0, 0, 0]);
    assert_eq!(decode_counter2(&bytes), Some(Counter2 { bump: 254, count: 3 }));
    assert_eq!(decode_counter2(&bytes[..8]), None);
}

#[test]
fn instruction_round_trip() {
    let all = vec![
        SubscriptionInstruction::Initialize { payee: k(5), amount: 20, duration: -30 },
        SubscriptionInstruction::Deposit { amount: 100 },
        SubscriptionInstruction::Withdraw { amount: 7, count: 1 },
        SubscriptionInstruction::Renew { count: 4 },
        SubscriptionInstruction::Initialize2 { payee: k(6), amount: 200, duration: 10, start_amount: 201 },
        SubscriptionInstruction::Renew2 {},
        SubscriptionInstruction::Close { count: 2 },
        SubscriptionInstruction::Registry { count: 3 },
    ];
    for i in all {
        assert_eq!(decode_instruction(&encode_instruction(&i)), Ok(i));
    }
    let bytes = encode_instruction(&SubscriptionInstruction::Deposit { amount: 100 });
    assert_eq!(bytes, vec![1u8, 100, 0, 0, 0, 0, 0, 0, 0]);
}

#[test]
fn instruction_rejections() {
    assert_eq!(decode_instruction(&[]), Err(ProcessError::InvalidInstructionData));
    assert_eq!(decode_instruction(&[8u8]), Err(ProcessError::InvalidInstructionData));
    assert_eq!(decode_instruction(&[7u8]), Err(ProcessError::InvalidInstructionData));
    assert_eq!(decode_instruction(&[1u8, 0, 0]), Err(ProcessError::InvalidInstructionData));
    assert_eq!(decode_instruction(&[6u8, 0]), Err(ProcessError::InvalidInstructionData));
    assert_eq!(decode_instruction(&[5u8, 0]), Err(ProcessError::InvalidInstructionData));
}

#[test]
fn fee_is_one_percent_rounded_down() {
    assert_eq!(renewal_fee(100), 1);
    assert_eq!(renewal_fee(99), 0);
    assert_eq!(renewal_fee(250), 2);
    assert_eq!(fee_split(100), (99, 1));
    assert_eq!(fee_split(0), (0, 0));
    let (payout, fee) = fee_split(u64::MAX);
    assert_eq!(fee, u64::MAX / 100);
    assert_eq!(payout + fee, u64::MAX);
}

#[test]
fn renew_decisions() {
    let mut s = sample();
    s.next_renew_time = 10;
    assert_eq!(renew_decision(&s, 1000, 9), Err(SubscriptionError::EarlyRenew));
    assert_eq!(renew_decision(&s, 100, 10), Ok(RenewOutcome::Renewed { payout: 99, fee: 1 }));
    assert_eq!(renew_decision(&s, 99, 10), Ok(RenewOutcome::Deactivated));
    let off = deactivated(&s);
    assert!(!off.active);
    assert_eq!(renew_decision(&off, 99, 10), Err(SubscriptionError::AlreadyExpired));
    assert_eq!(
        buoyant::renewal::renew(&s, 100, 10, &k(8)).map(|(o, r)| (o, r.active, r.renewal_count, r.next_renew_time)),
        Ok((RenewOutcome::Renewed { payout: 99, fee: 1 }, true, 8, 20))
    );
    assert_eq!(
        buoyant::renewal::renew(&s, 100, 9, &k(8)),
        Err(ProcessError::Subscription(SubscriptionError::EarlyRenew))
    );
    assert_eq!(buoyant::renewal::renew(&s, 99, 10, &k(8)), Ok((RenewOutcome::Deactivated, deactivated(&s))));
    assert_eq!(
        buoyant::renewal::renew(&deactivated(&s), 99, 10, &k(8)),
        Err(ProcessError::Subscription(SubscriptionError::AlreadyExpired))
    );
    let next = renewed(&s, &k(8), 20).unwrap();
    assert_eq!(next.next_renew_time, 30);
    assert_eq!(next.renewal_count, 8);
    assert_eq!(next.mint, Some(k(8)));
    s.duration = i64::MAX;
    assert_eq!(renewed(&s, &k(8), 20), Err(ProcessError::ArithmeticOverflow));
}

#[test]
fn error_codes() {
    assert_eq!(SubscriptionError::SampleError.code(), 0);
    assert_eq!(SubscriptionError::EarlyRenew.code(), 1);
    assert_eq!(SubscriptionError::InsufficientWithdrawBalance.code(), 5);
    assert_eq!(SubscriptionError::CorruptRecord.code(), 10);
    assert_eq!(SubscriptionError::DuplicateRegistration.code(), 11);
}

#[test]
fn token_account_unpacking() {
    let data = token_data(k(1), k(2), 77);
    let t = unpack_token_account(&data).unwrap();
    assert_eq!(t.mint, k(1));
    assert_eq!(t.owner, k(2));
    assert_eq!(t.amount, 77);
    assert_eq!(unpack_token_account(&data[..100]), Err(ProcessError::InvalidAccountData));
    let mut bad = data.clone();
    bad[108] = 3;
    assert_eq!(unpack_token_account(&bad), Err(ProcessError::InvalidAccountData));
}

#[test]
fn derivation_matches_the_runtime() {
    let program = k(7);
    let seeds = counter_seeds(&k(9), 5, 60);
    let (a, bump) = find_program_address(&seeds, &program).unwrap();
    let expected = Pubkey::find_program_address(
        &[b"subscription_counter", &[9u8; 32], &5u64.to_le_bytes(), &60i64.to_le_bytes()],
        &Pubkey::new_from_array([7u8; 32]),
    );
    assert_eq!(a.bytes, expected.0.to_bytes());
    assert_eq!(bump, expected.1);
    assert_eq!(create_program_address(&with_bump(&seeds, bump), &program), Some(a));
    let acc = view(a, vec![]);
    assert_eq!(check_pda(&acc, &seeds, &program), Ok(bump));
    assert_eq!(check_pda_with_bump(&acc, &with_bump(&seeds, bump), &program), Ok(()));
    assert_eq!(check_subscription_counter_address(&acc, &k(9), 5, 60, None, &program), Ok(()));
    assert_eq!(check_subscription_counter_address(&acc, &k(9), 5, 60, Some(bump), &program), Ok(()));
    let other = view(k(1), vec![]);
    assert_eq!(check_pda(&other, &seeds, &program), Err(ProcessError::Utils(UtilsError::InvalidProgramAddress)));
    let too_many: Vec<Vec<u8>> = (0..17).map(|i| vec![i as u8]).collect();
    assert_eq!(check_pda_with_bump(&acc, &too_many, &program), Err(ProcessError::MaxSeedLengthExceeded));
    let too_long = vec![vec![0u8; 33]];
    assert_eq!(check_pda_with_bump(&acc, &too_long, &program), Err(ProcessError::MaxSeedLengthExceeded));
    assert_eq!(check_subscription_counter_address(&other, &k(9), 5, 60, None, &program), Err(ProcessError::Utils(UtilsError::InvalidProgramAddress)));
    assert_eq!(check_subscription_counter_address(&other, &k(9), 5, 60, Some(bump), &program), Err(ProcessError::Utils(UtilsError::InvalidProgramAddress)));
    assert_eq!(check_subscription_mint_address(&other, &k(2), 0, None, &program), Err(ProcessError::Utils(UtilsError::InvalidProgramAddress)));
}

#[test]
fn signer_seeds_carry_the_bump() {
    let seeds = signer_seeds(&Signer::Counter { payee: k(9), amount: 5, duration: 60, bump: 200 });
    assert_eq!(seeds.len(), 5);
    assert_eq!(seeds[0], b"subscription_counter".to_vec());
    assert_eq!(seeds[4], vec![200u8]);
    let seeds = signer_seeds(&Signer::Mint { subscription: k(1), generation: 3, bump: 9 });
    assert_eq!(seeds[0], b"subscription_mint".to_vec());
    assert_eq!(seeds[2], 3u64.to_le_bytes().to_vec());
}

#[test]
fn associated_accounts() {
    let wallet = k(4);
    let mint = k(5);
    let a = associated_token_address(&wallet, &mint).unwrap();
    let expected = spl_associated_token_account::get_associated_token_address(
        &Pubkey::new_from_array(wallet.bytes),
        &Pubkey::new_from_array(mint.bytes),
    );
    assert_eq!(a.bytes, expected.to_bytes());
    let mut acc = view(a, token_data(mint, wallet, 12));
    assert_eq!(check_ata(&acc, &wallet, &mint), Ok(()));
    assert_eq!(check_ata_initialized(&acc, &wallet, &mint), Err(ProcessError::IllegalOwner));
    acc.owner = Address { bytes: spl_token::id().to_bytes() };
    assert_eq!(check_ata_initialized(&acc, &wallet, &mint), Ok(12));
    acc.data = token_data(mint, k(6), 12);
    assert_eq!(check_ata_initialized(&acc, &wallet, &mint), Err(ProcessError::TokenOwnerMismatch));
    acc.data = token_data(k(6), wallet, 12);
    assert_eq!(check_ata_initialized(&acc, &wallet, &mint), Err(ProcessError::TokenMintMismatch));
    assert_eq!(check_ata(&view(k(1), vec![]), &wallet, &mint), Err(ProcessError::Utils(UtilsError::InvalidProgramAddress)));
}

#[test]
fn simple_checks() {
    let mut acc = view(k(1), vec![]);
    assert_eq!(check_signer(&acc), Err(ProcessError::MissingRequiredSignature));
    assert_eq!(check_writable(&acc), Err(ProcessError::MissingRequiredSignature));
    acc.is_signer = true;
    acc.is_writable = true;
    assert_eq!(check_signer(&acc), Ok(()));
    assert_eq!(check_writable(&acc), Ok(()));
    assert_eq!(check_program_id(&acc, &k(1)), Ok(()));
    assert_eq!(check_program_id(&acc, &k(2)), Err(ProcessError::IncorrectProgramId));
    assert_eq!(assert_msg(true, ProcessError::IllegalOwner), Ok(()));
    assert_eq!(assert_msg(false, ProcessError::IllegalOwner), Err(ProcessError::IllegalOwner));
}
