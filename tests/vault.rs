use buoyant::address::{associated_token_address, Address};
use buoyant::client::get_subscription_address;
use buoyant::effects::{Effect, Signer};
use buoyant::error::{ProcessError, SubscriptionError};
use buoyant::processor::deposit::process_deposit;
use buoyant::processor::withdraw::process_withdraw;
use buoyant::state::{encode_subscription, Subscription};
use buoyant::utils::AccountView;
use solana_program::program_pack::Pack;
use solana_program::pubkey::Pubkey;

fn k(b: u8) -> Address {
    Address { bytes: [b; 32] }
}

fn program() -> Address {
    k(7)
}

fn currency() -> Address {
    Address { bytes: spl_token::native_mint::id().to_bytes() }
}

fn token_program() -> Address {
    Address { bytes: spl_token::id().to_bytes() }
}

fn token_data(mint: Address, owner: Address, amount: u64) -> Vec<u8> {
    let acc = spl_token::state::Account {
        mint: Pubkey::new_from_array(mint.bytes),
        owner: Pubkey::new_from_array(owner.bytes),
        amount,
        state: spl_token::state::AccountState::Initialized,
        ..Default::default()
    };
    let mut data = vec![0u8; spl_token::state::Account::LEN];
    spl_token::state::Account::pack(acc, &mut data).unwrap();
    data
}

fn account(key: Address, signer: bool, writable: bool, owner: Address, data: Vec<u8>) -> AccountView {
    AccountView { key, is_signer: signer, is_writable: writable, owner, lamports: 0, data }
}

fn ata(wallet: &Address, mint: &Address) -> Address {
    associated_token_address(wallet, mint).unwrap()
}

fn withdraw_accounts(credential: Option<(Address, u64)>, vault_balance: u64) -> (Vec<AccountView>, u8) {
    let payer = k(3);
    let (sub, bump) = get_subscription_address(&program(), &k(9), 100, 10, 0).unwrap();
    let vault = ata(&sub, &currency());
    let record = Subscription {
        active: true,
        mint: credential.map(|(m, _)| m),
        deposit_vault: vault,
        deposit_mint: currency(),
        payee: k(9),
        payer: k(3),
        amount: 100,
        duration: 10,
        next_renew_time: 10,
        renewal_count: 1,
        count: 0,
    };
    let holding = match credential {
        Some((m, units)) => account(ata(&payer, &m), false, false, token_program(), token_data(m, payer, units)),
        None => account(k(1), false, false, k(0), vec![]),
    };
    (
        vec![
            account(payer, true, true, k(0), vec![]),
            account(ata(&payer, &currency()), false, true, token_program(), token_data(currency(), payer, 0)),
            account(vault, false, true, token_program(), token_data(currency(), sub, vault_balance)),
            account(sub, false, false, program(), encode_subscription(&record)),
            holding,
            account(token_program(), false, false, k(0), vec![]),
        ],
        bump,
    )
}

#[test]
fn withdraw_moves_exactly_the_request() {
    let (a, bump) = withdraw_accounts(Some((k(4), 1)), 500);
    let effects = process_withdraw(&program(), &a, 300, 0).unwrap();
    assert_eq!(
        effects,
        vec![Effect::Transfer {
            source: a[2].key,
            destination: a[1].key,
            authority: a[3].key,
            amount: 300,
            signed_by: Some(Signer::Subscription { payee: k(9), amount: 100, duration: 10, count: 0, bump }),
        }]
    );
    assert_eq!(process_withdraw(&program(), &a, 500, 0).unwrap().len(), 1);
}

#[test]
fn withdraw_beyond_balance_fails() {
    let (a, _) = withdraw_accounts(Some((k(4), 1)), 500);
    assert_eq!(
        process_withdraw(&program(), &a, 501, 0),
        Err(ProcessError::Subscription(SubscriptionError::InsufficientWithdrawBalance))
    );
}

#[test]
fn withdraw_needs_the_credential() {
    let (a, _) = withdraw_accounts(Some((k(4), 0)), 500);
    assert_eq!(
        process_withdraw(&program(), &a, 10, 0),
        Err(ProcessError::Subscription(SubscriptionError::InvalidSubscriptionOwner))
    );
    let (a, _) = withdraw_accounts(None, 500);
    assert!(process_withdraw(&program(), &a, 10, 0).is_ok());
}

#[test]
fn withdraw_from_a_foreign_vault_fails() {
    let (mut a, _) = withdraw_accounts(None, 500);
    a[2].key = k(5);
    assert_eq!(
        process_withdraw(&program(), &a, 10, 0),
        Err(ProcessError::Utils(buoyant::error::UtilsError::InvalidProgramAddress))
    );
    let (mut a, _) = withdraw_accounts(None, 500);
    a[3].owner = k(6);
    assert_eq!(process_withdraw(&program(), &a, 10, 0), Err(ProcessError::IllegalOwner));
}

fn deposit_accounts() -> Vec<AccountView> {
    let payer = k(3);
    vec![
        account(payer, true, true, k(0), vec![]),
        account(k(11), false, true, token_program(), token_data(currency(), payer, 1000)),
        account(k(12), false, true, token_program(), token_data(currency(), k(13), 0)),
        account(token_program(), false, false, k(0), vec![]),
    ]
}

#[test]
fn deposit_transfers_into_the_vault() {
    let a = deposit_accounts();
    assert_eq!(
        process_deposit(&a, 100),
        Ok(vec![Effect::Transfer { source: k(11), destination: k(12), authority: k(3), amount: 100, signed_by: None }])
    );
}

#[test]
fn deposit_refusals() {
    let mut a = deposit_accounts();
    a[2].data = token_data(k(20), k(13), 0);
    assert_eq!(process_deposit(&a, 100), Err(ProcessError::TokenMintMismatch));
    let mut a = deposit_accounts();
    a[1].data = token_data(currency(), k(21), 1000);
    assert_eq!(process_deposit(&a, 100), Err(ProcessError::TokenOwnerMismatch));
    let mut a = deposit_accounts();
    a[3].key = k(22);
    assert_eq!(process_deposit(&a, 100), Err(ProcessError::IncorrectProgramId));
    let mut a = deposit_accounts();
    a[0].is_signer = false;
    assert_eq!(process_deposit(&a, 100), Err(ProcessError::MissingRequiredSignature));
    let a = deposit_accounts();
    assert_eq!(process_deposit(&a[..3], 100), Err(ProcessError::NotEnoughAccountKeys));
}

fn close_accounts(credential: Option<(Address, u64)>, vault_balance: u64) -> (Vec<AccountView>, u8) {
    let (w, bump) = withdraw_accounts(credential, vault_balance);
    let a = vec![
        w[0].clone(),
        w[1].clone(),
        w[4].clone(),
        account(w[3].key, false, true, program(), w[3].data.clone()),
        w[2].clone(),
        account(currency(), false, false, token_program(), vec![]),
        account(Address { bytes: solana_program::system_program::id().to_bytes() }, false, false, k(0), vec![]),
        account(Address { bytes: solana_program::sysvar::rent::id().to_bytes() }, false, false, k(0), vec![]),
        account(token_program(), false, false, k(0), vec![]),
        account(Address { bytes: spl_associated_token_account::id().to_bytes() }, false, false, k(0), vec![]),
    ];
    (a, bump)
}

#[test]
fn close_empties_the_vault_and_reclaims_the_record() {
    let (a, bump) = close_accounts(Some((k(4), 1)), 250);
    let signer = Signer::Subscription { payee: k(9), amount: 100, duration: 10, count: 0, bump };
    let effects = buoyant::processor::close::process_close(&program(), &a, 0).unwrap();
    assert_eq!(
        effects,
        vec![
            Effect::Transfer { source: a[4].key, destination: a[1].key, authority: a[3].key, amount: 250, signed_by: Some(signer) },
            Effect::CloseTokenAccount { account: a[4].key, destination: a[0].key, authority: a[3].key, signer },
            Effect::CloseRecord { account: a[3].key, destination: a[0].key },
        ]
    );
}

#[test]
fn close_by_a_stranger_fails() {
    let (a, _) = close_accounts(Some((k(4), 0)), 250);
    assert_eq!(
        buoyant::processor::close::process_close(&program(), &a, 0),
        Err(ProcessError::Subscription(SubscriptionError::InvalidSubscriptionOwner))
    );
}

#[test]
fn withdraw_to_a_foreign_destination_fails() {
    let (mut a, _) = withdraw_accounts(None, 500);
    a[1].data = token_data(currency(), k(8), 0);
    assert_eq!(
        process_withdraw(&program(), &a, 10, 0),
        Err(ProcessError::Subscription(SubscriptionError::InvalidVaultOwner))
    );
}


#[test]
fn before_the_first_credential_only_the_payer_withdraws() {
    let (mut a, _) = withdraw_accounts(None, 500);
    assert!(process_withdraw(&program(), &a, 10, 0).is_ok());
    let stranger = k(30);
    a[0].key = stranger;
    a[1] = account(ata(&stranger, &currency()), false, true, token_program(), token_data(currency(), stranger, 0));
    assert_eq!(
        process_withdraw(&program(), &a, 10, 0),
        Err(ProcessError::Subscription(SubscriptionError::InvalidSubscriptionOwner))
    );
}
