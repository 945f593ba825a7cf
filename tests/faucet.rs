use solana_program::program_option::COption;
use solana_program::program_pack::Pack;
use solana_program::pubkey::Pubkey;
use spl_token::state::{Account, AccountState, Mint};
use token_faucet_backend::address::{derive_address, derive_config_address, derive_user_claim_address};
use token_faucet_backend::faucet::{apply_update, claim, pause};
use token_faucet_backend::processor::{process_claim, process_initialize, process_pause, process_update};
use token_faucet_backend::{
    process_instruction, AccountInput, Address, Effect, FaucetConfig, FaucetError, FaucetInstruction,
    UserClaimedRecord,
};

const AMOUNT: u64 = 1_000_000_000;
const COOLDOWN: i64 = 60;
const NOW: i64 = 1_700_000_000;

fn key(b: u8) -> Address {
    Address::new([b; 32])
}

fn program() -> Address {
    key(200)
}

fn admin() -> Address {
    key(1)
}

fn mint() -> Address {
    key(2)
}

fn user() -> Address {
    key(3)
}

fn pubkey(a: &Address) -> Pubkey {
    Pubkey::new_from_array(a.bytes)
}

fn mint_data() -> Vec<u8> {
    let m = Mint {
        mint_authority: COption::Some(pubkey(&admin())),
        supply: 1_000_000,
        decimals: 6,
        is_initialized: true,
        freeze_authority: COption::None,
    };
    let mut data = vec![0u8; Mint::LEN];
    Mint::pack(m, &mut data).unwrap();
    data
}

fn token_account_data(owner: &Address, amount: u64) -> Vec<u8> {
    let a = Account {
        mint: pubkey(&mint()),
        owner: pubkey(owner),
        amount,
        state: AccountState::Initialized,
        ..Account::default()
    };
    let mut data = vec![0u8; Account::LEN];
    Account::pack(a, &mut data).unwrap();
    data
}

fn balance(data: &[u8]) -> u64 {
    Account::unpack(data).unwrap().amount
}

fn account(key: Address, is_signer: bool, data: Vec<u8>) -> AccountInput {
    AccountInput { key, is_signer, data }
}

fn config_address() -> Address {
    derive_config_address(&program()).unwrap().address
}

fn record_address(u: &Address) -> Address {
    derive_user_claim_address(&program(), u).unwrap().address
}

#[derive(Debug, PartialEq)]
enum Failure {
    Program(FaucetError),
    TransferRejected,
}

/// Runs an instruction and applies its effects all or nothing, as the host does.
fn run(accounts: &mut Vec<AccountInput>, instruction: &FaucetInstruction, now: i64) -> Result<(), Failure> {
    let effects =
        process_instruction(&program(), accounts, &instruction.to_bytes(), now).map_err(Failure::Program)?;
    let mut staged = accounts.clone();
    for effect in &effects {
        match effect {
            Effect::CreateAccount { account, space, .. } => {
                staged[*account].data = vec![0u8; *space as usize];
            }
            Effect::TransferTokens { source, destination, amount, .. } => {
                let mut from = Account::unpack(&staged[*source].data).unwrap();
                let mut to = Account::unpack(&staged[*destination].data).unwrap();
                if from.amount < *amount {
                    return Err(Failure::TransferRejected);
                }
                from.amount -= amount;
                to.amount += amount;
                Account::pack(from, &mut staged[*source].data).unwrap();
                Account::pack(to, &mut staged[*destination].data).unwrap();
            }
            Effect::WriteData { account, data } => {
                staged[*account].data = data.clone();
            }
        }
    }
    *accounts = staged;
    Ok(())
}

fn init_accounts() -> Vec<AccountInput> {
    vec![
        account(admin(), true, vec![]),
        account(config_address(), false, vec![]),
        account(mint(), false, mint_data()),
        account(key(0), false, vec![]),
    ]
}

fn initialized_config() -> AccountInput {
    let mut accounts = init_accounts();
    let init = FaucetInstruction::InitializeFaucet { tokens_per_claim: AMOUNT, cooldown_seconds: COOLDOWN };
    run(&mut accounts, &init, NOW).unwrap();
    accounts.swap_remove(1)
}

fn claim_accounts(u: &Address, config: AccountInput, treasury: u64) -> Vec<AccountInput> {
    vec![
        account(*u, true, vec![]),
        account(record_address(u), false, vec![]),
        account(key(4), false, token_account_data(u, 0)),
        account(key(5), false, token_account_data(&config_address(), treasury)),
        config,
        account(key(6), false, vec![]),
        account(key(0), false, vec![]),
    ]
}

fn stored_record(accounts: &[AccountInput]) -> UserClaimedRecord {
    UserClaimedRecord::from_bytes(&accounts[1].data).unwrap()
}

fn stored_config(config: &AccountInput) -> FaucetConfig {
    FaucetConfig::from_bytes(&config.data).unwrap()
}

#[test]
fn initialize_then_claim_respects_cooldown() {
    let config = initialized_config();
    let c = stored_config(&config);
    assert!(c.is_active);
    assert_eq!(c.tokens_per_claim, AMOUNT);
    assert_eq!(c.cooldown_seconds, COOLDOWN);
    assert_eq!(c.admin, admin());
    assert_eq!(c.token_mint, mint());

    let mut accounts = claim_accounts(&user(), config, 5_000_000_000);
    run(&mut accounts, &FaucetInstruction::ClaimTokens, NOW).unwrap();
    assert_eq!(balance(&accounts[3].data), 4_000_000_000);
    assert_eq!(balance(&accounts[2].data), AMOUNT);
    let r = stored_record(&accounts);
    assert_eq!(r.user, user());
    assert_eq!(r.total_claims, 1);
    assert_eq!(r.last_claim_time, NOW);

    let second = run(&mut accounts, &FaucetInstruction::ClaimTokens, NOW);
    assert_eq!(second, Err(Failure::Program(FaucetError::CooldownNotMet { remaining: 60 })));
    assert_eq!(balance(&accounts[2].data), AMOUNT);
    assert_eq!(stored_record(&accounts).total_claims, 1);

    run(&mut accounts, &FaucetInstruction::ClaimTokens, NOW + 60).unwrap();
    let r = stored_record(&accounts);
    assert_eq!(r.total_claims, 2);
    assert_eq!(r.last_claim_time, NOW + 60);
    assert_eq!(balance(&accounts[2].data), 2 * AMOUNT);
}

#[test]
fn first_claim_bypasses_cooldown_at_time_zero() {
    let mut accounts = claim_accounts(&user(), initialized_config(), 5_000_000_000);
    run(&mut accounts, &FaucetInstruction::ClaimTokens, 0).unwrap();
    assert_eq!(balance(&accounts[3].data), 4_000_000_000);
    let r = stored_record(&accounts);
    assert_eq!((r.user, r.total_claims, r.last_claim_time), (user(), 1, 0));

    let second = run(&mut accounts, &FaucetInstruction::ClaimTokens, 0);
    assert_eq!(second, Err(Failure::Program(FaucetError::CooldownNotMet { remaining: 60 })));
    assert_eq!(stored_record(&accounts).total_claims, 1);

    run(&mut accounts, &FaucetInstruction::ClaimTokens, 60).unwrap();
    let r = stored_record(&accounts);
    assert_eq!((r.total_claims, r.last_claim_time), (2, 60));
    assert_eq!(balance(&accounts[2].data), 2 * AMOUNT);
}

#[test]
fn first_claim_ignores_cooldown_length() {
    for cooldown in [0i64, 60, 86_400, i64::MAX] {
        let c = FaucetConfig {
            admin: admin(),
            token_mint: mint(),
            tokens_per_claim: AMOUNT,
            cooldown_seconds: cooldown,
            is_active: true,
        };
        for now in [i64::MIN, 0, 5, NOW] {
            let r = claim(&c, user(), &None, now, AMOUNT).unwrap();
            assert_eq!((r.user, r.total_claims, r.last_claim_time), (user(), 1, now));
        }
        let earlier = UserClaimedRecord { user: user(), last_claim_time: NOW, total_claims: 1 };
        if cooldown > 0 {
            assert!(claim(&c, user(), &Some(earlier), NOW, AMOUNT).is_err());
        }
    }
}

#[test]
fn cooldown_is_checked_before_the_treasury() {
    let mut accounts = claim_accounts(&user(), initialized_config(), 5_000_000_000);
    run(&mut accounts, &FaucetInstruction::ClaimTokens, NOW).unwrap();
    accounts[3].data = mint_data();
    let r = process_claim(&program(), &accounts, NOW + 10);
    assert_eq!(r.unwrap_err(), FaucetError::CooldownNotMet { remaining: 50 });
    let r = process_claim(&program(), &accounts, NOW + 60);
    assert_eq!(r.unwrap_err(), FaucetError::InvalidAccountData);
}

#[test]
fn pause_blocks_claims() {
    let mut admin_accounts = vec![account(admin(), true, vec![]), initialized_config()];
    run(&mut admin_accounts, &FaucetInstruction::EmergencyPause, NOW).unwrap();
    assert!(!stored_config(&admin_accounts[1]).is_active);
    run(&mut admin_accounts, &FaucetInstruction::EmergencyPause, NOW).unwrap();
    assert!(!stored_config(&admin_accounts[1]).is_active);

    let config = admin_accounts.swap_remove(1);
    for u in [user(), key(9)] {
        let mut accounts = claim_accounts(&u, config.clone(), 5_000_000_000);
        let r = run(&mut accounts, &FaucetInstruction::ClaimTokens, NOW);
        assert_eq!(r, Err(Failure::Program(FaucetError::FaucetInactive)));
    }
}

#[test]
fn claim_with_short_treasury_fails_and_changes_nothing() {
    let mut accounts = claim_accounts(&user(), initialized_config(), AMOUNT - 1);
    let before = accounts.clone();
    let r = run(&mut accounts, &FaucetInstruction::ClaimTokens, NOW);
    assert_eq!(r, Err(Failure::Program(FaucetError::InsufficientFunds)));
    for (a, b) in accounts.iter().zip(before.iter()) {
        assert_eq!(a.data, b.data);
    }
}

#[test]
fn rejected_transfer_leaves_record_unchanged() {
    let mut accounts = claim_accounts(&user(), initialized_config(), 5_000_000_000);
    run(&mut accounts, &FaucetInstruction::ClaimTokens, NOW).unwrap();
    let record_before = accounts[1].data.clone();
    let effects = process_claim(&program(), &accounts, NOW + 60).unwrap();
    assert_eq!(effects.len(), 2);
    assert!(matches!(effects[0], Effect::TransferTokens { amount: AMOUNT, source: 3, destination: 2, .. }));
    assert!(matches!(effects[1], Effect::WriteData { account: 1, .. }));

    // the ledger rejects the transfer, so the host stops there
    let mut applied = accounts.clone();
    for effect in &effects {
        match effect {
            Effect::TransferTokens { .. } => break,
            Effect::WriteData { account, data } => applied[*account].data = data.clone(),
            Effect::CreateAccount { .. } => {}
        }
    }
    assert_eq!(applied[1].data, record_before);
    let r = UserClaimedRecord::from_bytes(&applied[1].data).unwrap();
    assert_eq!((r.total_claims, r.last_claim_time), (1, NOW));
}

#[test]
fn first_claim_creates_the_record_first() {
    let accounts = claim_accounts(&user(), initialized_config(), 5_000_000_000);
    let effects = process_claim(&program(), &accounts, NOW).unwrap();
    assert_eq!(effects.len(), 3);
    match &effects[0] {
        Effect::CreateAccount { payer, account, system_program, space, signer_seeds } => {
            assert_eq!((*payer, *account, *system_program, *space), (0, 1, 6, 48));
            let (_, bump) = Pubkey::find_program_address(&[b"user_claim", &user().bytes], &pubkey(&program()));
            assert_eq!(signer_seeds, &vec![b"user_claim".to_vec(), user().bytes.to_vec(), vec![bump]]);
        }
        other => panic!("unexpected effect {:?}", other),
    }
    match &effects[1] {
        Effect::TransferTokens { authority, token_program, signer_seeds, .. } => {
            assert_eq!((*authority, *token_program), (4, 5));
            let (_, bump) = Pubkey::find_program_address(&[b"faucet_config"], &pubkey(&program()));
            assert_eq!(signer_seeds, &vec![b"faucet_config".to_vec(), vec![bump]]);
        }
        other => panic!("unexpected effect {:?}", other),
    }
}

#[test]
fn non_admin_cannot_update_or_pause() {
    let config = initialized_config();
    let accounts = vec![account(key(9), true, vec![]), config];
    let update = FaucetInstruction::UpdateFaucetConfig {
        new_tokens_per_claim: Some(1),
        new_cooldown_seconds: None,
        new_is_active: Some(false),
    };
    for i in [update, FaucetInstruction::EmergencyPause] {
        let r = process_instruction(&program(), &accounts, &i.to_bytes(), NOW);
        assert_eq!(r.unwrap_err(), FaucetError::UnauthorizedAdmin);
    }
    let r = process_update(&program(), &accounts, None, None, None);
    assert_eq!(r.unwrap_err(), FaucetError::UnauthorizedAdmin);
}

#[test]
fn admin_update_merges_present_fields() {
    let mut accounts = vec![account(admin(), true, vec![]), initialized_config()];
    let update = FaucetInstruction::UpdateFaucetConfig {
        new_tokens_per_claim: Some(7),
        new_cooldown_seconds: None,
        new_is_active: Some(false),
    };
    run(&mut accounts, &update, NOW).unwrap();
    let c = stored_config(&accounts[1]);
    assert_eq!(c.tokens_per_claim, 7);
    assert_eq!(c.cooldown_seconds, COOLDOWN);
    assert!(!c.is_active);
    let update = FaucetInstruction::UpdateFaucetConfig {
        new_tokens_per_claim: None,
        new_cooldown_seconds: Some(3600),
        new_is_active: Some(true),
    };
    run(&mut accounts, &update, NOW).unwrap();
    let c = stored_config(&accounts[1]);
    assert_eq!((c.tokens_per_claim, c.cooldown_seconds, c.is_active), (7, 3600, true));
    let same = apply_update(&c, None, None, None);
    assert_eq!((same.tokens_per_claim, same.cooldown_seconds, same.is_active), (7, 3600, true));
    assert!(!pause(&c).is_active);
}

#[test]
fn derivation_is_deterministic_and_matches_the_host() {
    let a = derive_config_address(&program()).unwrap();
    let b = derive_config_address(&program()).unwrap();
    assert_eq!(a.address, b.address);
    assert_eq!(a.signer_seeds, b.signer_seeds);
    let (expected, bump) = Pubkey::find_program_address(&[b"faucet_config"], &pubkey(&program()));
    assert_eq!(a.address.bytes, expected.to_bytes());
    assert_eq!(a.signer_seeds, vec![b"faucet_config".to_vec(), vec![bump]]);
    assert_ne!(a.address, program());

    let u = derive_user_claim_address(&program(), &user()).unwrap();
    let (expected, _) = Pubkey::find_program_address(&[b"user_claim", &user().bytes], &pubkey(&program()));
    assert_eq!(u.address.bytes, expected.to_bytes());
    assert_ne!(u.address, record_address(&key(9)));
    let generic = derive_address(vec![b"user_claim".to_vec(), user().bytes.to_vec()], &program()).unwrap();
    assert_eq!(generic.address, u.address);
}

#[test]
fn config_round_trip_matches_borsh_layout() {
    let c = FaucetConfig {
        admin: admin(),
        token_mint: mint(),
        tokens_per_claim: 1_000_000_000,
        cooldown_seconds: -5,
        is_active: true,
    };
    let bytes = c.to_bytes();
    let expected = borsh::to_vec(&(admin().bytes, mint().bytes, 1_000_000_000u64, -5i64, true)).unwrap();
    assert_eq!(bytes, expected);
    assert_eq!(bytes.len(), 81);
    let d = FaucetConfig::from_bytes(&bytes).unwrap();
    assert_eq!((d.admin, d.token_mint), (admin(), mint()));
    assert_eq!((d.tokens_per_claim, d.cooldown_seconds, d.is_active), (1_000_000_000, -5, true));

    let mut bad = bytes.clone();
    bad[80] = 2;
    assert_eq!(FaucetConfig::from_bytes(&bad).unwrap_err(), FaucetError::MalformedInput);
    assert_eq!(FaucetConfig::from_bytes(&bytes[..80]).unwrap_err(), FaucetError::MalformedInput);
}

#[test]
fn record_round_trip_matches_borsh_layout() {
    let r = UserClaimedRecord { user: user(), last_claim_time: NOW, total_claims: 3 };
    let bytes = r.to_bytes();
    assert_eq!(bytes, borsh::to_vec(&(user().bytes, NOW, 3u64)).unwrap());
    let s = UserClaimedRecord::from_bytes(&bytes).unwrap();
    assert_eq!((s.user, s.last_claim_time, s.total_claims), (user(), NOW, 3));
    let mut long = bytes.clone();
    long.push(0);
    assert_eq!(UserClaimedRecord::from_bytes(&long).unwrap_err(), FaucetError::MalformedInput);
}

#[test]
fn instruction_round_trip_matches_borsh_layout() {
    let all = [
        FaucetInstruction::InitializeFaucet { tokens_per_claim: AMOUNT, cooldown_seconds: COOLDOWN },
        FaucetInstruction::ClaimTokens,
        FaucetInstruction::UpdateFaucetConfig {
            new_tokens_per_claim: Some(5),
            new_cooldown_seconds: None,
            new_is_active: Some(true),
        },
        FaucetInstruction::UpdateFaucetConfig {
            new_tokens_per_claim: None,
            new_cooldown_seconds: Some(-1),
            new_is_active: None,
        },
        FaucetInstruction::EmergencyPause,
    ];
    for i in all {
        assert_eq!(FaucetInstruction::try_from_slice(&i.to_bytes()), Ok(i));
    }
    assert_eq!(all[0].to_bytes(), borsh::to_vec(&(0u8, AMOUNT, COOLDOWN)).unwrap());
    assert_eq!(all[1].to_bytes(), vec![1u8]);
    assert_eq!(
        all[2].to_bytes(),
        borsh::to_vec(&(2u8, Some(5u64), None::<i64>, Some(true))).unwrap()
    );
    assert_eq!(all[4].to_bytes(), vec![3u8]);
}

#[test]
fn malformed_instructions_are_rejected() {
    let cases: Vec<Vec<u8>> = vec![
        vec![],
        vec![4],
        vec![1, 0],
        vec![0, 1, 2],
        vec![2, 0, 0],
        vec![2, 2, 0, 0],
        vec![2, 0, 0, 1, 2],
        vec![2, 0, 0, 0, 9],
        vec![3, 3],
    ];
    for data in cases {
        assert_eq!(FaucetInstruction::try_from_slice(&data), Err(FaucetError::MalformedInput));
        let r = process_instruction(&program(), &[], &data, NOW);
        assert_eq!(r.unwrap_err(), FaucetError::MalformedInput);
    }
}

#[test]
fn initialize_checks_signer_mint_and_address() {
    let mut accounts = init_accounts();
    accounts[0].is_signer = false;
    let r = process_initialize(&program(), &accounts, AMOUNT, COOLDOWN);
    assert_eq!(r.unwrap_err(), FaucetError::MissingSignature);

    let accounts = init_accounts();
    let r = process_initialize(&program(), &accounts[..3], AMOUNT, COOLDOWN);
    assert_eq!(r.unwrap_err(), FaucetError::NotEnoughAccountKeys);
    let r = process_initialize(&program(), &[], AMOUNT, COOLDOWN);
    assert_eq!(r.unwrap_err(), FaucetError::NotEnoughAccountKeys);

    let mut accounts = init_accounts();
    accounts[2].data = token_account_data(&user(), 5);
    let r = process_initialize(&program(), &accounts, AMOUNT, COOLDOWN);
    assert_eq!(r.unwrap_err(), FaucetError::InvalidAccountData);

    let mut accounts = init_accounts();
    accounts[1].key = key(77);
    let r = process_initialize(&program(), &accounts, AMOUNT, COOLDOWN);
    assert_eq!(r.unwrap_err(), FaucetError::InvalidDerivedAddress);

    let accounts = init_accounts();
    let effects = process_initialize(&program(), &accounts, AMOUNT, COOLDOWN).unwrap();
    assert_eq!(effects.len(), 2);
    assert!(matches!(effects[0], Effect::CreateAccount { payer: 0, account: 1, system_program: 3, space: 81, .. }));
}

#[test]
fn claim_checks_accounts_in_order() {
    let config = initialized_config();
    let mut accounts = claim_accounts(&user(), config.clone(), AMOUNT);
    accounts[0].is_signer = false;
    assert_eq!(process_claim(&program(), &accounts, NOW).unwrap_err(), FaucetError::MissingSignature);

    let accounts = claim_accounts(&user(), config.clone(), AMOUNT);
    assert_eq!(process_claim(&program(), &accounts[..6], NOW).unwrap_err(), FaucetError::NotEnoughAccountKeys);

    let mut accounts = claim_accounts(&user(), config.clone(), AMOUNT);
    accounts[4].key = key(77);
    assert_eq!(process_claim(&program(), &accounts, NOW).unwrap_err(), FaucetError::InvalidDerivedAddress);

    let mut accounts = claim_accounts(&user(), config.clone(), AMOUNT);
    accounts[4].data.pop();
    assert_eq!(process_claim(&program(), &accounts, NOW).unwrap_err(), FaucetError::MalformedInput);

    let mut accounts = claim_accounts(&user(), config.clone(), AMOUNT);
    accounts[1].key = record_address(&key(9));
    assert_eq!(process_claim(&program(), &accounts, NOW).unwrap_err(), FaucetError::InvalidDerivedAddress);

    let mut accounts = claim_accounts(&user(), config.clone(), AMOUNT);
    accounts[1].data = vec![1, 2, 3];
    assert_eq!(process_claim(&program(), &accounts, NOW).unwrap_err(), FaucetError::MalformedInput);

    let mut accounts = claim_accounts(&user(), config.clone(), AMOUNT);
    accounts[3].data = mint_data();
    assert_eq!(process_claim(&program(), &accounts, NOW).unwrap_err(), FaucetError::InvalidAccountData);

    let mut accounts = claim_accounts(&user(), config, AMOUNT);
    accounts[1].data = UserClaimedRecord { user: user(), last_claim_time: 0, total_claims: u64::MAX }.to_bytes();
    assert_eq!(process_claim(&program(), &accounts, NOW).unwrap_err(), FaucetError::ArithmeticOverflow);
}

#[test]
fn pause_requires_signature_and_accounts() {
    let config = initialized_config();
    let accounts = vec![account(admin(), false, vec![]), config.clone()];
    assert_eq!(process_pause(&program(), &accounts).unwrap_err(), FaucetError::MissingSignature);
    assert_eq!(process_pause(&program(), &accounts[..1]).unwrap_err(), FaucetError::NotEnoughAccountKeys);
    let accounts = vec![account(admin(), true, vec![]), config];
    let effects = process_pause(&program(), &accounts).unwrap();
    match &effects[0] {
        Effect::WriteData { account, data } => {
            assert_eq!(*account, 1);
            assert!(!FaucetConfig::from_bytes(data).unwrap().is_active);
        }
        other => panic!("unexpected effect {:?}", other),
    }
}

#[test]
fn error_codes() {
    assert_eq!(FaucetError::CooldownNotMet { remaining: 5 }.custom_code(), Some(1000));
    assert_eq!(FaucetError::FaucetInactive.custom_code(), Some(1001));
    assert_eq!(FaucetError::InsufficientFunds.custom_code(), Some(1002));
    assert_eq!(FaucetError::UnauthorizedAdmin.custom_code(), Some(1003));
    assert_eq!(FaucetError::MissingSignature.custom_code(), None);
}
