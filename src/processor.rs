use vstd::prelude::*;
use crate::address::{
    Address, Derived, config_seeds, user_claim_seeds, derived_from, program_address, seeds_view,
    derive_config_address, derive_user_claim_address,
};
use crate::codec::{
    CONFIG_LEN, RECORD_LEN, config_bytes, record_bytes, config_well_formed, record_well_formed,
    stored_config, stored_record, parse_instruction,
};
use crate::faucet::{
    initial_config, claim_outcome, cooldown_blocks, elapsed, updated_config, paused_config,
    new_config, claim, check_cooldown, apply_update, pause, authorize_admin,
};
use crate::state::{FaucetConfig, UserClaimedRecord, FaucetInstruction, FaucetError};
use crate::token::{mint_valid, token_account_valid, token_amount, is_token_mint, token_account_amount};

verus! {

/// An account as the program sees it in one invocation.
#[derive(Clone, Debug)]
pub struct AccountInput {
    pub key: Address,
    pub is_signer: bool,
    pub data: Vec<u8>,
}

/// What the host carries out, in order, once the program accepted an
/// instruction. Accounts are named by their index in the invocation's
/// account list. The host stops at the first failing effect and discards
/// every effect of the invocation.
#[derive(Clone, Debug)]
pub enum Effect {
    /// Allocate `account` with `space` bytes, owned by this program and paid
    /// for by `payer`, through `system_program`; the program signs for the
    /// new derived address with `signer_seeds`.
    CreateAccount {
        payer: usize,
        account: usize,
        system_program: usize,
        space: u64,
        signer_seeds: Vec<Vec<u8>>,
    },
    /// Move `amount` tokens from `source` to `destination` through
    /// `token_program`, on the authority of the derived address `authority`,
    /// signed with `signer_seeds`.
    TransferTokens {
        source: usize,
        destination: usize,
        authority: usize,
        token_program: usize,
        amount: u64,
        signer_seeds: Vec<Vec<u8>>,
    },
    /// Replace the contents of `account` with `data`.
    WriteData { account: usize, data: Vec<u8> },
}

/// The derivation seeds followed by the bump seed that the derivation found.
pub open spec fn signer_seeds_of(seeds: Seq<Seq<u8>>, program_id: Seq<u8>) -> Seq<Seq<u8>> {
    seeds.push(seq![program_address(seeds, program_id)->Some_0.1])
}

/// `key` is the derived address of `seeds` under `program_id`.
pub open spec fn is_derived(seeds: Seq<Seq<u8>>, program_id: Seq<u8>, key: Seq<u8>) -> bool {
    program_address(seeds, program_id) matches Some((a, _)) && a == key
}

pub open spec fn is_create(e: Effect, payer: usize, account: usize, system_program: usize, space: u64, seeds: Seq<Seq<u8>>) -> bool {
    match e {
        Effect::CreateAccount { payer: p, account: a, system_program: s, space: n, signer_seeds } => p == payer
            && a == account && s == system_program && n == space && seeds_view(signer_seeds@) == seeds,
        _ => false,
    }
}

pub open spec fn is_transfer(e: Effect, source: usize, destination: usize, authority: usize, token_program: usize, amount: u64, seeds: Seq<Seq<u8>>) -> bool {
    match e {
        Effect::TransferTokens { source: s, destination: d, authority: a, token_program: t, amount: n, signer_seeds } => s
            == source && d == destination && a == authority && t == token_program && n == amount && seeds_view(
            signer_seeds@,
        ) == seeds,
        _ => false,
    }
}

pub open spec fn is_write(e: Effect, account: usize, data: Seq<u8>) -> bool {
    match e {
        Effect::WriteData { account: a, data: d } => a == account && d@ == data,
        _ => false,
    }
}

/// Outcome of initialization, checks in order: admin present and signing,
/// all four accounts present, a valid token mint, the configuration record at
/// its derived address.
pub open spec fn initialize_result(program_id: Seq<u8>, a: Seq<AccountInput>, tokens_per_claim: u64, cooldown_seconds: i64) -> Result<FaucetConfig, FaucetError> {
    if a.len() < 1 {
        Err(FaucetError::NotEnoughAccountKeys)
    } else if !a[0].is_signer {
        Err(FaucetError::MissingSignature)
    } else if a.len() < 4 {
        Err(FaucetError::NotEnoughAccountKeys)
    } else if !mint_valid(a[2].data@) {
        Err(FaucetError::InvalidAccountData)
    } else if !is_derived(config_seeds(), program_id, a[1].key@) {
        Err(FaucetError::InvalidDerivedAddress)
    } else {
        Ok(initial_config(a[0].key, a[2].key, tokens_per_claim, cooldown_seconds))
    }
}

/// Initialization creates the configuration record, paid by the admin, and
/// stores the new configuration in it.
pub open spec fn initialize_effects(program_id: Seq<u8>, config: FaucetConfig, effects: Seq<Effect>) -> bool {
    &&& effects.len() == 2
    &&& is_create(effects[0], 0, 1, 3, CONFIG_LEN as u64, signer_seeds_of(config_seeds(), program_id))
    &&& is_write(effects[1], 1, config_bytes(config))
}

pub open spec fn initialize_spec(program_id: Seq<u8>, a: Seq<AccountInput>, tokens_per_claim: u64, cooldown_seconds: i64, r: Result<Vec<Effect>, FaucetError>) -> bool {
    match r {
        Ok(effects) => initialize_result(program_id, a, tokens_per_claim, cooldown_seconds) matches Ok(c)
            && initialize_effects(program_id, c, effects@),
        Err(e) => initialize_result(program_id, a, tokens_per_claim, cooldown_seconds) == Err::<
            FaucetConfig,
            FaucetError,
        >(e),
    }
}

/// The user's stored record before a claim: `None` while the record account
/// is still empty (the user has never claimed).
pub open spec fn prior_record(data: Seq<u8>) -> Option<UserClaimedRecord> {
    if data.len() == 0 {
        None
    } else {
        Some(stored_record(data))
    }
}

/// Outcome of a claim at time `now`, checks in order: user present and
/// signing, all seven accounts present, the configuration record at its
/// derived address and well-formed, the faucet active, the claim record at
/// the user's derived address and empty or well-formed, the cooldown (skipped
/// for a first claim), a valid treasury token account; then the funds and the
/// claim counter.
pub open spec fn claim_result(program_id: Seq<u8>, a: Seq<AccountInput>, now: i64) -> Result<UserClaimedRecord, FaucetError> {
    if a.len() < 1 {
        Err(FaucetError::NotEnoughAccountKeys)
    } else if !a[0].is_signer {
        Err(FaucetError::MissingSignature)
    } else if a.len() < 7 {
        Err(FaucetError::NotEnoughAccountKeys)
    } else if !is_derived(config_seeds(), program_id, a[4].key@) {
        Err(FaucetError::InvalidDerivedAddress)
    } else if !config_well_formed(a[4].data@) {
        Err(FaucetError::MalformedInput)
    } else if !stored_config(a[4].data@).is_active {
        Err(FaucetError::FaucetInactive)
    } else if !is_derived(user_claim_seeds(a[0].key@), program_id, a[1].key@) {
        Err(FaucetError::InvalidDerivedAddress)
    } else if a[1].data@.len() != 0 && !record_well_formed(a[1].data@) {
        Err(FaucetError::MalformedInput)
    } else if cooldown_blocks(stored_config(a[4].data@), prior_record(a[1].data@), now) {
        Err(FaucetError::CooldownNotMet {
            remaining: (stored_config(a[4].data@).cooldown_seconds - elapsed(stored_record(a[1].data@), now)) as i128,
        })
    } else if !token_account_valid(a[3].data@) {
        Err(FaucetError::InvalidAccountData)
    } else {
        claim_outcome(stored_config(a[4].data@), a[0].key, prior_record(a[1].data@), now, token_amount(a[3].data@))
    }
}

/// A claim creates the user's record if it is empty, then transfers one
/// claim's worth of tokens from the treasury to the user's token account on
/// the configuration record's authority, then stores the updated record.
pub open spec fn claim_effects(program_id: Seq<u8>, a: Seq<AccountInput>, after: UserClaimedRecord, effects: Seq<Effect>) -> bool {
    let amount = stored_config(a[4].data@).tokens_per_claim;
    let authority_seeds = signer_seeds_of(config_seeds(), program_id);
    let first = if a[1].data@.len() == 0 { 1int } else { 0int };
    &&& effects.len() == first + 2
    &&& a[1].data@.len() == 0 ==> is_create(
        effects[0],
        0,
        1,
        6,
        RECORD_LEN as u64,
        signer_seeds_of(user_claim_seeds(a[0].key@), program_id),
    )
    &&& is_transfer(effects[first], 3, 2, 4, 5, amount, authority_seeds)
    &&& is_write(effects[first + 1], 1, record_bytes(after))
}

pub open spec fn claim_spec(program_id: Seq<u8>, a: Seq<AccountInput>, now: i64, r: Result<Vec<Effect>, FaucetError>) -> bool {
    match r {
        Ok(effects) => claim_result(program_id, a, now) matches Ok(after) && claim_effects(
            program_id,
            a,
            after,
            effects@,
        ),
        Err(e) => claim_result(program_id, a, now) == Err::<UserClaimedRecord, FaucetError>(e),
    }
}

/// The configuration as an admin operation finds it, checks in order: both
/// accounts present, the admin signing, the configuration record at its
/// derived address and well-formed, the signer being its admin.
pub open spec fn admin_config(program_id: Seq<u8>, a: Seq<AccountInput>) -> Result<FaucetConfig, FaucetError> {
    if a.len() < 2 {
        Err(FaucetError::NotEnoughAccountKeys)
    } else if !a[0].is_signer {
        Err(FaucetError::MissingSignature)
    } else if !is_derived(config_seeds(), program_id, a[1].key@) {
        Err(FaucetError::InvalidDerivedAddress)
    } else if !config_well_formed(a[1].data@) {
        Err(FaucetError::MalformedInput)
    } else if a[0].key@ != stored_config(a[1].data@).admin@ {
        Err(FaucetError::UnauthorizedAdmin)
    } else {
        Ok(stored_config(a[1].data@))
    }
}

/// An admin operation that yields the configuration `after` succeeds exactly
/// when the admin checks pass, and then only stores `after` in the
/// configuration record.
pub open spec fn admin_spec(program_id: Seq<u8>, a: Seq<AccountInput>, after: FaucetConfig, r: Result<Vec<Effect>, FaucetError>) -> bool {
    match r {
        Ok(effects) => admin_config(program_id, a) is Ok && effects@.len() == 1 && is_write(
            effects@[0],
            1,
            config_bytes(after),
        ),
        Err(e) => admin_config(program_id, a) == Err::<FaucetConfig, FaucetError>(e),
    }
}

pub open spec fn update_spec(program_id: Seq<u8>, a: Seq<AccountInput>, new_tokens_per_claim: Option<u64>, new_cooldown_seconds: Option<i64>, new_is_active: Option<bool>, r: Result<Vec<Effect>, FaucetError>) -> bool {
    admin_spec(
        program_id,
        a,
        updated_config(admin_config(program_id, a)->Ok_0, new_tokens_per_claim, new_cooldown_seconds, new_is_active),
        r,
    )
}

pub open spec fn pause_spec(program_id: Seq<u8>, a: Seq<AccountInput>, r: Result<Vec<Effect>, FaucetError>) -> bool {
    admin_spec(program_id, a, paused_config(admin_config(program_id, a)->Ok_0), r)
}

/// What an invocation with instruction bytes `data` does.
pub open spec fn instruction_spec(program_id: Seq<u8>, a: Seq<AccountInput>, data: Seq<u8>, now: i64, r: Result<Vec<Effect>, FaucetError>) -> bool {
    match parse_instruction(data) {
        None => r == Err::<Vec<Effect>, FaucetError>(FaucetError::MalformedInput),
        Some(FaucetInstruction::InitializeFaucet { tokens_per_claim, cooldown_seconds }) => initialize_spec(
            program_id,
            a,
            tokens_per_claim,
            cooldown_seconds,
            r,
        ),
        Some(FaucetInstruction::ClaimTokens) => claim_spec(program_id, a, now, r),
        Some(
            FaucetInstruction::UpdateFaucetConfig {
                new_tokens_per_claim,
                new_cooldown_seconds,
                new_is_active,
            },
        ) => update_spec(program_id, a, new_tokens_per_claim, new_cooldown_seconds, new_is_active, r),
        Some(FaucetInstruction::EmergencyPause) => pause_spec(program_id, a, r),
    }
}

/// Checks that `key` is the configuration record's derived address.
fn check_config_address(program_id: &Address, key: &Address) -> (r: Result<Derived, FaucetError>)
    ensures
        r is Ok <==> is_derived(config_seeds(), program_id@, key@),
        match r {
            Ok(d) => derived_from(d, config_seeds(), program_id@) && seeds_view(d.signer_seeds@)
                == signer_seeds_of(config_seeds(), program_id@),
            Err(e) => e == FaucetError::InvalidDerivedAddress,
        },
{
    match derive_config_address(program_id) {
        Some(d) => {
            if d.address.same(key) {
                Ok(d)
            } else {
                Err(FaucetError::InvalidDerivedAddress)
            }
        },
        None => Err(FaucetError::InvalidDerivedAddress),
    }
}

/// Checks that `key` is the derived address of `user`'s claim record.
fn check_user_claim_address(program_id: &Address, user: &Address, key: &Address) -> (r: Result<Derived, FaucetError>)
    ensures
        r is Ok <==> is_derived(user_claim_seeds(user@), program_id@, key@),
        match r {
            Ok(d) => derived_from(d, user_claim_seeds(user@), program_id@) && seeds_view(d.signer_seeds@)
                == signer_seeds_of(user_claim_seeds(user@), program_id@),
            Err(e) => e == FaucetError::InvalidDerivedAddress,
        },
{
    match derive_user_claim_address(program_id, user) {
        Some(d) => {
            if d.address.same(key) {
                Ok(d)
            } else {
                Err(FaucetError::InvalidDerivedAddress)
            }
        },
        None => Err(FaucetError::InvalidDerivedAddress),
    }
}

/// Creates the faucet's configuration, administered by the signing admin.
pub fn process_initialize(program_id: &Address, accounts: &[AccountInput], tokens_per_claim: u64, cooldown_seconds: i64) -> (r: Result<Vec<Effect>, FaucetError>)
    ensures
        initialize_spec(program_id@, accounts@, tokens_per_claim, cooldown_seconds, r),
{
    if accounts.len() < 1 {
        return Err(FaucetError::NotEnoughAccountKeys);
    }
    if !accounts[0].is_signer {
        return Err(FaucetError::MissingSignature);
    }
    if accounts.len() < 4 {
        return Err(FaucetError::NotEnoughAccountKeys);
    }
    if !is_token_mint(accounts[2].data.as_slice()) {
        return Err(FaucetError::InvalidAccountData);
    }
    let derived = check_config_address(program_id, &accounts[1].key)?;
    let config = new_config(accounts[0].key, accounts[2].key, tokens_per_claim, cooldown_seconds);
    let create = Effect::CreateAccount {
        payer: 0,
        account: 1,
        system_program: 3,
        space: CONFIG_LEN as u64,
        signer_seeds: derived.signer_seeds,
    };
    let write = Effect::WriteData { account: 1, data: config.to_bytes() };
    let effects: Vec<Effect> = vec![create, write];
    Ok(effects)
}

/// Pays out one claim to the signing user, subject to the faucet being active,
/// the user's cooldown and the treasury's balance, at time `now`.
pub fn process_claim(program_id: &Address, accounts: &[AccountInput], now: i64) -> (r: Result<Vec<Effect>, FaucetError>)
    ensures
        claim_spec(program_id@, accounts@, now, r),
{
    if accounts.len() < 1 {
        return Err(FaucetError::NotEnoughAccountKeys);
    }
    if !accounts[0].is_signer {
        return Err(FaucetError::MissingSignature);
    }
    if accounts.len() < 7 {
        return Err(FaucetError::NotEnoughAccountKeys);
    }
    let user = &accounts[0];
    let record_account = &accounts[1];
    let config_account = &accounts[4];
    let authority = check_config_address(program_id, &config_account.key)?;
    let config = FaucetConfig::from_bytes(config_account.data.as_slice())?;
    if !config.is_active {
        return Err(FaucetError::FaucetInactive);
    }
    let record_address = check_user_claim_address(program_id, &user.key, &record_account.key)?;
    let first_claim = record_account.data.len() == 0;
    let prior: Option<UserClaimedRecord> = if first_claim {
        None
    } else {
        Some(UserClaimedRecord::from_bytes(record_account.data.as_slice())?)
    };
    check_cooldown(&config, &prior, now)?;
    let pool_balance = match token_account_amount(accounts[3].data.as_slice()) {
        Some(amount) => amount,
        None => {
            return Err(FaucetError::InvalidAccountData);
        },
    };
    let after = claim(&config, user.key, &prior, now, pool_balance)?;
    let mut effects: Vec<Effect> = Vec::new();
    if first_claim {
        effects.push(
            Effect::CreateAccount {
                payer: 0,
                account: 1,
                system_program: 6,
                space: RECORD_LEN as u64,
                signer_seeds: record_address.signer_seeds,
            },
        );
    }
    effects.push(
        Effect::TransferTokens {
            source: 3,
            destination: 2,
            authority: 4,
            token_program: 5,
            amount: config.tokens_per_claim,
            signer_seeds: authority.signer_seeds,
        },
    );
    effects.push(Effect::WriteData { account: 1, data: after.to_bytes() });
    Ok(effects)
}

/// Loads the configuration for an admin operation and admits only its admin.
fn load_admin_config(program_id: &Address, accounts: &[AccountInput]) -> (r: Result<FaucetConfig, FaucetError>)
    ensures
        r == admin_config(program_id@, accounts@),
{
    if accounts.len() < 2 {
        return Err(FaucetError::NotEnoughAccountKeys);
    }
    if !accounts[0].is_signer {
        return Err(FaucetError::MissingSignature);
    }
    check_config_address(program_id, &accounts[1].key)?;
    let config = FaucetConfig::from_bytes(accounts[1].data.as_slice())?;
    authorize_admin(&config, &accounts[0].key)?;
    Ok(config)
}

/// Lets the admin change the claim amount, the cooldown and the active flag;
/// absent fields are kept.
pub fn process_update(program_id: &Address, accounts: &[AccountInput], new_tokens_per_claim: Option<u64>, new_cooldown_seconds: Option<i64>, new_is_active: Option<bool>) -> (r: Result<Vec<Effect>, FaucetError>)
    ensures
        update_spec(program_id@, accounts@, new_tokens_per_claim, new_cooldown_seconds, new_is_active, r),
{
    let config = load_admin_config(program_id, accounts)?;
    let updated = apply_update(&config, new_tokens_per_claim, new_cooldown_seconds, new_is_active);
    let effects: Vec<Effect> = vec![Effect::WriteData { account: 1, data: updated.to_bytes() }];
    Ok(effects)
}

/// Lets the admin switch claims off.
pub fn process_pause(program_id: &Address, accounts: &[AccountInput]) -> (r: Result<Vec<Effect>, FaucetError>)
    ensures
        pause_spec(program_id@, accounts@, r),
{
    let config = load_admin_config(program_id, accounts)?;
    let paused = pause(&config);
    let effects: Vec<Effect> = vec![Effect::WriteData { account: 1, data: paused.to_bytes() }];
    Ok(effects)
}

/// Decodes an instruction and decides it against the accounts at time `now`,
/// returning the effects for the host to carry out.
pub fn process_instruction(program_id: &Address, accounts: &[AccountInput], instruction_data: &[u8], now: i64) -> (r: Result<Vec<Effect>, FaucetError>)
    ensures
        instruction_spec(program_id@, accounts@, instruction_data@, now, r),
{
    let instruction = FaucetInstruction::try_from_slice(instruction_data)?;
    match instruction {
        FaucetInstruction::InitializeFaucet { tokens_per_claim, cooldown_seconds } => process_initialize(
            program_id,
            accounts,
            tokens_per_claim,
            cooldown_seconds,
        ),
        FaucetInstruction::ClaimTokens => process_claim(program_id, accounts, now),
        FaucetInstruction::UpdateFaucetConfig {
            new_tokens_per_claim,
            new_cooldown_seconds,
            new_is_active,
        } => process_update(program_id, accounts, new_tokens_per_claim, new_cooldown_seconds, new_is_active),
        FaucetInstruction::EmergencyPause => process_pause(program_id, accounts),
    }
}

/// A claim stores the user's record only after its token transfer: the
/// transfer is the effect just before the last, the last is the only write,
/// and nothing before the transfer writes any account. So when the transfer
/// is rejected the host stops before the write, and the user's claim count
/// and last claim time stay as they were.
pub proof fn lemma_claim_writes_after_transfer(program_id: Seq<u8>, a: Seq<AccountInput>, now: i64, effects: Seq<Effect>)
    requires
        claim_result(program_id, a, now) is Ok,
        claim_effects(program_id, a, claim_result(program_id, a, now)->Ok_0, effects),
    ensures
        effects.len() >= 2,
        effects[effects.len() - 2] is TransferTokens,
        forall|j: int| 0 <= j < effects.len() - 1 ==> !(#[trigger] effects[j] is WriteData),
        is_write(effects[effects.len() - 1], 1, record_bytes(claim_result(program_id, a, now)->Ok_0)),
{
}

/// An update or a pause signed by anyone but the configured admin of the
/// genuine configuration record is refused as unauthorized, whatever the
/// update asks for.
pub proof fn lemma_non_admin_refused(program_id: Seq<u8>, a: Seq<AccountInput>, now: i64, data: Seq<u8>, r: Result<Vec<Effect>, FaucetError>)
    requires
        a.len() >= 2,
        a[0].is_signer,
        is_derived(config_seeds(), program_id, a[1].key@),
        config_well_formed(a[1].data@),
        a[0].key@ != stored_config(a[1].data@).admin@,
        parse_instruction(data) matches Some(i) && (i is UpdateFaucetConfig || i is EmergencyPause),
        instruction_spec(program_id, a, data, now, r),
    ensures
        r == Err::<Vec<Effect>, FaucetError>(FaucetError::UnauthorizedAdmin),
{
}

/// The accounts of a claim are in order: the user signs, all seven are
/// present, the configuration and claim records sit at their derived
/// addresses, the configuration is well-formed and the treasury is a valid
/// token account.
pub open spec fn claim_accounts_valid(program_id: Seq<u8>, a: Seq<AccountInput>) -> bool {
    &&& a.len() >= 7
    &&& a[0].is_signer
    &&& is_derived(config_seeds(), program_id, a[4].key@)
    &&& config_well_formed(a[4].data@)
    &&& is_derived(user_claim_seeds(a[0].key@), program_id, a[1].key@)
    &&& token_account_valid(a[3].data@)
}

/// A user whose claim record is still empty is paid by an active, funded
/// faucet at any time, whatever the cooldown, and gets a record with one
/// claim made now.
pub proof fn lemma_first_claim_processed(program_id: Seq<u8>, a: Seq<AccountInput>, now: i64)
    requires
        claim_accounts_valid(program_id, a),
        a[1].data@.len() == 0,
        stored_config(a[4].data@).is_active,
        token_amount(a[3].data@) >= stored_config(a[4].data@).tokens_per_claim,
    ensures
        claim_result(program_id, a, now) == Ok::<UserClaimedRecord, FaucetError>(
            UserClaimedRecord { user: a[0].key, last_claim_time: now, total_claims: 1 },
        ),
{
}

/// A returning user of an active, funded faucet is refused with the remaining
/// wait exactly while less than the cooldown has passed since the stored last
/// claim; otherwise the claim is counted with the new time.
pub proof fn lemma_claim_cooldown_processed(program_id: Seq<u8>, a: Seq<AccountInput>, now: i64)
    requires
        claim_accounts_valid(program_id, a),
        record_well_formed(a[1].data@),
        stored_config(a[4].data@).is_active,
        token_amount(a[3].data@) >= stored_config(a[4].data@).tokens_per_claim,
        stored_record(a[1].data@).total_claims < u64::MAX,
    ensures
        ({
            let c = stored_config(a[4].data@);
            let r = stored_record(a[1].data@);
            &&& now - r.last_claim_time < c.cooldown_seconds ==> claim_result(program_id, a, now) == Err::<
                UserClaimedRecord,
                FaucetError,
            >(FaucetError::CooldownNotMet { remaining: (c.cooldown_seconds - (now - r.last_claim_time)) as i128 })
            &&& now - r.last_claim_time >= c.cooldown_seconds ==> claim_result(program_id, a, now) == Ok::<
                UserClaimedRecord,
                FaucetError,
            >(UserClaimedRecord { user: r.user, last_claim_time: now, total_claims: (r.total_claims + 1) as u64 })
        }),
{
}

/// Once the cooldown allows a claim from an active faucet, it is refused for
/// want of funds exactly when the treasury holds less than one claim's worth.
pub proof fn lemma_claim_funds_processed(program_id: Seq<u8>, a: Seq<AccountInput>, now: i64)
    requires
        claim_accounts_valid(program_id, a),
        a[1].data@.len() == 0 || record_well_formed(a[1].data@),
        stored_config(a[4].data@).is_active,
        !cooldown_blocks(stored_config(a[4].data@), prior_record(a[1].data@), now),
    ensures
        (claim_result(program_id, a, now) == Err::<UserClaimedRecord, FaucetError>(FaucetError::InsufficientFunds))
            <==> token_amount(a[3].data@) < stored_config(a[4].data@).tokens_per_claim,
{
}

/// A claim whose claim record is not at the user's derived address is refused
/// as such once the configuration checks pass.
pub proof fn lemma_record_address_checked(program_id: Seq<u8>, a: Seq<AccountInput>, now: i64)
    requires
        a.len() >= 7,
        a[0].is_signer,
        is_derived(config_seeds(), program_id, a[4].key@),
        config_well_formed(a[4].data@),
        stored_config(a[4].data@).is_active,
        !is_derived(user_claim_seeds(a[0].key@), program_id, a[1].key@),
    ensures
        claim_result(program_id, a, now) == Err::<UserClaimedRecord, FaucetError>(FaucetError::InvalidDerivedAddress),
{
}

proof fn lemma_stored_config_of_bytes(c: FaucetConfig)
    ensures
        config_well_formed(config_bytes(c)),
        stored_config(config_bytes(c)) == c,
{
    let s = config_bytes(c);
    assert(exists|d: FaucetConfig| config_bytes(d) == s);
    crate::codec::lemma_config_round_trip(c, stored_config(s));
}

/// After the admin pauses the faucet, a claim against the paused
/// configuration record is refused as inactive, by whichever user.
pub proof fn lemma_pause_blocks_claims(program_id: Seq<u8>, admin_accounts: Seq<AccountInput>, r: Result<Vec<Effect>, FaucetError>, claim_accounts: Seq<AccountInput>, now: i64)
    requires
        admin_config(program_id, admin_accounts) is Ok,
        pause_spec(program_id, admin_accounts, r),
        r matches Ok(effects) && effects@[0] matches Effect::WriteData { account, data } && claim_accounts.len() >= 7
            && claim_accounts[0].is_signer && claim_accounts[4].key == admin_accounts[1].key
            && claim_accounts[4].data@ == data@,
    ensures
        claim_result(program_id, claim_accounts, now) == Err::<UserClaimedRecord, FaucetError>(FaucetError::FaucetInactive),
{
    lemma_stored_config_of_bytes(paused_config(admin_config(program_id, admin_accounts)->Ok_0));
}

} // verus!
