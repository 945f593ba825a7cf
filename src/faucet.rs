use vstd::prelude::*;
use crate::address::Address;
use crate::state::{FaucetConfig, UserClaimedRecord, FaucetError};

verus! {

/// A fresh configuration: active, administered by `admin`.
pub open spec fn initial_config(admin: Address, token_mint: Address, tokens_per_claim: u64, cooldown_seconds: i64) -> FaucetConfig {
    FaucetConfig { admin, token_mint, tokens_per_claim, cooldown_seconds, is_active: true }
}

/// The record of a user who has never claimed.
pub open spec fn fresh_record(user: Address) -> UserClaimedRecord {
    UserClaimedRecord { user, last_claim_time: 0, total_claims: 0 }
}

/// Seconds since the last claim of `record` at time `now`.
pub open spec fn elapsed(record: UserClaimedRecord, now: i64) -> int {
    now - record.last_claim_time
}

/// The user's record going into a claim: the stored one, or a fresh one when
/// the user has never claimed.
pub open spec fn record_or_fresh(user: Address, prior: Option<UserClaimedRecord>) -> UserClaimedRecord {
    match prior {
        Some(r) => r,
        None => fresh_record(user),
    }
}

/// The cooldown has not yet passed since the user's stored last claim. A user
/// without a stored record is never held back: the first claim bypasses the
/// cooldown, whatever its length, as the `0` sentinel of a fresh record is
/// meant to let it.
pub open spec fn cooldown_blocks(config: FaucetConfig, prior: Option<UserClaimedRecord>, now: i64) -> bool {
    prior matches Some(r) && elapsed(r, now) < config.cooldown_seconds
}

/// The outcome of a claim by `user`, whose stored record is `prior` (`None`
/// before the first claim), at time `now` against a treasury holding
/// `pool_balance`: the first failing check in order (active, cooldown, funds,
/// counter), or the record after the claim.
pub open spec fn claim_outcome(config: FaucetConfig, user: Address, prior: Option<UserClaimedRecord>, now: i64, pool_balance: u64) -> Result<UserClaimedRecord, FaucetError> {
    let record = record_or_fresh(user, prior);
    if !config.is_active {
        Err(FaucetError::FaucetInactive)
    } else if cooldown_blocks(config, prior, now) {
        Err(FaucetError::CooldownNotMet { remaining: (config.cooldown_seconds - elapsed(record, now)) as i128 })
    } else if pool_balance < config.tokens_per_claim {
        Err(FaucetError::InsufficientFunds)
    } else if record.total_claims == u64::MAX {
        Err(FaucetError::ArithmeticOverflow)
    } else {
        Ok(UserClaimedRecord {
            user: record.user,
            last_claim_time: now,
            total_claims: (record.total_claims + 1) as u64,
        })
    }
}

/// The configuration after an update: each present field replaces the old value.
pub open spec fn updated_config(config: FaucetConfig, new_tokens_per_claim: Option<u64>, new_cooldown_seconds: Option<i64>, new_is_active: Option<bool>) -> FaucetConfig {
    FaucetConfig {
        admin: config.admin,
        token_mint: config.token_mint,
        tokens_per_claim: match new_tokens_per_claim {
            Some(t) => t,
            None => config.tokens_per_claim,
        },
        cooldown_seconds: match new_cooldown_seconds {
            Some(c) => c,
            None => config.cooldown_seconds,
        },
        is_active: match new_is_active {
            Some(a) => a,
            None => config.is_active,
        },
    }
}

/// The configuration with claims switched off.
pub open spec fn paused_config(config: FaucetConfig) -> FaucetConfig {
    FaucetConfig {
        admin: config.admin,
        token_mint: config.token_mint,
        tokens_per_claim: config.tokens_per_claim,
        cooldown_seconds: config.cooldown_seconds,
        is_active: false,
    }
}

pub fn new_config(admin: Address, token_mint: Address, tokens_per_claim: u64, cooldown_seconds: i64) -> (r: FaucetConfig)
    ensures
        r == initial_config(admin, token_mint, tokens_per_claim, cooldown_seconds),
{
    FaucetConfig { admin, token_mint, tokens_per_claim, cooldown_seconds, is_active: true }
}

pub fn new_record(user: Address) -> (r: UserClaimedRecord)
    ensures
        r == fresh_record(user),
{
    UserClaimedRecord { user, last_claim_time: 0, total_claims: 0 }
}

/// Checks the cooldown against the user's stored record; a user without one
/// (a first claim) always passes.
pub fn check_cooldown(config: &FaucetConfig, prior: &Option<UserClaimedRecord>, now: i64) -> (r: Result<(), FaucetError>)
    ensures
        r is Ok <==> !cooldown_blocks(*config, *prior, now),
        r matches Err(e) ==> e == (FaucetError::CooldownNotMet {
            remaining: (config.cooldown_seconds - elapsed(prior->Some_0, now)) as i128,
        }),
{
    match prior {
        None => Ok(()),
        Some(record) => {
            let since: i128 = now as i128 - record.last_claim_time as i128;
            if since < config.cooldown_seconds as i128 {
                Err(FaucetError::CooldownNotMet { remaining: config.cooldown_seconds as i128 - since })
            } else {
                Ok(())
            }
        },
    }
}

/// Decides a claim by `user`, whose stored record is `prior` (`None` before
/// the first claim), at time `now` against a treasury holding `pool_balance`,
/// and returns the user's record after it. A first claim skips the cooldown:
/// from an active faucet whose treasury holds a claim's worth it always
/// succeeds, for every `now` and every cooldown length.
pub fn claim(config: &FaucetConfig, user: Address, prior: &Option<UserClaimedRecord>, now: i64, pool_balance: u64) -> (r: Result<UserClaimedRecord, FaucetError>)
    ensures
        r == claim_outcome(*config, user, *prior, now, pool_balance),
        prior is None && config.is_active && pool_balance >= config.tokens_per_claim ==> r == Ok::<
            UserClaimedRecord,
            FaucetError,
        >(UserClaimedRecord { user, last_claim_time: now, total_claims: 1 }),
{
    if !config.is_active {
        return Err(FaucetError::FaucetInactive);
    }
    check_cooldown(config, prior, now)?;
    if pool_balance < config.tokens_per_claim {
        return Err(FaucetError::InsufficientFunds);
    }
    let record = match prior {
        Some(r) => *r,
        None => new_record(user),
    };
    if record.total_claims == u64::MAX {
        return Err(FaucetError::ArithmeticOverflow);
    }
    Ok(UserClaimedRecord {
        user: record.user,
        last_claim_time: now,
        total_claims: record.total_claims + 1,
    })
}

/// Merges an update into the configuration field by field.
pub fn apply_update(config: &FaucetConfig, new_tokens_per_claim: Option<u64>, new_cooldown_seconds: Option<i64>, new_is_active: Option<bool>) -> (r: FaucetConfig)
    ensures
        r == updated_config(*config, new_tokens_per_claim, new_cooldown_seconds, new_is_active),
{
    let mut c = *config;
    if let Some(t) = new_tokens_per_claim {
        c.tokens_per_claim = t;
    }
    if let Some(s) = new_cooldown_seconds {
        c.cooldown_seconds = s;
    }
    if let Some(a) = new_is_active {
        c.is_active = a;
    }
    c
}

/// Switches claims off, whatever the current state.
pub fn pause(config: &FaucetConfig) -> (r: FaucetConfig)
    ensures
        r == paused_config(*config),
{
    let mut c = *config;
    c.is_active = false;
    c
}

/// Admits only the configured admin.
pub fn authorize_admin(config: &FaucetConfig, signer: &Address) -> (r: Result<(), FaucetError>)
    ensures
        r is Ok <==> signer@ == config.admin@,
        r matches Err(e) ==> e == FaucetError::UnauthorizedAdmin,
{
    if signer.same(&config.admin) {
        Ok(())
    } else {
        Err(FaucetError::UnauthorizedAdmin)
    }
}

/// After a successful claim at `t1`, a claim at a later `t2` is refused with
/// the remaining wait while less than the cooldown has passed, and succeeds
/// once the cooldown has passed, provided the treasury can pay and the claim
/// counter can still grow.
pub proof fn lemma_cooldown_monotonic(config: FaucetConfig, user: Address, prior: Option<UserClaimedRecord>, t1: i64, b1: u64, t2: i64, b2: u64)
    requires
        claim_outcome(config, user, prior, t1, b1) is Ok,
        t1 < t2,
    ensures
        ({
            let after = claim_outcome(config, user, prior, t1, b1)->Ok_0;
            &&& t2 - t1 < config.cooldown_seconds ==> claim_outcome(config, user, Some(after), t2, b2)
                == Err::<UserClaimedRecord, FaucetError>(
                FaucetError::CooldownNotMet { remaining: (config.cooldown_seconds - (t2 - t1)) as i128 },
            )
            &&& t2 - t1 >= config.cooldown_seconds && b2 >= config.tokens_per_claim && after.total_claims < u64::MAX
                ==> claim_outcome(config, user, Some(after), t2, b2) == Ok::<UserClaimedRecord, FaucetError>(
                UserClaimedRecord {
                    user: after.user,
                    last_claim_time: t2,
                    total_claims: (after.total_claims + 1) as u64,
                },
            )
        }),
{
}

/// A user without a record claims successfully from an active, funded faucet
/// at any time and whatever the cooldown: the first claim bypasses it.
pub proof fn lemma_first_claim(config: FaucetConfig, user: Address, now: i64, pool_balance: u64)
    requires
        config.is_active,
        pool_balance >= config.tokens_per_claim,
    ensures
        claim_outcome(config, user, None, now, pool_balance) == Ok::<UserClaimedRecord, FaucetError>(
            UserClaimedRecord { user, last_claim_time: now, total_claims: 1 },
        ),
{
}

} // verus!
