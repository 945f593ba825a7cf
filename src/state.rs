use vstd::prelude::*;
use crate::address::Address;

verus! {

/// The faucet's singleton configuration record.
#[derive(Clone, Copy, Debug)]
pub struct FaucetConfig {
    pub admin: Address,
    /// The mint of the token this faucet distributes.
    pub token_mint: Address,
    pub tokens_per_claim: u64,
    pub cooldown_seconds: i64,
    pub is_active: bool,
}

/// The claim bookkeeping of one user.
#[derive(Clone, Copy, Debug)]
pub struct UserClaimedRecord {
    pub user: Address,
    /// Time of the last successful claim; `0` before the first one.
    pub last_claim_time: i64,
    pub total_claims: u64,
}

/// The operations the program accepts.
#[derive(Clone, Copy, Debug, PartialEq, Eq, Structural)]
pub enum FaucetInstruction {
    /// Accounts: admin (signer), configuration record, token mint, system program.
    InitializeFaucet { tokens_per_claim: u64, cooldown_seconds: i64 },
    /// Accounts: user (signer), user's claim record, user's token account,
    /// treasury token account, configuration record, token program, system program.
    ClaimTokens,
    /// Accounts: admin (signer), configuration record. Absent fields are kept.
    UpdateFaucetConfig {
        new_tokens_per_claim: Option<u64>,
        new_cooldown_seconds: Option<i64>,
        new_is_active: Option<bool>,
    },
    /// Accounts: admin (signer), configuration record.
    EmergencyPause,
}

/// Why an invocation was rejected.
#[derive(Clone, Copy, Debug, PartialEq, Eq, Structural)]
pub enum FaucetError {
    /// The user claimed less than the cooldown ago; `remaining` seconds are left.
    CooldownNotMet { remaining: i128 },
    FaucetInactive,
    /// The treasury holds less than one claim's worth of tokens.
    InsufficientFunds,
    /// The signer is not the configured admin.
    UnauthorizedAdmin,
    /// Instruction bytes or a stored record do not decode.
    MalformedInput,
    MissingSignature,
    /// A supplied account is not the expected derived address.
    InvalidDerivedAddress,
    /// A token mint or token account does not hold valid token state.
    InvalidAccountData,
    NotEnoughAccountKeys,
    /// The user's claim counter cannot grow any further.
    ArithmeticOverflow,
}

impl FaucetError {
    /// The program's own error code, for the errors that have one; the others
    /// map onto the host's built-in errors.
    pub fn custom_code(&self) -> (r: Option<u32>)
        ensures
            r == match *self {
                FaucetError::CooldownNotMet { .. } => Some(1000u32),
                FaucetError::FaucetInactive => Some(1001u32),
                FaucetError::InsufficientFunds => Some(1002u32),
                FaucetError::UnauthorizedAdmin => Some(1003u32),
                _ => None,
            },
    {
        match self {
            FaucetError::CooldownNotMet { .. } => Some(1000),
            FaucetError::FaucetInactive => Some(1001),
            FaucetError::InsufficientFunds => Some(1002),
            FaucetError::UnauthorizedAdmin => Some(1003),
            _ => None,
        }
    }
}

} // verus!
