//! Errors of the protocol's operations.
use vstd::prelude::*;

verus! {

/// Business-rule and record errors of the subscription protocol.
#[derive(Debug, Clone, Copy, PartialEq, Eq)]
pub enum SubscriptionError {
    /// A placeholder error that no operation returns.
    SampleError,
    /// A renewal was attempted before the subscription's next renewal time.
    EarlyRenew,
    /// The account named as the holder of the current credential does not hold it.
    InvalidReceiver,
    /// The vault cannot pay a renewal and the subscription is already inactive.
    AlreadyExpired,
    /// A token account is not held by the account that must hold it.
    InvalidVaultOwner,
    /// The vault holds less than the amount asked to be withdrawn.
    InsufficientWithdrawBalance,
    /// The account holding the credential is not held by the caller.
    InvalidMintOwner,
    /// The caller does not hold the subscription's current credential.
    InvalidSubscriptionOwner,
    /// The subscription account already holds a record.
    AlreadyInitialized,
    /// The subscription account holds no record.
    NotInitialized,
    /// A stored record does not parse in the current record format.
    CorruptRecord,
    /// The plan is already in the registry.
    DuplicateRegistration,
}

impl SubscriptionError {
    /// The error's numeric code, its position in the list of variants.
    pub fn code(&self) -> (r: u32)
        ensures
            r == error_code(*self),
    {
        match self {
            SubscriptionError::SampleError => 0,
            SubscriptionError::EarlyRenew => 1,
            SubscriptionError::InvalidReceiver => 2,
            SubscriptionError::AlreadyExpired => 3,
            SubscriptionError::InvalidVaultOwner => 4,
            SubscriptionError::InsufficientWithdrawBalance => 5,
            SubscriptionError::InvalidMintOwner => 6,
            SubscriptionError::InvalidSubscriptionOwner => 7,
            SubscriptionError::AlreadyInitialized => 8,
            SubscriptionError::NotInitialized => 9,
            SubscriptionError::CorruptRecord => 10,
            SubscriptionError::DuplicateRegistration => 11,
        }
    }
}

/// The numeric code of each subscription error.
pub open spec fn error_code(e: SubscriptionError) -> u32 {
    match e {
        SubscriptionError::SampleError => 0,
        SubscriptionError::EarlyRenew => 1,
        SubscriptionError::InvalidReceiver => 2,
        SubscriptionError::AlreadyExpired => 3,
        SubscriptionError::InvalidVaultOwner => 4,
        SubscriptionError::InsufficientWithdrawBalance => 5,
        SubscriptionError::InvalidMintOwner => 6,
        SubscriptionError::InvalidSubscriptionOwner => 7,
        SubscriptionError::AlreadyInitialized => 8,
        SubscriptionError::NotInitialized => 9,
        SubscriptionError::CorruptRecord => 10,
        SubscriptionError::DuplicateRegistration => 11,
    }
}

/// Errors of account validation.
#[derive(Debug, Clone, Copy, PartialEq, Eq)]
pub enum UtilsError {
    /// An account's address is not the one its derivation gives.
    InvalidProgramAddress,
}

/// Every way an operation can fail; the whole operation is then discarded.
#[derive(Debug, Clone, Copy, PartialEq, Eq)]
pub enum ProcessError {
    /// A business-rule or record error.
    Subscription(SubscriptionError),
    /// An address-derivation mismatch.
    Utils(UtilsError),
    /// A required signature is missing, or an account to be written is not writable.
    MissingRequiredSignature,
    /// A collaborator account is not the collaborator's well-known address.
    IncorrectProgramId,
    /// An account is not owned by the program that must own it.
    IllegalOwner,
    /// An account's data does not have the layout its kind requires.
    InvalidAccountData,
    /// The operation named fewer accounts than it needs.
    NotEnoughAccountKeys,
    /// The operation's data does not decode.
    InvalidInstructionData,
    /// An account to be created already holds data.
    AccountAlreadyInitialized,
    /// Seeds with their bump seed yield no derived address.
    InvalidSeeds,
    /// A derivation was given more than sixteen seeds or a seed longer than
    /// 32 bytes.
    MaxSeedLengthExceeded,
    /// A token account is held by another owner than expected.
    TokenOwnerMismatch,
    /// A token account holds another currency than expected.
    TokenMintMismatch,
    /// A counter or a timestamp would leave its range.
    ArithmeticOverflow,
}

} // verus!
