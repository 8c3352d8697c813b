//! Error kinds reported by the lifecycle operations and by the eligibility tests of registration.

use vstd::prelude::*;

verus! {

/// Why a lifecycle operation was refused. A refused operation changes nothing.
#[derive(Clone, Copy, Debug, PartialEq, Eq, Structural)]
pub enum GorbageError {
    /// The caller does not hold the role the operation asks for.
    Unauthorized,
    /// The global configuration already exists.
    AlreadyInitialized,
    /// A season with this id already exists.
    DuplicateId,
    /// The wallet already has a registration in this season.
    DuplicateRegistration,
    /// A name, fee, window, duration or capacity is out of bounds.
    InvalidParameter,
    /// The season is not in a lifecycle state that allows the operation.
    StateConflict,
    /// The season already holds its maximum number of participants.
    CapacityExceeded,
    /// A balance, counter or timestamp would leave its integer range.
    ArithmeticOverflow,
    /// The amount asked for exceeds what is held.
    InsufficientFunds,
    /// The vault cannot cover an amount that the accounting says it owes.
    InsufficientVaultFunds,
    /// The wallet has no registration in this season.
    NotRegistered,
    /// The participant holds no winning rank.
    NotAWinner,
    /// The participant has already been paid or refunded.
    PrizeAlreadyClaimed,
    /// The platform fee has already been skimmed from this season.
    FeeAlreadyCollected,
    /// Winners have not been assigned yet.
    WinnersNotSet,
    /// Winners have already been assigned.
    WinnersAlreadySet,
    /// The list of winners is empty or longer than three.
    InvalidWinnerCount,
    /// The rank is outside the payout table, or it pays nothing.
    InvalidPlacement,
}

/// Why a candidate for registration is not eligible.
#[derive(Clone, Copy, Debug, PartialEq, Eq, Structural)]
pub enum PnlError {
    /// The token's metadata does not prove membership of the season's collection.
    InvalidNftOwnership,
    /// The metadata record cannot be decoded.
    MalformedMetadata,
    /// The approval record is malformed or was not signed by the season's oracle.
    InvalidSignature,
}

impl GorbageError {
    /// The message shown to a caller for this error.
    pub fn message(&self) -> (text: &'static str)
        ensures
            text@ == self.message_text(),
    {
        match self {
            GorbageError::Unauthorized => "Unauthorized: caller lacks the required role",
            GorbageError::AlreadyInitialized => "Program config is already initialized",
            GorbageError::DuplicateId => "Season id is already in use",
            GorbageError::DuplicateRegistration => "Participant already registered",
            GorbageError::InvalidParameter => "Invalid parameter",
            GorbageError::StateConflict => "Operation not allowed in the current season state",
            GorbageError::CapacityExceeded => "Maximum participants reached",
            GorbageError::ArithmeticOverflow => "Arithmetic overflow",
            GorbageError::InsufficientFunds => "Insufficient funds",
            GorbageError::InsufficientVaultFunds => "Insufficient funds in vault",
            GorbageError::NotRegistered => "Participant not registered",
            GorbageError::NotAWinner => "Not a winner",
            GorbageError::PrizeAlreadyClaimed => "Prize already claimed",
            GorbageError::FeeAlreadyCollected => "Platform fee has already been collected",
            GorbageError::WinnersNotSet => "Winners have not been set yet",
            GorbageError::WinnersAlreadySet => "Winners have already been set",
            GorbageError::InvalidWinnerCount => "Invalid number of winners",
            GorbageError::InvalidPlacement => "Invalid winner placement",
        }
    }

    /// The characters of [`GorbageError::message`].
    pub open spec fn message_text(&self) -> Seq<char> {
        match self {
            GorbageError::Unauthorized => "Unauthorized: caller lacks the required role"@,
            GorbageError::AlreadyInitialized => "Program config is already initialized"@,
            GorbageError::DuplicateId => "Season id is already in use"@,
            GorbageError::DuplicateRegistration => "Participant already registered"@,
            GorbageError::InvalidParameter => "Invalid parameter"@,
            GorbageError::StateConflict => "Operation not allowed in the current season state"@,
            GorbageError::CapacityExceeded => "Maximum participants reached"@,
            GorbageError::ArithmeticOverflow => "Arithmetic overflow"@,
            GorbageError::InsufficientFunds => "Insufficient funds"@,
            GorbageError::InsufficientVaultFunds => "Insufficient funds in vault"@,
            GorbageError::NotRegistered => "Participant not registered"@,
            GorbageError::NotAWinner => "Not a winner"@,
            GorbageError::PrizeAlreadyClaimed => "Prize already claimed"@,
            GorbageError::FeeAlreadyCollected => "Platform fee has already been collected"@,
            GorbageError::WinnersNotSet => "Winners have not been set yet"@,
            GorbageError::WinnersAlreadySet => "Winners have already been set"@,
            GorbageError::InvalidWinnerCount => "Invalid number of winners"@,
            GorbageError::InvalidPlacement => "Invalid winner placement"@,
        }
    }
}

impl PnlError {
    /// The message shown to a caller for this error.
    pub fn message(&self) -> (text: &'static str)
        ensures
            text@ == self.message_text(),
    {
        match self {
            PnlError::InvalidNftOwnership => "Invalid Gorbagio NFT ownership",
            PnlError::MalformedMetadata => "Token metadata cannot be decoded",
            PnlError::InvalidSignature => "Invalid backend signature",
        }
    }

    /// The characters of [`PnlError::message`].
    pub open spec fn message_text(&self) -> Seq<char> {
        match self {
            PnlError::InvalidNftOwnership => "Invalid Gorbagio NFT ownership"@,
            PnlError::MalformedMetadata => "Token metadata cannot be decoded"@,
            PnlError::InvalidSignature => "Invalid backend signature"@,
        }
    }
}

} // verus!
