//! Status codes reported by the emission engine.

use vstd::prelude::*;

verus! {

/// Outcome of an operation: success, or the reason it was refused.
#[derive(Clone, Copy, Debug, PartialEq, Eq, Structural)]
pub enum StatusInfo {
    /// The operation succeeded.
    Success,
    /// A parameter was malformed.
    InvalidParamError,
    /// Less than one block period has elapsed since the checkpoint.
    InsufficientIntervalError,
    /// The issued supply has reached the cap.
    TotalSupplyLimit,
    /// The configuration account is not the expected one.
    InvalidConfigAccount,
    /// The configuration account does not carry the schema tag.
    InvalidMagic,
    /// The configuration account has an unexpected owner.
    InvalidConfigOwner,
    /// A supplied recipient differs from the one recorded at initialization.
    InvalidReceiverTokenAccount,
    /// A recipient account has not been provisioned on the ledger.
    NotInitializedAssociatedTokenAccount,
    /// The supplied minting authority differs from the recorded one.
    InvalidTokenAuthority,
    /// The supplied mint differs from the recorded one.
    InvalidTokenMint,
    /// The supplied token program is not the ledger's.
    InvalidTokenProgram,
    /// The clock has not advanced past the checkpoint.
    InvalidTimestamp,
    /// A checked arithmetic step left the range of its integer type.
    ArithmeticOverflow,
}

impl StatusInfo {
    /// Numeric code of the status, in declaration order starting at zero.
    pub open spec fn spec_status_code(self) -> u64 {
        match self {
            StatusInfo::Success => 0,
            StatusInfo::InvalidParamError => 1,
            StatusInfo::InsufficientIntervalError => 2,
            StatusInfo::TotalSupplyLimit => 3,
            StatusInfo::InvalidConfigAccount => 4,
            StatusInfo::InvalidMagic => 5,
            StatusInfo::InvalidConfigOwner => 6,
            StatusInfo::InvalidReceiverTokenAccount => 7,
            StatusInfo::NotInitializedAssociatedTokenAccount => 8,
            StatusInfo::InvalidTokenAuthority => 9,
            StatusInfo::InvalidTokenMint => 10,
            StatusInfo::InvalidTokenProgram => 11,
            StatusInfo::InvalidTimestamp => 12,
            StatusInfo::ArithmeticOverflow => 13,
        }
    }

    /// Human-readable description of the status.
    pub open spec fn spec_message(self) -> Seq<char> {
        match self {
            StatusInfo::Success => "Ok"@,
            StatusInfo::InvalidParamError => "Invalid params."@,
            StatusInfo::InsufficientIntervalError => "Insufficient interval to generate a block."@,
            StatusInfo::TotalSupplyLimit => "Max token supply exceeded."@,
            StatusInfo::InvalidConfigAccount => "Invalid config account."@,
            StatusInfo::InvalidMagic => "Invalid magic number."@,
            StatusInfo::InvalidConfigOwner => "Invalid config owner."@,
            StatusInfo::InvalidReceiverTokenAccount => "Invalid token receiver account."@,
            StatusInfo::NotInitializedAssociatedTokenAccount => "Not initialized token associated account."@,
            StatusInfo::InvalidTokenAuthority => "Invalid token authority."@,
            StatusInfo::InvalidTokenMint => "Invalid token mint."@,
            StatusInfo::InvalidTokenProgram => "Invalid token program."@,
            StatusInfo::InvalidTimestamp => "Invalid timestamp."@,
            StatusInfo::ArithmeticOverflow => "Arithmetic overflow."@,
        }
    }

    /// Whether the status reports that a supplied identity (mint, authority
    /// or recipient) differs from the one recorded in the checkpoint.
    pub open spec fn is_configuration_mismatch(self) -> bool {
        self == StatusInfo::InvalidTokenMint || self == StatusInfo::InvalidTokenAuthority || self
            == StatusInfo::InvalidReceiverTokenAccount
    }

    pub fn status_code(&self) -> (code: u64)
        ensures
            code == self.spec_status_code(),
    {
        match self {
            StatusInfo::Success => 0,
            StatusInfo::InvalidParamError => 1,
            StatusInfo::InsufficientIntervalError => 2,
            StatusInfo::TotalSupplyLimit => 3,
            StatusInfo::InvalidConfigAccount => 4,
            StatusInfo::InvalidMagic => 5,
            StatusInfo::InvalidConfigOwner => 6,
            StatusInfo::InvalidReceiverTokenAccount => 7,
            StatusInfo::NotInitializedAssociatedTokenAccount => 8,
            StatusInfo::InvalidTokenAuthority => 9,
            StatusInfo::InvalidTokenMint => 10,
            StatusInfo::InvalidTokenProgram => 11,
            StatusInfo::InvalidTimestamp => 12,
            StatusInfo::ArithmeticOverflow => 13,
        }
    }

    pub fn message(&self) -> (text: &'static str)
        ensures
            text@ == self.spec_message(),
    {
        match self {
            StatusInfo::Success => "Ok",
            StatusInfo::InvalidParamError => "Invalid params.",
            StatusInfo::InsufficientIntervalError => "Insufficient interval to generate a block.",
            StatusInfo::TotalSupplyLimit => "Max token supply exceeded.",
            StatusInfo::InvalidConfigAccount => "Invalid config account.",
            StatusInfo::InvalidMagic => "Invalid magic number.",
            StatusInfo::InvalidConfigOwner => "Invalid config owner.",
            StatusInfo::InvalidReceiverTokenAccount => "Invalid token receiver account.",
            StatusInfo::NotInitializedAssociatedTokenAccount => "Not initialized token associated account.",
            StatusInfo::InvalidTokenAuthority => "Invalid token authority.",
            StatusInfo::InvalidTokenMint => "Invalid token mint.",
            StatusInfo::InvalidTokenProgram => "Invalid token program.",
            StatusInfo::InvalidTimestamp => "Invalid timestamp.",
            StatusInfo::ArithmeticOverflow => "Arithmetic overflow.",
        }
    }
}

} // verus!
