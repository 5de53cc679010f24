//! The errors with which a transition is rejected.

use vstd::prelude::*;

verus! {

/// Why a transition was rejected. A rejected transition has changed nothing.
#[derive(Clone, Copy, Debug, PartialEq, Eq, Structural)]
pub enum SocraticError {
    InsufficientTokens,
    NotDocumentOwner,
    InsufficientStakeAmount,
    StakeCooldownActive,
    InvalidDocumentIndex,
    InvalidQueryIndex,
    NotStakeOwner,
    ArithmeticOverflow,
}

impl SocraticError {
    /// The text shown to a user for each error.
    pub open spec fn spec_message(self) -> &'static str {
        match self {
            SocraticError::InsufficientTokens => "Insufficient tokens to perform this action",
            SocraticError::NotDocumentOwner => "You are not the owner of this document",
            SocraticError::InsufficientStakeAmount => "Insufficient amount to stake",
            SocraticError::StakeCooldownActive => "Stake cooldown period is still active",
            SocraticError::InvalidDocumentIndex => "Invalid document index",
            SocraticError::InvalidQueryIndex => "Invalid query index",
            SocraticError::NotStakeOwner => "You are not the owner of this stake record",
            SocraticError::ArithmeticOverflow => "Arithmetic overflow occurred",
        }
    }

    /// The text shown to a user for this error.
    pub fn message(&self) -> (text: &'static str)
        ensures
            text@ == self.spec_message()@,
    {
        match self {
            SocraticError::InsufficientTokens => "Insufficient tokens to perform this action",
            SocraticError::NotDocumentOwner => "You are not the owner of this document",
            SocraticError::InsufficientStakeAmount => "Insufficient amount to stake",
            SocraticError::StakeCooldownActive => "Stake cooldown period is still active",
            SocraticError::InvalidDocumentIndex => "Invalid document index",
            SocraticError::InvalidQueryIndex => "Invalid query index",
            SocraticError::NotStakeOwner => "You are not the owner of this stake record",
            SocraticError::ArithmeticOverflow => "Arithmetic overflow occurred",
        }
    }
}

} // verus!
