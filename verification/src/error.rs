//! The error taxonomy shared by every operation of the library.

use vstd::prelude::*;

verus! {

/// Every way an ACL operation can fail, flat and closed.
///
/// `AccountBlocked` is a normal policy outcome (an explicit deny), not a
/// malfunction; the other variants report structural, identity or
/// data-integrity faults. Callers must inspect the exact variant to tell a
/// policy denial from a malformed input.
#[derive(Clone, Copy, Debug, PartialEq, Eq, Structural)]
pub enum ABLError {
    InvalidInstruction,
    InvalidAuthority,
    AccountBlocked,
    NotEnoughAccounts,
    InvalidAccountData,
    InvalidSystemProgram,
    InvalidGatingProgram,
    InvalidConfigAccount,
    AccountNotWritable,
    InvalidExtraMetasAccount,
    ImmutableOwnerExtensionMissing,
    InvalidData,
    InvalidTokenAclMintConfig,
    ListNotEmpty,
    InvalidRemainingAccounts,
    InvalidWalletEntry,
}

/// The terminal outcome of a whole invocation: either an ACL error or a
/// fatal arithmetic fault (overflow on the deposit return, underflow on the
/// membership counter).
#[derive(Clone, Copy, Debug, PartialEq, Eq, Structural)]
pub enum ProgramError {
    Acl(ABLError),
    ArithmeticOverflow,
}

impl ABLError {
    /// The stable numeric code of each variant, in declaration order, for
    /// hosts that carry errors as plain integers.
    pub open spec fn spec_code(self) -> u32 {
        match self {
            ABLError::InvalidInstruction => 0,
            ABLError::InvalidAuthority => 1,
            ABLError::AccountBlocked => 2,
            ABLError::NotEnoughAccounts => 3,
            ABLError::InvalidAccountData => 4,
            ABLError::InvalidSystemProgram => 5,
            ABLError::InvalidGatingProgram => 6,
            ABLError::InvalidConfigAccount => 7,
            ABLError::AccountNotWritable => 8,
            ABLError::InvalidExtraMetasAccount => 9,
            ABLError::ImmutableOwnerExtensionMissing => 10,
            ABLError::InvalidData => 11,
            ABLError::InvalidTokenAclMintConfig => 12,
            ABLError::ListNotEmpty => 13,
            ABLError::InvalidRemainingAccounts => 14,
            ABLError::InvalidWalletEntry => 15,
        }
    }

    /// Executable twin of [`Self::spec_code`].
    pub fn code(&self) -> (c: u32)
        ensures
            c == self.spec_code(),
    {
        match self {
            ABLError::InvalidInstruction => 0,
            ABLError::InvalidAuthority => 1,
            ABLError::AccountBlocked => 2,
            ABLError::NotEnoughAccounts => 3,
            ABLError::InvalidAccountData => 4,
            ABLError::InvalidSystemProgram => 5,
            ABLError::InvalidGatingProgram => 6,
            ABLError::InvalidConfigAccount => 7,
            ABLError::AccountNotWritable => 8,
            ABLError::InvalidExtraMetasAccount => 9,
            ABLError::ImmutableOwnerExtensionMissing => 10,
            ABLError::InvalidData => 11,
            ABLError::InvalidTokenAclMintConfig => 12,
            ABLError::ListNotEmpty => 13,
            ABLError::InvalidRemainingAccounts => 14,
            ABLError::InvalidWalletEntry => 15,
        }
    }
}

impl From<ABLError> for ProgramError {
    fn from(e: ABLError) -> (r: ProgramError) {
        ProgramError::Acl(e)
    }
}

impl vstd::std_specs::convert::FromSpecImpl<ABLError> for ProgramError {
    open spec fn obeys_from_spec() -> bool {
        true
    }

    open spec fn from_spec(e: ABLError) -> ProgramError {
        ProgramError::Acl(e)
    }
}

} // verus!
