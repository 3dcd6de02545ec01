//! The failures a transition can report.

use vstd::prelude::*;

verus! {

/// Why a transition was refused. The kind is all a caller learns.
#[derive(Clone, Copy, Debug, PartialEq, Eq, Structural)]
pub enum EscrowError {
    /// Parameter bytes of the wrong length, a zero amount, or a record slot
    /// whose identity does not follow from the parameters.
    InvalidInstructionData,
    /// The account list does not have the length the transition needs.
    NotEnoughAccountKeys,
    /// An account is not owned by the service it must belong to.
    InvalidAccountOwner,
    /// An account has the wrong size, or names another asset or authority.
    InvalidAccountData,
    /// A required signature is missing.
    Unauthorized,
}

} // verus!
