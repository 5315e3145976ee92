//! The reasons for which an operation is rejected.

use vstd::prelude::*;

verus! {

/// Why an operation was rejected. A rejected operation changes nothing.
#[derive(Clone, Copy, PartialEq, Eq, Structural, Debug)]
pub enum ErrorCode {
    /// The universe, a planet name or a star id that was to be created exists already.
    DuplicateRegistration,
    /// The source and the destination of a hop carry the same name.
    SameEndpoint,
    /// Two of the star ids given to one split coincide.
    NonUniqueSplitTargets,
    /// The source account does not hold enough for the move that was asked for.
    InsufficientFunds,
    /// The planet to delete holds more than the ledger's minimum for an account to exist.
    NonEmptyOnDeletion,
    /// The shares of a split do not add up to the stated deposit.
    SplitConservationMismatch,
    /// The caller, or an address fixed by the protocol, is not the one required.
    AuthorizationFailure,
    /// An account that has to hold a live record holds none.
    AccountNotFound,
    /// A balance or a visit counter would leave the range of 64 bits.
    ArithmeticOverflow,
    /// No program address exists for the seeds.
    AddressDerivation,
}

impl ErrorCode {
    /// The message shown to the caller.
    pub fn message(&self) -> (text: &'static str)
        ensures
            text@ == self.message_text(),
    {
        match self {
            ErrorCode::DuplicateRegistration => "Already registered",
            ErrorCode::SameEndpoint => "To and from cannot be the same",
            ErrorCode::NonUniqueSplitTargets => "Stars IDs must be unique",
            ErrorCode::InsufficientFunds => "Planet does not have enough lamports to cover transaction!",
            ErrorCode::NonEmptyOnDeletion => "Planet cannot be deleted. Has funds",
            ErrorCode::SplitConservationMismatch => "Star split calculations do not add up!",
            ErrorCode::AuthorizationFailure => "Not authorized",
            ErrorCode::AccountNotFound => "Account holds no live record",
            ErrorCode::ArithmeticOverflow => "Arithmetic overflow",
            ErrorCode::AddressDerivation => "No program address for these seeds",
        }
    }

    /// The characters of [`ErrorCode::message`].
    pub open spec fn message_text(&self) -> Seq<char> {
        match self {
            ErrorCode::DuplicateRegistration => "Already registered"@,
            ErrorCode::SameEndpoint => "To and from cannot be the same"@,
            ErrorCode::NonUniqueSplitTargets => "Stars IDs must be unique"@,
            ErrorCode::InsufficientFunds => "Planet does not have enough lamports to cover transaction!"@,
            ErrorCode::NonEmptyOnDeletion => "Planet cannot be deleted. Has funds"@,
            ErrorCode::SplitConservationMismatch => "Star split calculations do not add up!"@,
            ErrorCode::AuthorizationFailure => "Not authorized"@,
            ErrorCode::AccountNotFound => "Account holds no live record"@,
            ErrorCode::ArithmeticOverflow => "Arithmetic overflow"@,
            ErrorCode::AddressDerivation => "No program address for these seeds"@,
        }
    }
}

/// Whether an operation that returned `result` and left the accounts as `post` did what
/// `outcome` says: it succeeded with the accounts that `outcome` gives, or was rejected
/// for the reason that `outcome` gives.
pub open spec fn applied<V>(outcome: Result<V, ErrorCode>, result: Result<(), ErrorCode>, post: V) -> bool {
    match result {
        Ok(()) => outcome == Ok::<V, ErrorCode>(post),
        Err(reason) => outcome == Err::<V, ErrorCode>(reason),
    }
}

} // verus!
