//! Why an operation on the escrow was refused.

use vstd::prelude::*;

verus! {

/// The three classes of refusal.
#[derive(Clone, Copy, Debug, PartialEq, Eq, Structural)]
pub enum ErrorKind {
    /// The arguments of the call cannot describe an escrow.
    InvalidInput,
    /// There is no record, or the party is not one of its participants.
    NotFound,
    /// The record is not in a state that permits the operation.
    InvalidState,
}

/// The reason an operation was refused. A refused operation changes nothing.
#[derive(Clone, Copy, Debug, PartialEq, Eq, Structural)]
pub enum EscrowError {
    /// The list of participants is empty.
    NoParticipants,
    /// There are not as many shares as participants.
    LengthMismatch,
    /// The deadline is not later than the ledger's current time.
    DeadlineNotInFuture,
    /// Adding up the shares in order leaves the range of an `i128`.
    RentOutOfRange,
    /// The shares add up to zero or less.
    NonPositiveTotal,
    /// No escrow record exists.
    EscrowNotFound,
    /// The party is not a participant of the escrow.
    ParticipantNotFound,
    /// The escrow is no longer collecting deposits.
    NotActive,
    /// The ledger's current time is past the deadline.
    DeadlinePassed,
    /// The participant has already deposited.
    AlreadyDeposited,
    /// Adding the share to the deposited amount leaves the range of an `i128`.
    DepositOutOfRange,
    /// Not every share has been deposited.
    NotFullyFunded,
}

impl EscrowError {
    /// The class of each reason.
    pub open spec fn spec_kind(self) -> ErrorKind {
        match self {
            EscrowError::NoParticipants
            | EscrowError::LengthMismatch
            | EscrowError::DeadlineNotInFuture
            | EscrowError::RentOutOfRange
            | EscrowError::NonPositiveTotal => ErrorKind::InvalidInput,
            EscrowError::EscrowNotFound | EscrowError::ParticipantNotFound => ErrorKind::NotFound,
            EscrowError::NotActive
            | EscrowError::DeadlinePassed
            | EscrowError::AlreadyDeposited
            | EscrowError::DepositOutOfRange
            | EscrowError::NotFullyFunded => ErrorKind::InvalidState,
        }
    }

    /// The text that describes each reason.
    pub open spec fn spec_message(self) -> Seq<char> {
        match self {
            EscrowError::NoParticipants => "Must have at least one participant"@,
            EscrowError::LengthMismatch => "Participants and shares length mismatch"@,
            EscrowError::DeadlineNotInFuture => "Deadline must be in the future"@,
            EscrowError::RentOutOfRange => "Total rent out of range"@,
            EscrowError::NonPositiveTotal => "Total rent must be greater than 0"@,
            EscrowError::EscrowNotFound => "Escrow not found"@,
            EscrowError::ParticipantNotFound => "Participant not found in escrow"@,
            EscrowError::NotActive => "Escrow is not active"@,
            EscrowError::DeadlinePassed => "Escrow deadline passed"@,
            EscrowError::AlreadyDeposited => "Participant already deposited"@,
            EscrowError::DepositOutOfRange => "Deposited amount out of range"@,
            EscrowError::NotFullyFunded => "Escrow not fully funded"@,
        }
    }

    /// The class this reason belongs to.
    #[verifier::when_used_as_spec(spec_kind)]
    pub fn kind(self) -> (kind: ErrorKind)
        ensures
            kind == self.spec_kind(),
    {
        match self {
            EscrowError::NoParticipants
            | EscrowError::LengthMismatch
            | EscrowError::DeadlineNotInFuture
            | EscrowError::RentOutOfRange
            | EscrowError::NonPositiveTotal => ErrorKind::InvalidInput,
            EscrowError::EscrowNotFound | EscrowError::ParticipantNotFound => ErrorKind::NotFound,
            EscrowError::NotActive
            | EscrowError::DeadlinePassed
            | EscrowError::AlreadyDeposited
            | EscrowError::DepositOutOfRange
            | EscrowError::NotFullyFunded => ErrorKind::InvalidState,
        }
    }

    /// A short description of this reason, for a caller to show.
    pub fn message(self) -> (text: &'static str)
        ensures
            text@ == self.spec_message(),
    {
        match self {
            EscrowError::NoParticipants => "Must have at least one participant",
            EscrowError::LengthMismatch => "Participants and shares length mismatch",
            EscrowError::DeadlineNotInFuture => "Deadline must be in the future",
            EscrowError::RentOutOfRange => "Total rent out of range",
            EscrowError::NonPositiveTotal => "Total rent must be greater than 0",
            EscrowError::EscrowNotFound => "Escrow not found",
            EscrowError::ParticipantNotFound => "Participant not found in escrow",
            EscrowError::NotActive => "Escrow is not active",
            EscrowError::DeadlinePassed => "Escrow deadline passed",
            EscrowError::AlreadyDeposited => "Participant already deposited",
            EscrowError::DepositOutOfRange => "Deposited amount out of range",
            EscrowError::NotFullyFunded => "Escrow not fully funded",
        }
    }
}

} // verus!
