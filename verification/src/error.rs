//! Failures reported by the engine, by cause and by kind.

use vstd::prelude::*;

verus! {

/// The kind of a failure, by what went wrong rather than where.
#[derive(Clone, Copy, Debug, PartialEq, Eq, Structural)]
pub enum ErrorKind {
    /// A required signature is missing, or the caller is not entitled to act.
    Authorization,
    /// A supplied account is not the one the operation requires.
    AddressMismatch,
    /// The record is already in a state that excludes the operation.
    StateConflict,
    /// The operation comes too early or too late.
    TemporalViolation,
    /// The votes do not carry the decision.
    ThresholdNotMet,
    /// The proposal or action does not fit the squad's mode.
    TypeMismatch,
    /// A number, an index or an input's shape is outside what is accepted.
    ArgumentOutOfRange,
}

/// The cause of a failure. No operation changes any record when it fails.
#[derive(Clone, Copy, Debug, PartialEq, Eq, Structural)]
pub enum SquadError {
    /// The instruction bytes name no instruction or are too short for the one they name.
    InvalidInstruction,
    /// An account holds less than its rent-exempt minimum.
    NotRentExempt,
    /// The squad record is already initialized.
    SquadAlreadyExists,
    /// The acting account did not sign.
    MissingSignature,
    /// The acting account is not on the squad's roster.
    NotMember,
    /// The acting account is not the squad's admin.
    NotAdmin,
    /// A program account is not the program it must be.
    WrongProgram,
    /// A record is owned by another program.
    WrongOwner,
    /// An account's address is not the one derived or recorded for it.
    AddressMismatch,
    /// The record to create already exists.
    AlreadyInitialized,
    /// The voter already holds a receipt for this proposal.
    DuplicateVote,
    /// The proposal has reached its terminal state.
    AlreadyExecuted,
    /// The address to admit is a member already.
    AlreadyMember,
    /// The squad is still a draft.
    DraftSquad,
    /// The squad is no longer a draft.
    NotDraft,
    /// The voting window has closed.
    VotingClosed,
    /// The voting window has not opened.
    VotingNotStarted,
    /// Membership or equity changed after the proposal was created and before it was decided.
    Fenced,
    /// Quorum or support is not reached.
    ThresholdNotMet,
    /// The rejecting weight exceeds the approving weight.
    Rejected,
    /// The operation does not exist in the squad's allocation mode.
    WrongMode,
    /// The proposal's type has no effect to execute.
    NotExecutable,
    /// The type tag names no proposal type.
    UnknownProposalType,
    /// A percentage, a count or a vote index is out of bounds.
    OutOfRange,
    /// A bounded container is full, or a text is longer than its field.
    CapacityExceeded,
    /// A persisted record does not have the layout of its kind.
    MalformedRecord,
    /// The account list is shorter than the operation needs.
    MissingAccount,
    /// The address to act on is no member.
    UnknownMember,
    /// A tally or a counter would leave its integer range.
    Overflow,
}

impl SquadError {
    /// The kind of this failure.
    pub open spec fn kind_of(self) -> ErrorKind {
        match self {
            SquadError::MissingSignature | SquadError::NotMember | SquadError::NotAdmin =>
                ErrorKind::Authorization,
            SquadError::WrongProgram | SquadError::WrongOwner | SquadError::AddressMismatch =>
                ErrorKind::AddressMismatch,
            SquadError::SquadAlreadyExists | SquadError::AlreadyInitialized
            | SquadError::DuplicateVote | SquadError::AlreadyExecuted | SquadError::AlreadyMember
            | SquadError::DraftSquad | SquadError::NotDraft => ErrorKind::StateConflict,
            SquadError::VotingClosed | SquadError::VotingNotStarted | SquadError::Fenced =>
                ErrorKind::TemporalViolation,
            SquadError::ThresholdNotMet | SquadError::Rejected => ErrorKind::ThresholdNotMet,
            SquadError::WrongMode | SquadError::NotExecutable | SquadError::UnknownProposalType =>
                ErrorKind::TypeMismatch,
            SquadError::InvalidInstruction | SquadError::NotRentExempt | SquadError::OutOfRange
            | SquadError::CapacityExceeded | SquadError::MalformedRecord
            | SquadError::MissingAccount | SquadError::UnknownMember | SquadError::Overflow =>
                ErrorKind::ArgumentOutOfRange,
        }
    }

    /// The kind of this failure.
    pub fn kind(&self) -> (k: ErrorKind)
        ensures
            k == self.kind_of(),
    {
        match self {
            SquadError::MissingSignature | SquadError::NotMember | SquadError::NotAdmin =>
                ErrorKind::Authorization,
            SquadError::WrongProgram | SquadError::WrongOwner | SquadError::AddressMismatch =>
                ErrorKind::AddressMismatch,
            SquadError::SquadAlreadyExists | SquadError::AlreadyInitialized
            | SquadError::DuplicateVote | SquadError::AlreadyExecuted | SquadError::AlreadyMember
            | SquadError::DraftSquad | SquadError::NotDraft => ErrorKind::StateConflict,
            SquadError::VotingClosed | SquadError::VotingNotStarted | SquadError::Fenced =>
                ErrorKind::TemporalViolation,
            SquadError::ThresholdNotMet | SquadError::Rejected => ErrorKind::ThresholdNotMet,
            SquadError::WrongMode | SquadError::NotExecutable | SquadError::UnknownProposalType =>
                ErrorKind::TypeMismatch,
            SquadError::InvalidInstruction | SquadError::NotRentExempt | SquadError::OutOfRange
            | SquadError::CapacityExceeded | SquadError::MalformedRecord
            | SquadError::MissingAccount | SquadError::UnknownMember | SquadError::Overflow =>
                ErrorKind::ArgumentOutOfRange,
        }
    }
}

} // verus!
