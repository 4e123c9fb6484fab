use vstd::prelude::*;

verus! {

/// The failures that the note rules themselves raise.
#[derive(Clone, Copy, Debug, PartialEq, Eq, Structural)]
pub enum ErrorCode {
    ContentEmpty,
    ContentTooLong,
    AuthorMismatch,
    CannotUpvoteOwnNote,
    CannotTipOwnNote,
    InvalidTipAmount,
    MathOverflow,
}

/// First number given to the program's own failures.
pub const ERROR_CODE_OFFSET: u32 = 6000;

impl ErrorCode {
    /// Position of the variant in the declaration, from zero.
    pub open spec fn index(self) -> nat {
        match self {
            ErrorCode::ContentEmpty => 0,
            ErrorCode::ContentTooLong => 1,
            ErrorCode::AuthorMismatch => 2,
            ErrorCode::CannotUpvoteOwnNote => 3,
            ErrorCode::CannotTipOwnNote => 4,
            ErrorCode::InvalidTipAmount => 5,
            ErrorCode::MathOverflow => 6,
        }
    }

    /// The number under which the failure is reported: the offset plus the
    /// variant's position.
    pub fn code(&self) -> (code: u32)
        ensures
            code == ERROR_CODE_OFFSET + self.index(),
    {
        match self {
            ErrorCode::ContentEmpty => 6000,
            ErrorCode::ContentTooLong => 6001,
            ErrorCode::AuthorMismatch => 6002,
            ErrorCode::CannotUpvoteOwnNote => 6003,
            ErrorCode::CannotTipOwnNote => 6004,
            ErrorCode::InvalidTipAmount => 6005,
            ErrorCode::MathOverflow => 6006,
        }
    }

    /// The text shown for each failure.
    pub open spec fn message_spec(self) -> Seq<char> {
        match self {
            ErrorCode::ContentEmpty => "Content must not be empty"@,
            ErrorCode::ContentTooLong => "Content exceeds maximum length"@,
            ErrorCode::AuthorMismatch => "Note authority does not match the PDA seeds"@,
            ErrorCode::CannotUpvoteOwnNote => "Authors cannot upvote their own note"@,
            ErrorCode::CannotTipOwnNote => "Authors cannot tip their own note"@,
            ErrorCode::InvalidTipAmount => "Tip amount must be greater than zero"@,
            ErrorCode::MathOverflow => "Mathematical operation overflowed"@,
        }
    }

    pub fn message(&self) -> (text: String)
        ensures
            text@ == self.message_spec(),
    {
        match self {
            ErrorCode::ContentEmpty => "Content must not be empty".to_owned(),
            ErrorCode::ContentTooLong => "Content exceeds maximum length".to_owned(),
            ErrorCode::AuthorMismatch => "Note authority does not match the PDA seeds".to_owned(),
            ErrorCode::CannotUpvoteOwnNote => "Authors cannot upvote their own note".to_owned(),
            ErrorCode::CannotTipOwnNote => "Authors cannot tip their own note".to_owned(),
            ErrorCode::InvalidTipAmount => "Tip amount must be greater than zero".to_owned(),
            ErrorCode::MathOverflow => "Mathematical operation overflowed".to_owned(),
        }
    }
}

/// Why an instruction was refused: one of the program's own failures, or a
/// failure of the checks made on the accounts before the rules run.
#[derive(Clone, Copy, Debug, PartialEq, Eq, Structural)]
pub enum Failure {
    /// A rule of the program refused the instruction.
    Code(ErrorCode),
    /// An account that must sign did not.
    MissingSigner,
    /// The note account's address is not the one derived for its author.
    SeedsMismatch,
    /// The signer is not the note's author.
    Unauthorized,
    /// The address already holds a note.
    AddressInUse,
    /// The address holds no note.
    NoteMissing,
    /// The payer cannot give the amount, or the receiver cannot hold it.
    TransferFailed,
}

} // verus!
