use vstd::prelude::*;

verus! {

/// A text argument is longer than the board allows.
#[derive(Clone, Copy, Debug, PartialEq, Eq, Structural)]
pub enum InvalidLengthError {
    UserNameTooLong,
    MSGTooLong,
}

/// The signer may not perform the instruction.
#[derive(Clone, Copy, Debug, PartialEq, Eq, Structural)]
pub enum AuthorizationError {
    NotCEO,
    NotPostOwner,
}

/// The instruction does not apply to the post in its current state.
#[derive(Clone, Copy, Debug, PartialEq, Eq, Structural)]
pub enum InvalidOperationError {
    Deleted,
    WrongDude,
    FlagSameState,
}

/// Any error an instruction of the board can fail with.
#[derive(Clone, Copy, Debug, PartialEq, Eq, Structural)]
pub enum ChatError {
    InvalidLength(InvalidLengthError),
    Authorization(AuthorizationError),
    InvalidOperation(InvalidOperationError),
}

impl InvalidLengthError {
    /// The text shown to users for this error.
    pub open spec fn message_text(self) -> Seq<char> {
        match self {
            InvalidLengthError::UserNameTooLong => "User Name can't be longer than 144 characters"@,
            InvalidLengthError::MSGTooLong => "Message can't be longer than 444 characters"@,
        }
    }

    /// The message shown to users for this error.
    pub fn message(&self) -> (m: &'static str)
        ensures
            m@ == self.message_text(),
    {
        match self {
            InvalidLengthError::UserNameTooLong => "User Name can't be longer than 144 characters",
            InvalidLengthError::MSGTooLong => "Message can't be longer than 444 characters",
        }
    }
}

impl AuthorizationError {
    /// The text shown to users for this error.
    pub open spec fn message_text(self) -> Seq<char> {
        match self {
            AuthorizationError::NotCEO => "Only the CEO can call this function"@,
            AuthorizationError::NotPostOwner => "This post isn't yours to change"@,
        }
    }

    /// The message shown to users for this error.
    pub fn message(&self) -> (m: &'static str)
        ensures
            m@ == self.message_text(),
    {
        match self {
            AuthorizationError::NotCEO => "Only the CEO can call this function",
            AuthorizationError::NotPostOwner => "This post isn't yours to change",
        }
    }
}

impl InvalidOperationError {
    /// The text shown to users for this error.
    pub open spec fn message_text(self) -> Seq<char> {
        match self {
            InvalidOperationError::Deleted => "This post was deleted"@,
            InvalidOperationError::WrongDude => "You must vote for the person who wrote the post"@,
            InvalidOperationError::FlagSameState => "Can't set flag to the same state"@,
        }
    }

    /// The message shown to users for this error.
    pub fn message(&self) -> (m: &'static str)
        ensures
            m@ == self.message_text(),
    {
        match self {
            InvalidOperationError::Deleted => "This post was deleted",
            InvalidOperationError::WrongDude => "You must vote for the person who wrote the post",
            InvalidOperationError::FlagSameState => "Can't set flag to the same state",
        }
    }
}

impl ChatError {
    /// The text shown to users for this error.
    pub open spec fn message_text(self) -> Seq<char> {
        match self {
            ChatError::InvalidLength(e) => e.message_text(),
            ChatError::Authorization(e) => e.message_text(),
            ChatError::InvalidOperation(e) => e.message_text(),
        }
    }

    /// The message shown to users for this error.
    pub fn message(&self) -> (m: &'static str)
        ensures
            m@ == self.message_text(),
    {
        match self {
            ChatError::InvalidLength(e) => e.message(),
            ChatError::Authorization(e) => e.message(),
            ChatError::InvalidOperation(e) => e.message(),
        }
    }
}

} // verus!
