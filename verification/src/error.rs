//! The ways in which a request can fail.

use vstd::prelude::*;
use vstd::string::StringExecFns;

verus! {

/// Why a request was refused. Every failure leaves the stored state as it was.
#[derive(Debug, PartialEq)]
pub enum ContractError {
    /// The host does not accept the administrator address; `reason` is the host's own wording.
    InvalidAddress { reason: String },
    /// A poll with this question exists already.
    DuplicatePoll,
    /// No poll with this question exists.
    PollNotFound,
    /// The choice is neither `yes` nor `no`.
    InvalidChoice,
    /// Anything else, such as a host failure, with a description.
    Generic { msg: String },
}

/// What a caller reads for [`ContractError::DuplicatePoll`].
pub const DUPLICATE_POLL_TEXT: &'static str = "Key already exists";

/// What a caller reads for [`ContractError::PollNotFound`].
pub const POLL_NOT_FOUND_TEXT: &'static str = "Poll does not exists";

/// What a caller reads for [`ContractError::InvalidChoice`].
pub const INVALID_CHOICE_TEXT: &'static str = "Unrecognized choice";

impl ContractError {
    /// The text of the error, as a model value.
    pub open spec fn text(self) -> Seq<char> {
        match self {
            ContractError::InvalidAddress { reason } => reason@,
            ContractError::DuplicatePoll => DUPLICATE_POLL_TEXT@,
            ContractError::PollNotFound => POLL_NOT_FOUND_TEXT@,
            ContractError::InvalidChoice => INVALID_CHOICE_TEXT@,
            ContractError::Generic { msg } => msg@,
        }
    }

    /// The text that is shown to the caller.
    pub fn message(&self) -> (text: String)
        ensures
            text@ == self.text(),
    {
        match self {
            ContractError::InvalidAddress { reason } => reason.clone(),
            ContractError::DuplicatePoll => String::from_str(DUPLICATE_POLL_TEXT),
            ContractError::PollNotFound => String::from_str(POLL_NOT_FOUND_TEXT),
            ContractError::InvalidChoice => String::from_str(INVALID_CHOICE_TEXT),
            ContractError::Generic { msg } => msg.clone(),
        }
    }
}

} // verus!
