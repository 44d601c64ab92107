//! The requests that the host delivers and the answers to queries.

use vstd::prelude::*;
use crate::state::{Config, Poll, PollView};

verus! {

/// The request that sets the contract up.
#[derive(Clone, Debug, PartialEq)]
pub struct InstantiateMsg {
    pub admin_address: String,
}

/// A request that changes the state.
#[derive(Clone, Debug, PartialEq)]
pub enum ExecuteMsg {
    /// Opens a poll. The question is taken as it is written: two questions
    /// that differ in case or in white space are two polls.
    CreatePoll { question: String },
    /// Casts one vote on the poll with this question.
    Vote { question: String, choice: String },
}

/// A request that only reads the state.
#[derive(Clone, Debug, PartialEq)]
pub enum QueryMsg {
    GetPoll { question: String },
    GetConfig {},
}

/// The answer to [`QueryMsg::GetPoll`]: the poll, or `None` where the
/// question has no poll. A missing poll is an answer, not a failure.
#[derive(Clone, Debug, PartialEq)]
pub struct GetPollResponse {
    pub poll: Option<Poll>,
}

impl View for GetPollResponse {
    type V = Option<PollView>;

    open spec fn view(&self) -> Option<PollView> {
        match self.poll {
            Some(poll) => Some(poll@),
            None => None,
        }
    }
}

/// The answer to a query, before it is encoded for the wire.
#[derive(Clone, Debug, PartialEq)]
pub enum QueryResponse {
    Poll(GetPollResponse),
    Config(Config),
}

} // verus!
