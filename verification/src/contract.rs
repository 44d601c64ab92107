//! The handlers: setting the contract up, opening a poll, voting, and the two queries.
//!
//! Each handler answers one request. It reads what it needs from the host,
//! decides, writes, and returns. What it does is stated as a relation
//! between the stored state before the request, the state after it and the
//! answer. A request that fails leaves the administrative record and the
//! polls as they were.

use vstd::prelude::*;
use cosmwasm_std::{Env, MessageInfo, Response, StdError};
use crate::error::ContractError;
use crate::host::{
    add_attribute, address_is_storable, address_verdict, has_poll, load_config, load_poll,
    may_load_poll, new_response, poll_is_storable, registration_is_storable,
    response_attributes, response_extras, save_config, save_poll, set_contract_version,
    std_error_message, std_error_text, validate_address, Host, HostRef, CONFIG_KEY,
    POLLS_NAMESPACE,
};
use crate::msg::{ExecuteMsg, GetPollResponse, InstantiateMsg, QueryMsg, QueryResponse};
use crate::state::{Config, Ledger, Poll, PollView, Record, Tally, TALLY_FULL_TEXT};

verus! {

/// The name under which the contract registers itself with the host.
pub const CONTRACT_NAME: &'static str = "crates.io:zero-to-hero";

/// The version under which the contract registers itself with the host.
pub const CONTRACT_VERSION: &'static str = "0.1.0";

/// The key of the attribute that says which handler answered.
pub const ACTION: &'static str = "action";

/// The value of [`ACTION`] after the contract was set up.
pub const INSTANTIATE: &'static str = "instantiate";

/// The value of [`ACTION`] after a poll was opened.
pub const CREATE_POLL: &'static str = "create poll";

/// The value of [`ACTION`] after a vote was counted.
pub const VOTE: &'static str = "vote";

/// A response that carries the attribute `action` with this value, and nothing else.
pub open spec fn tagged(response: Response, action: Seq<char>) -> bool {
    &&& response_attributes(response) == seq![(ACTION@, action)]
    &&& response_extras(response) == 0
}

/// The response of a handler that succeeded.
pub fn respond(action: &str) -> (response: Response)
    ensures
        tagged(response, action@),
{
    proof {
        reveal_strlit("action");
    }
    add_attribute(new_response(), ACTION, action)
}

/// The error for a failure of the host itself, with the host's message.
pub fn host_failure(error: StdError) -> (failure: ContractError)
    ensures
        failure matches ContractError::Generic { msg } && msg@ == std_error_text(error),
{
    ContractError::Generic { msg: std_error_message(&error) }
}

/// What a handler answers once the host has reported on the write: the tagged
/// response where the write went through, the host's failure where it did not.
pub fn conclude(written: Result<(), StdError>, action: &str) -> (answer: Result<
    Response,
    ContractError,
>)
    ensures
        match written {
            Ok(_) => answer matches Ok(response) && tagged(response, action@),
            Err(error) => answer matches Err(ContractError::Generic { msg }) && msg@
                == std_error_text(error),
        },
{
    match written {
        Ok(_) => Ok(respond(action)),
        Err(error) => Err(host_failure(error)),
    }
}

/// What setting the contract up does. `verdict` is what the host says of the
/// address. A refused address is the caller's failure, reported with the
/// host's reason, and changes nothing. For an accepted one the contract's name
/// and version are registered, and then the address is stored as the
/// administrative record. Where the host cannot store one of the two, the
/// request fails there, with no administrative record written.
pub open spec fn instantiate_outcome(
    pre: Ledger,
    verdict: Result<Seq<char>, Seq<char>>,
    post: Ledger,
    answer: Result<Response, ContractError>,
) -> bool {
    let registered = pre.with_registration(CONTRACT_NAME@, CONTRACT_VERSION@);
    match verdict {
        Err(refusal) => answer matches Err(ContractError::InvalidAddress { reason }) && reason@
            == refusal && post == pre,
        Ok(admin_address) => if !registration_is_storable(CONTRACT_NAME@, CONTRACT_VERSION@) {
            answer matches Err(ContractError::Generic { .. }) && post == pre
        } else if !address_is_storable(admin_address) {
            answer matches Err(ContractError::Generic { .. }) && post == registered
        } else {
            answer matches Ok(response) && tagged(response, INSTANTIATE@) && post
                == registered.with_config(admin_address)
        },
    }
}

/// What opening a poll does. A question that has a record already is refused.
/// Otherwise the question gets a poll without votes, and nothing else
/// changes. A request that fails changes nothing; it fails also where the
/// host cannot store the poll.
pub open spec fn create_poll_outcome(
    pre: Ledger,
    question: Seq<char>,
    post: Ledger,
    answer: Result<Response, ContractError>,
) -> bool {
    let poll = PollView::fresh(question);
    if pre.polls.contains_key(question) {
        answer == Err::<Response, ContractError>(ContractError::DuplicatePoll) && post == pre
    } else if !poll_is_storable(poll) {
        answer matches Err(ContractError::Generic { .. }) && post == pre
    } else {
        answer matches Ok(response) && tagged(response, CREATE_POLL@) && post == pre.with_poll(
            question,
            poll,
        )
    }
}

/// What voting does. The checks come in this order: the question must have a
/// record, the record must read back as a poll, the choice must be one of the
/// two, and the counter must have room. Then the poll with one more vote
/// takes the place of the old one, and nothing else changes. A request that
/// fails changes nothing; it fails also where the host cannot store the poll.
pub open spec fn vote_outcome(
    pre: Ledger,
    question: Seq<char>,
    choice: Seq<char>,
    post: Ledger,
    answer: Result<Response, ContractError>,
) -> bool {
    if !pre.polls.contains_key(question) {
        answer == Err::<Response, ContractError>(ContractError::PollNotFound) && post == pre
    } else {
        match pre.polls[question] {
            Record::Garbled => answer matches Err(ContractError::Generic { .. }) && post == pre,
            Record::Intact(poll) => match poll.tally(choice) {
                Tally::Unrecognized => answer == Err::<Response, ContractError>(
                    ContractError::InvalidChoice,
                ) && post == pre,
                Tally::Full => answer matches Err(ContractError::Generic { msg }) && msg@
                    == TALLY_FULL_TEXT@ && post == pre,
                Tally::Counted(counted) => if !poll_is_storable(counted) {
                    answer matches Err(ContractError::Generic { .. }) && post == pre
                } else {
                    answer matches Ok(response) && tagged(response, VOTE@) && post
                        == pre.with_poll(question, counted)
                },
            },
        }
    }
}

/// What a request that changes the state does: what its handler does.
pub open spec fn execute_outcome(
    pre: Ledger,
    msg: ExecuteMsg,
    post: Ledger,
    answer: Result<Response, ContractError>,
) -> bool {
    match msg {
        ExecuteMsg::CreatePoll { question } => create_poll_outcome(pre, question@, post, answer),
        ExecuteMsg::Vote { question, choice } => vote_outcome(
            pre,
            question@,
            choice@,
            post,
            answer,
        ),
    }
}

/// The answer to the question whether `question` has a poll: the poll, or
/// `None` where it has none. Only a record that does not read back is a failure.
pub open spec fn get_poll_answer(
    ledger: Ledger,
    question: Seq<char>,
    answer: Result<GetPollResponse, ContractError>,
) -> bool {
    if !ledger.polls.contains_key(question) {
        answer matches Ok(found) && found@ is None
    } else {
        match ledger.polls[question] {
            Record::Intact(poll) => answer matches Ok(found) && found@ == Some(poll),
            Record::Garbled => answer matches Err(ContractError::Generic { .. }),
        }
    }
}

/// The answer to the question who administers the contract: the stored
/// record. It is a failure where none was stored or it does not read back.
pub open spec fn get_config_answer(ledger: Ledger, answer: Result<Config, ContractError>) -> bool {
    match ledger.config {
        Some(Record::Intact(admin_address)) => answer matches Ok(config) && config@
            == admin_address,
        _ => answer matches Err(ContractError::Generic { .. }),
    }
}

/// What a query answers: what its handler answers.
pub open spec fn query_answer(
    ledger: Ledger,
    msg: QueryMsg,
    answer: Result<QueryResponse, ContractError>,
) -> bool {
    match msg {
        QueryMsg::GetPoll { question } => match answer {
            Ok(QueryResponse::Poll(found)) => get_poll_answer(
                ledger,
                question@,
                Ok::<GetPollResponse, ContractError>(found),
            ),
            Ok(QueryResponse::Config(_)) => false,
            Err(error) => get_poll_answer(
                ledger,
                question@,
                Err::<GetPollResponse, ContractError>(error),
            ),
        },
        QueryMsg::GetConfig {  } => match answer {
            Ok(QueryResponse::Config(config)) => get_config_answer(
                ledger,
                Ok::<Config, ContractError>(config),
            ),
            Ok(QueryResponse::Poll(_)) => false,
            Err(error) => get_config_answer(ledger, Err::<Config, ContractError>(error)),
        },
    }
}

/// Sets the contract up: checks the administrator address with the host,
/// registers the contract's name and version, and stores the address.
pub fn instantiate(
    host: &mut Host,
    _env: Env,
    _info: MessageInfo,
    msg: InstantiateMsg,
) -> (answer: Result<Response, ContractError>)
    ensures
        instantiate_outcome(
            old(host)@,
            address_verdict(*old(host), msg.admin_address@),
            final(host)@,
            answer,
        ),
        address_verdict(*old(host), msg.admin_address@) matches Ok(admin_address)
            ==> admin_address == msg.admin_address@,
{
    let admin_address = match validate_address(host, &msg.admin_address) {
        Ok(admin_address) => admin_address,
        Err(error) => {
            return Err(ContractError::InvalidAddress { reason: std_error_message(&error) });
        },
    };
    match set_contract_version(host, CONTRACT_NAME, CONTRACT_VERSION) {
        Ok(_) => {},
        Err(error) => {
            return Err(host_failure(error));
        },
    }
    let config = Config { admin_address };
    let written = save_config(host, CONFIG_KEY, &config);
    conclude(written, INSTANTIATE)
}

/// Answers a request that changes the state.
pub fn execute(
    host: &mut Host,
    env: Env,
    info: MessageInfo,
    msg: ExecuteMsg,
) -> (answer: Result<Response, ContractError>)
    ensures
        execute_outcome(old(host)@, msg, final(host)@, answer),
{
    match msg {
        ExecuteMsg::CreatePoll { question } => execute_create_poll(host, env, info, question),
        ExecuteMsg::Vote { question, choice } => execute_vote(host, env, info, question, choice),
    }
}

/// Opens a poll on `question`, with no votes.
pub fn execute_create_poll(
    host: &mut Host,
    _env: Env,
    _info: MessageInfo,
    question: String,
) -> (answer: Result<Response, ContractError>)
    ensures
        create_poll_outcome(old(host)@, question@, final(host)@, answer),
{
    if has_poll(host, POLLS_NAMESPACE, &question) {
        return Err(ContractError::DuplicatePoll);
    }
    let poll = Poll::new(question.clone());
    let written = save_poll(host, POLLS_NAMESPACE, &question, &poll);
    conclude(written, CREATE_POLL)
}

/// Counts one vote for `choice` on the poll with this question. Nobody is
/// kept from voting again: every accepted call counts.
pub fn execute_vote(
    host: &mut Host,
    _env: Env,
    _info: MessageInfo,
    question: String,
    choice: String,
) -> (answer: Result<Response, ContractError>)
    ensures
        vote_outcome(old(host)@, question@, choice@, final(host)@, answer),
{
    if !has_poll(host, POLLS_NAMESPACE, &question) {
        return Err(ContractError::PollNotFound);
    }
    let poll = match load_poll(host, POLLS_NAMESPACE, &question) {
        Ok(poll) => poll,
        Err(error) => {
            return Err(host_failure(error));
        },
    };
    let counted = match poll.cast(&choice) {
        Ok(counted) => counted,
        Err(refusal) => {
            return Err(refusal);
        },
    };
    let written = save_poll(host, POLLS_NAMESPACE, &question, &counted);
    conclude(written, VOTE)
}

/// Answers a request that only reads the state.
pub fn query(
    host: &HostRef,
    env: Env,
    msg: QueryMsg,
) -> (answer: Result<QueryResponse, ContractError>)
    ensures
        query_answer(host@, msg, answer),
{
    match msg {
        QueryMsg::GetPoll { question } => match query_get_poll(host, env, question) {
            Ok(found) => Ok(QueryResponse::Poll(found)),
            Err(error) => Err(error),
        },
        QueryMsg::GetConfig {  } => match query_get_config(host) {
            Ok(config) => Ok(QueryResponse::Config(config)),
            Err(error) => Err(error),
        },
    }
}

/// Looks the poll of `question` up.
pub fn query_get_poll(
    host: &HostRef,
    _env: Env,
    question: String,
) -> (answer: Result<GetPollResponse, ContractError>)
    ensures
        get_poll_answer(host@, question@, answer),
{
    match may_load_poll(host, POLLS_NAMESPACE, &question) {
        Ok(poll) => Ok(GetPollResponse { poll }),
        Err(error) => Err(host_failure(error)),
    }
}

/// Looks the administrative record up.
pub fn query_get_config(host: &HostRef) -> (answer: Result<Config, ContractError>)
    ensures
        get_config_answer(host@, answer),
{
    match load_config(host, CONFIG_KEY) {
        Ok(config) => Ok(config),
        Err(error) => Err(host_failure(error)),
    }
}

} // verus!
