use cosmwasm_std::{attr, StdError};
use zero_to_hero::contract::{
    conclude, host_failure, respond, ACTION, CREATE_POLL, INSTANTIATE, VOTE,
};
use zero_to_hero::error::{
    ContractError, DUPLICATE_POLL_TEXT, INVALID_CHOICE_TEXT, POLL_NOT_FOUND_TEXT,
};
use zero_to_hero::host::{CONFIG_KEY, POLLS_NAMESPACE};
use zero_to_hero::state::{Poll, NO, TALLY_FULL_TEXT, YES};

#[test]
fn new_poll_has_no_votes() {
    assert_eq!(
        Poll::new("Q".to_string()),
        Poll { question: "Q".to_string(), yes_votes: 0, no_votes: 0 }
    );
}

#[test]
fn cast_counts_yes_and_no() {
    let poll = Poll { question: "Q".to_string(), yes_votes: 41, no_votes: 7 };
    assert_eq!(
        poll.clone().cast(&"yes".to_string()),
        Ok(Poll { question: "Q".to_string(), yes_votes: 42, no_votes: 7 })
    );
    assert_eq!(
        poll.cast(&"no".to_string()),
        Ok(Poll { question: "Q".to_string(), yes_votes: 41, no_votes: 8 })
    );
}

#[test]
fn cast_refuses_other_words() {
    let poll = Poll { question: "Q".to_string(), yes_votes: 1, no_votes: 1 };
    for choice in ["maybe", "Yes", "NO", "", "yes\n"] {
        assert_eq!(poll.clone().cast(&choice.to_string()), Err(ContractError::InvalidChoice));
    }
}

#[test]
fn cast_checks_the_choice_before_the_counter() {
    let poll = Poll { question: "Q".to_string(), yes_votes: u64::MAX, no_votes: u64::MAX };
    assert_eq!(poll.clone().cast(&"maybe".to_string()), Err(ContractError::InvalidChoice));
    assert_eq!(
        poll.clone().cast(&"yes".to_string()),
        Err(ContractError::Generic { msg: "Vote counter is full".to_string() })
    );
    assert_eq!(
        poll.cast(&"no".to_string()),
        Err(ContractError::Generic { msg: "Vote counter is full".to_string() })
    );
}

#[test]
fn cast_reaches_the_largest_count() {
    let poll = Poll { question: "Q".to_string(), yes_votes: u64::MAX - 1, no_votes: 0 };
    assert_eq!(
        poll.cast(&"yes".to_string()),
        Ok(Poll { question: "Q".to_string(), yes_votes: u64::MAX, no_votes: 0 })
    );
}

#[test]
fn error_messages() {
    assert_eq!(ContractError::DuplicatePoll.message(), "Key already exists");
    assert_eq!(ContractError::PollNotFound.message(), "Poll does not exists");
    assert_eq!(ContractError::InvalidChoice.message(), "Unrecognized choice");
    assert_eq!(
        ContractError::InvalidAddress { reason: "too short".to_string() }.message(),
        "too short"
    );
    assert_eq!(ContractError::Generic { msg: "boom".to_string() }.message(), "boom");
    assert_eq!(DUPLICATE_POLL_TEXT, "Key already exists");
    assert_eq!(POLL_NOT_FOUND_TEXT, "Poll does not exists");
    assert_eq!(INVALID_CHOICE_TEXT, "Unrecognized choice");
    assert_eq!(TALLY_FULL_TEXT, "Vote counter is full");
}

#[test]
fn fixed_words() {
    assert_eq!(YES, "yes");
    assert_eq!(NO, "no");
    assert_eq!(ACTION, "action");
    assert_eq!(INSTANTIATE, "instantiate");
    assert_eq!(CREATE_POLL, "create poll");
    assert_eq!(VOTE, "vote");
    assert_eq!(CONFIG_KEY, "config");
    assert_eq!(POLLS_NAMESPACE, "polls");
}

#[test]
fn respond_carries_one_attribute() {
    let response = respond("vote");
    assert_eq!(response.attributes, vec![attr("action", "vote")]);
    assert!(response.messages.is_empty());
    assert!(response.events.is_empty());
    assert!(response.data.is_none());
    assert_eq!(respond("").attributes, vec![attr("action", "")]);
}

#[test]
fn conclude_follows_the_write() {
    let done = conclude(Ok(()), "create poll").unwrap();
    assert_eq!(done.attributes, vec![attr("action", "create poll")]);
    let failed = conclude(Err(StdError::generic_err("disk on fire")), "create poll").unwrap_err();
    assert_eq!(failed, ContractError::Generic { msg: "Generic error: disk on fire".to_string() });
}

#[test]
fn host_failure_keeps_the_message() {
    assert_eq!(
        host_failure(StdError::not_found("poll")),
        ContractError::Generic { msg: "poll not found".to_string() }
    );
}
