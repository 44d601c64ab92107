//! What holds of the handlers taken together, proved from their contracts.
//!
//! A handler's contract relates the stored state before a request to the
//! state after it and to the answer. The statements here take such relations
//! as given, one for each request, and say what follows.

use vstd::prelude::*;
use cosmwasm_std::Response;
use crate::contract::{
    create_poll_outcome, execute_outcome, get_config_answer, get_poll_answer,
    instantiate_outcome, vote_outcome, CONTRACT_NAME, CONTRACT_VERSION,
};
use crate::error::ContractError;
use crate::host::{address_is_storable, poll_is_storable, registration_is_storable};
use crate::msg::{ExecuteMsg, GetPollResponse};
use crate::state::{Config, Ledger, PollView, Record, Tally, NO, YES};

verus! {

/// Setting the contract up with an address that the host accepts succeeds
/// wherever the host can store the registration and the address, and asking
/// for the configuration afterwards gives exactly that address. It fails only
/// where the host cannot store one of the two, and then neither the
/// administrative record nor any poll has changed.
pub proof fn lemma_instantiate_then_get_config(
    pre: Ledger,
    admin_address: Seq<char>,
    post: Ledger,
    set_up: Result<Response, ContractError>,
    asked: Result<Config, ContractError>,
)
    requires
        instantiate_outcome(pre, Ok(admin_address), post, set_up),
        get_config_answer(post, asked),
    ensures
        set_up is Ok <==> registration_is_storable(CONTRACT_NAME@, CONTRACT_VERSION@)
            && address_is_storable(admin_address),
        set_up is Ok ==> (asked matches Ok(config) && config@ == admin_address),
        set_up matches Err(error) ==> error is Generic && post.config == pre.config
            && post.polls == pre.polls,
{
}

/// Setting the contract up with an address that the host refuses fails as an
/// invalid address, with the host's reason, and changes nothing. Where no
/// configuration was stored before, none is stored afterwards: asking for it fails.
pub proof fn lemma_refused_address_stores_nothing(
    pre: Ledger,
    refusal: Seq<char>,
    post: Ledger,
    set_up: Result<Response, ContractError>,
    asked: Result<Config, ContractError>,
)
    requires
        instantiate_outcome(pre, Err(refusal), post, set_up),
        get_config_answer(post, asked),
    ensures
        set_up matches Err(ContractError::InvalidAddress { reason }) && reason@ == refusal,
        post == pre,
        pre.config is None ==> post.config is None && asked is Err,
{
}

/// Opening a poll on a question that has none succeeds wherever the host can
/// store the poll, and looking the question up afterwards gives that question
/// with no votes either way. It fails only where the host cannot store the
/// poll, and then changes nothing.
pub proof fn lemma_create_then_get_poll(
    pre: Ledger,
    question: Seq<char>,
    post: Ledger,
    created: Result<Response, ContractError>,
    asked: Result<GetPollResponse, ContractError>,
)
    requires
        !pre.polls.contains_key(question),
        create_poll_outcome(pre, question, post, created),
        get_poll_answer(post, question, asked),
    ensures
        created is Ok <==> poll_is_storable(PollView { question, yes_votes: 0, no_votes: 0 }),
        created is Ok ==> (asked matches Ok(found) && found@ == Some(
            PollView { question, yes_votes: 0, no_votes: 0 },
        )),
        created matches Err(error) ==> error is Generic && post == pre,
{
}

/// Opening a poll on the same question a second time is refused as a
/// duplicate, and leaves the state as the first call left it.
pub proof fn lemma_create_twice(
    pre: Ledger,
    question: Seq<char>,
    mid: Ledger,
    first: Result<Response, ContractError>,
    post: Ledger,
    second: Result<Response, ContractError>,
)
    requires
        create_poll_outcome(pre, question, mid, first),
        first is Ok,
        create_poll_outcome(mid, question, post, second),
    ensures
        second == Err::<Response, ContractError>(ContractError::DuplicatePoll),
        post == mid,
{
}

/// The two choices are different words.
pub proof fn lemma_yes_is_not_no()
    ensures
        YES@ != NO@,
{
    reveal_strlit("yes");
    reveal_strlit("no");
    assert(YES@.len() == 3);
    assert(NO@.len() == 2);
}

/// A vote for one of the two choices on a poll that reads back and has room
/// is counted wherever the host can store the poll that results. It fails
/// only where the host cannot, and then changes nothing.
pub proof fn lemma_vote_is_counted(
    pre: Ledger,
    question: Seq<char>,
    choice: Seq<char>,
    post: Ledger,
    voted: Result<Response, ContractError>,
    before: PollView,
    after: PollView,
)
    requires
        pre.polls.contains_key(question),
        pre.polls[question] == Record::Intact(before),
        before.tally(choice) == Tally::Counted(after),
        vote_outcome(pre, question, choice, post, voted),
    ensures
        voted is Ok <==> poll_is_storable(after),
        voted is Ok ==> post == pre.with_poll(question, after),
        voted matches Err(error) ==> error is Generic && post == pre,
{
}

/// A vote that is counted adds exactly one to the counter of its choice and
/// leaves the other counter, the question, every other poll and the
/// configuration as they were.
pub proof fn lemma_vote_counts_one(
    pre: Ledger,
    question: Seq<char>,
    choice: Seq<char>,
    post: Ledger,
    voted: Result<Response, ContractError>,
)
    requires
        vote_outcome(pre, question, choice, post, voted),
        voted is Ok,
    ensures
        choice == YES@ || choice == NO@,
        pre.polls.contains_key(question),
        pre.polls[question] is Intact,
        post.polls.contains_key(question),
        post.polls[question] is Intact,
        ({
            let before = pre.polls[question]->Intact_0;
            let after = post.polls[question]->Intact_0;
            &&& after.question == before.question
            &&& choice == YES@ ==> after.yes_votes == before.yes_votes + 1 && after.no_votes
                == before.no_votes
            &&& choice == NO@ ==> after.no_votes == before.no_votes + 1 && after.yes_votes
                == before.yes_votes
        }),
        forall|other: Seq<char>|
            other != question ==> post.polls.contains_key(other) == pre.polls.contains_key(other)
                && post.polls[other] == pre.polls[other],
        post.config == pre.config,
{
    lemma_yes_is_not_no();
}

/// A vote on a question that has no poll is refused as not found, and no
/// poll comes into being by it.
pub proof fn lemma_vote_on_missing_poll(
    pre: Ledger,
    question: Seq<char>,
    choice: Seq<char>,
    post: Ledger,
    voted: Result<Response, ContractError>,
)
    requires
        !pre.polls.contains_key(question),
        vote_outcome(pre, question, choice, post, voted),
    ensures
        voted == Err::<Response, ContractError>(ContractError::PollNotFound),
        post == pre,
        !post.polls.contains_key(question),
{
}

/// A vote on an existing poll with a choice other than the two words is
/// refused as an invalid choice, and the tallies stay as they were.
pub proof fn lemma_vote_with_unknown_choice(
    pre: Ledger,
    question: Seq<char>,
    choice: Seq<char>,
    post: Ledger,
    voted: Result<Response, ContractError>,
)
    requires
        pre.polls.contains_key(question),
        pre.polls[question] is Intact,
        choice != YES@,
        choice != NO@,
        vote_outcome(pre, question, choice, post, voted),
    ensures
        voted == Err::<Response, ContractError>(ContractError::InvalidChoice),
        post == pre,
{
}

/// A run of votes for one choice on one question, each of them counted:
/// `ledgers[i]` is the state before the vote `i` and `ledgers[i + 1]` the
/// state after it.
pub open spec fn counted_votes(
    ledgers: Seq<Ledger>,
    answers: Seq<Result<Response, ContractError>>,
    question: Seq<char>,
    choice: Seq<char>,
) -> bool {
    &&& ledgers.len() == answers.len() + 1
    &&& forall|i: int|
        0 <= i < answers.len() ==> #[trigger] answers[i] is Ok && vote_outcome(
            ledgers[i],
            question,
            choice,
            ledgers[i + 1],
            answers[i],
        )
}

/// Votes are not told apart by who cast them: of a run of counted votes for
/// `yes`, each one adds one. After `n` of them the poll has `n` more votes
/// for it and as many against it as before, so a poll that started without
/// votes has exactly `n` for it.
pub proof fn lemma_repeated_yes_votes(
    ledgers: Seq<Ledger>,
    answers: Seq<Result<Response, ContractError>>,
    question: Seq<char>,
    start: PollView,
)
    requires
        counted_votes(ledgers, answers, question, YES@),
        ledgers[0].polls.contains_key(question),
        ledgers[0].polls[question] == Record::Intact(start),
    ensures
        ledgers.last().polls.contains_key(question),
        ledgers.last().polls[question] == Record::Intact(
            PollView { yes_votes: start.yes_votes + answers.len(), ..start },
        ),
    decreases answers.len(),
{
    lemma_yes_is_not_no();
    if answers.len() > 0 {
        let n = answers.len() - 1;
        let earlier_ledgers = ledgers.drop_last();
        let earlier_answers = answers.drop_last();
        assert forall|i: int| 0 <= i < earlier_answers.len() implies #[trigger] earlier_answers[i]
            is Ok && vote_outcome(
            earlier_ledgers[i],
            question,
            YES@,
            earlier_ledgers[i + 1],
            earlier_answers[i],
        ) by {
            assert(answers[i] is Ok);
        }
        lemma_repeated_yes_votes(earlier_ledgers, earlier_answers, question, start);
        assert(earlier_ledgers.last() == ledgers[n]);
        assert(answers[n] is Ok);
        assert(ledgers.last() == ledgers[n + 1]);
    }
}

/// The same for `no`.
pub proof fn lemma_repeated_no_votes(
    ledgers: Seq<Ledger>,
    answers: Seq<Result<Response, ContractError>>,
    question: Seq<char>,
    start: PollView,
)
    requires
        counted_votes(ledgers, answers, question, NO@),
        ledgers[0].polls.contains_key(question),
        ledgers[0].polls[question] == Record::Intact(start),
    ensures
        ledgers.last().polls.contains_key(question),
        ledgers.last().polls[question] == Record::Intact(
            PollView { no_votes: start.no_votes + answers.len(), ..start },
        ),
    decreases answers.len(),
{
    lemma_yes_is_not_no();
    if answers.len() > 0 {
        let n = answers.len() - 1;
        let earlier_ledgers = ledgers.drop_last();
        let earlier_answers = answers.drop_last();
        assert forall|i: int| 0 <= i < earlier_answers.len() implies #[trigger] earlier_answers[i]
            is Ok && vote_outcome(
            earlier_ledgers[i],
            question,
            NO@,
            earlier_ledgers[i + 1],
            earlier_answers[i],
        ) by {
            assert(answers[i] is Ok);
        }
        lemma_repeated_no_votes(earlier_ledgers, earlier_answers, question, start);
        assert(earlier_ledgers.last() == ledgers[n]);
        assert(answers[n] is Ok);
        assert(ledgers.last() == ledgers[n + 1]);
    }
}

/// Looking up a question that has no poll is answered, with `None`: it is no failure.
pub proof fn lemma_missing_poll_is_an_answer(
    ledger: Ledger,
    question: Seq<char>,
    asked: Result<GetPollResponse, ContractError>,
)
    requires
        !ledger.polls.contains_key(question),
        get_poll_answer(ledger, question, asked),
    ensures
        asked matches Ok(found) && found.poll is None,
{
}

/// No request deletes a poll, lowers a counter or changes a question, and
/// none but the setting up touches the configuration. A request that fails
/// changes nothing at all.
pub proof fn lemma_execute_only_adds(
    pre: Ledger,
    msg: ExecuteMsg,
    post: Ledger,
    answer: Result<Response, ContractError>,
)
    requires
        execute_outcome(pre, msg, post, answer),
    ensures
        answer is Err ==> post == pre,
        post.registration == pre.registration,
        post.config == pre.config,
        forall|question: Seq<char>| #[trigger]
            pre.polls.contains_key(question) ==> post.polls.contains_key(question),
        forall|question: Seq<char>|
            pre.polls.contains_key(question) && #[trigger] pre.polls[question] is Intact ==> {
                let before = pre.polls[question]->Intact_0;
                let after = post.polls[question]->Intact_0;
                &&& post.polls[question] is Intact
                &&& after.question == before.question
                &&& after.yes_votes >= before.yes_votes
                &&& after.no_votes >= before.no_votes
                &&& after.yes_votes + after.no_votes <= before.yes_votes + before.no_votes + 1
            },
{
}

/// A request is answered in one way only: from the same state, the same
/// request leaves the same state behind, and either succeeds each time or
/// fails each time.
pub proof fn lemma_execute_is_deterministic(
    pre: Ledger,
    msg: ExecuteMsg,
    post_a: Ledger,
    answer_a: Result<Response, ContractError>,
    post_b: Ledger,
    answer_b: Result<Response, ContractError>,
)
    requires
        execute_outcome(pre, msg, post_a, answer_a),
        execute_outcome(pre, msg, post_b, answer_b),
    ensures
        post_a == post_b,
        answer_a is Ok <==> answer_b is Ok,
{
}

} // verus!
