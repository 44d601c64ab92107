//! The stored state: its records, and the mathematical model that the
//! contracts are stated over.

use vstd::prelude::*;
use vstd::string::StringExecFns;
use cosmwasm_std::Addr;
use crate::error::ContractError;
use crate::host::addr_text;

verus! {

/// The choice that counts for a poll.
pub const YES: &'static str = "yes";

/// The choice that counts against a poll.
pub const NO: &'static str = "no";

/// What a caller reads when a counter cannot take another vote.
pub const TALLY_FULL_TEXT: &'static str = "Vote counter is full";

/// The administrative record. It is written once, when the contract is set up.
#[derive(Clone, Debug, PartialEq)]
pub struct Config {
    pub admin_address: Addr,
}

impl View for Config {
    type V = Seq<char>;

    /// A configuration is modelled by the text of its administrator address.
    open spec fn view(&self) -> Seq<char> {
        addr_text(self.admin_address)
    }
}

/// One poll: a question and the votes cast for and against it.
#[derive(Clone, Debug, PartialEq)]
pub struct Poll {
    pub question: String,
    pub yes_votes: u64,
    pub no_votes: u64,
}

/// The model of a [`Poll`].
pub struct PollView {
    pub question: Seq<char>,
    pub yes_votes: nat,
    pub no_votes: nat,
}

/// What becomes of a poll when one more vote arrives.
pub enum Tally {
    /// The vote was counted; this is the poll afterwards.
    Counted(PollView),
    /// The choice is neither [`YES`] nor [`NO`].
    Unrecognized,
    /// The counter for the choice holds the largest number it can.
    Full,
}

impl PollView {
    /// The poll that a question starts with: no votes either way.
    pub open spec fn fresh(question: Seq<char>) -> PollView {
        PollView { question, yes_votes: 0, no_votes: 0 }
    }

    /// The poll after one vote for `choice`. The choice is matched exactly,
    /// and checked before the counter is.
    pub open spec fn tally(self, choice: Seq<char>) -> Tally {
        if choice == YES@ {
            if self.yes_votes < u64::MAX {
                Tally::Counted(PollView { yes_votes: self.yes_votes + 1, ..self })
            } else {
                Tally::Full
            }
        } else if choice == NO@ {
            if self.no_votes < u64::MAX {
                Tally::Counted(PollView { no_votes: self.no_votes + 1, ..self })
            } else {
                Tally::Full
            }
        } else {
            Tally::Unrecognized
        }
    }
}

impl View for Poll {
    type V = PollView;

    open spec fn view(&self) -> PollView {
        PollView {
            question: self.question@,
            yes_votes: self.yes_votes as nat,
            no_votes: self.no_votes as nat,
        }
    }
}

impl Poll {
    /// A poll on `question` with no votes yet.
    pub fn new(question: String) -> (poll: Poll)
        ensures
            poll@ == PollView::fresh(question@),
    {
        Poll { question, yes_votes: 0, no_votes: 0 }
    }

    /// Counts one vote. Nothing tells two votes of one caller apart: each call counts.
    pub fn cast(self, choice: &String) -> (counted: Result<Poll, ContractError>)
        ensures
            match self@.tally(choice@) {
                Tally::Counted(after) => counted matches Ok(poll) && poll@ == after,
                Tally::Unrecognized => counted == Err::<Poll, ContractError>(
                    ContractError::InvalidChoice,
                ),
                Tally::Full => counted matches Err(ContractError::Generic { msg }) && msg@
                    == TALLY_FULL_TEXT@,
            },
    {
        let for_it = *choice == String::from_str(YES);
        let against_it = *choice == String::from_str(NO);
        if !for_it && !against_it {
            return Err(ContractError::InvalidChoice);
        }
        let Poll { question, yes_votes, no_votes } = self;
        let bumped = if for_it {
            yes_votes.checked_add(1)
        } else {
            no_votes.checked_add(1)
        };
        match bumped {
            None => Err(ContractError::Generic { msg: String::from_str(TALLY_FULL_TEXT) }),
            Some(votes) => if for_it {
                Ok(Poll { question, yes_votes: votes, no_votes })
            } else {
                Ok(Poll { question, yes_votes, no_votes: votes })
            },
        }
    }
}

/// What the host holds in one place of its storage.
pub enum Record<T> {
    /// Bytes that read back as this value.
    Intact(T),
    /// Bytes that do not read back as a value of the expected kind.
    Garbled,
}

/// The model of the stored state: the name and version that the contract
/// registered, the administrative record, and the polls by question. Each is
/// absent until it is written, and a question has at most one poll.
pub struct Ledger {
    pub registration: Option<Record<(Seq<char>, Seq<char>)>>,
    pub config: Option<Record<Seq<char>>>,
    pub polls: Map<Seq<char>, Record<PollView>>,
}

impl Ledger {
    /// This state with the contract registered under `name` and `version`.
    pub open spec fn with_registration(self, name: Seq<char>, version: Seq<char>) -> Ledger {
        Ledger { registration: Some(Record::Intact((name, version))), ..self }
    }

    /// This state with `admin_address` as the administrator address.
    pub open spec fn with_config(self, admin_address: Seq<char>) -> Ledger {
        Ledger { config: Some(Record::Intact(admin_address)), ..self }
    }

    /// This state with `poll` stored under `question`, in place of what was there.
    pub open spec fn with_poll(self, question: Seq<char>, poll: PollView) -> Ledger {
        Ledger { polls: self.polls.insert(question, Record::Intact(poll)), ..self }
    }
}

} // verus!
