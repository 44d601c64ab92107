//! The host: its storage, its address rules, and the values it exchanges
//! with a contract.
//!
//! Nothing in this file is proved. Each item states what the crates
//! `cosmwasm-std`, `cw-storage-plus` and `cw2` do, and the proofs elsewhere in
//! this library rest on these statements.

use vstd::prelude::*;
use cosmwasm_std::{Addr, Api, Empty, Env, MessageInfo, Response, StdError, Storage};
use crate::state::{Config, Ledger, Poll, PollView, Record};

verus! {

/// `cosmwasm_std::StdError`, the error of the host's own operations.
#[verifier::external_type_specification]
#[verifier::external_body]
pub struct ExStdError(StdError);

/// `cosmwasm_std::Addr`, an address that the host has accepted.
#[verifier::external_type_specification]
#[verifier::external_body]
pub struct ExAddr(Addr);

/// `cosmwasm_std::Empty`, which stands where a response has no custom messages.
#[verifier::external_type_specification]
#[verifier::external_body]
pub struct ExEmpty(Empty);

/// `cosmwasm_std::Response`, what a handler hands back to the host on success.
#[verifier::external_type_specification]
#[verifier::external_body]
#[verifier::reject_recursive_types(T)]
pub struct ExResponse<T>(Response<T>);

/// `cosmwasm_std::Env`, the block and the contract that a request runs in.
/// The handlers take it and do not read it.
#[verifier::external_type_specification]
#[verifier::external_body]
pub struct ExEnv(Env);

/// `cosmwasm_std::MessageInfo`, the sender and the funds of a request. The
/// handlers take it and do not read it.
#[verifier::external_type_specification]
#[verifier::external_body]
pub struct ExMessageInfo(MessageInfo);

/// What a handler that changes the state is given: the host's storage, open
/// for writing, and the host's address rules. These are the fields `storage`
/// and `api` of a `cosmwasm_std::DepsMut`. The verifier does not look inside.
#[verifier::external_body]
pub struct Host<'a> {
    pub storage: &'a mut dyn Storage,
    pub api: &'a dyn Api,
}

/// What a query is given: the host's storage, for reading only. This is the
/// field `storage` of a `cosmwasm_std::Deps`. The verifier does not look inside.
#[verifier::external_body]
pub struct HostRef<'a> {
    pub storage: &'a dyn Storage,
}

/// The storage key of the administrative record.
pub const CONFIG_KEY: &'static str = "config";

/// The storage namespace of the polls.
pub const POLLS_NAMESPACE: &'static str = "polls";

/// What the storage holds for this contract: under `contract_info` the name
/// and version that `cw2` keeps there, under [`CONFIG_KEY`] the address that a
/// `cw_storage_plus::Item` keeps there, and under [`POLLS_NAMESPACE`] the
/// `(question, yes_votes, no_votes)` triples that a `cw_storage_plus::Map`
/// keyed by question keeps there. A place is absent from the ledger where the
/// storage has nothing under its key, and garbled where the bytes there do
/// not parse as the value.
pub uninterp spec fn host_ledger(host: Host) -> Ledger;

/// The same, of storage that is open for reading only.
pub uninterp spec fn host_ref_ledger(host: HostRef) -> Ledger;

/// What `Api::addr_validate` of the host says of `human`: the text of the
/// address where it accepts it, the message of its error where it does not.
pub uninterp spec fn address_verdict(host: Host, human: Seq<char>) -> Result<Seq<char>, Seq<char>>;

/// Whether `cw2::set_contract_version` can serialise this name and version,
/// so that it writes them.
pub uninterp spec fn registration_is_storable(name: Seq<char>, version: Seq<char>) -> bool;

/// Whether `cw_storage_plus::Item::save` can serialise an address of this
/// text, so that it writes it.
pub uninterp spec fn address_is_storable(address: Seq<char>) -> bool;

/// Whether `cw_storage_plus::Map::save` can serialise this poll, so that it
/// writes it.
pub uninterp spec fn poll_is_storable(poll: PollView) -> bool;

/// The text of an address, as `Addr::as_str` gives it.
pub uninterp spec fn addr_text(addr: Addr) -> Seq<char>;

/// What a `StdError` shows as its message, through `Display`.
pub uninterp spec fn std_error_text(error: StdError) -> Seq<char>;

/// The attributes of a response, in order, each as key and value.
pub uninterp spec fn response_attributes(response: Response) -> Seq<(Seq<char>, Seq<char>)>;

/// How many messages, events and data payloads a response carries.
pub uninterp spec fn response_extras(response: Response) -> nat;

impl<'a> View for Host<'a> {
    type V = Ledger;

    open spec fn view(&self) -> Ledger {
        host_ledger(*self)
    }
}

impl<'a> View for HostRef<'a> {
    type V = Ledger;

    open spec fn view(&self) -> Ledger {
        host_ref_ledger(*self)
    }
}

/// `Clone` for `Addr`, which is derived: the copy is the same address.
pub assume_specification[ <Addr as Clone>::clone ](addr: &Addr) -> (copy: Addr)
    ensures
        copy == *addr,
;

/// The plain form of what `Api::addr_validate` returned: the text of the
/// address, or the message of the error.
pub open spec fn verdict_text(validated: Result<Addr, StdError>) -> Result<Seq<char>, Seq<char>> {
    match validated {
        Ok(addr) => Ok(addr_text(addr)),
        Err(error) => Err(std_error_text(error)),
    }
}

/// `Api::addr_validate`. The host decides by its own rules, and the same way
/// each time for the same text. An address that it accepts holds the text as
/// it was put in.
#[verifier::external_body]
pub(crate) fn validate_address(
    host: &Host,
    human: &String,
) -> (validated: Result<Addr, StdError>)
    ensures
        verdict_text(validated) == address_verdict(*host, human@),
        validated matches Ok(addr) ==> addr_text(addr) == human@,
{
    host.api.addr_validate(human.as_str())
}

/// `cw2::set_contract_version`. It serialises the name and the version and
/// saves them under the storage key `contract_info`, which is neither that of
/// the administrative record nor that of a poll. It fails where the two
/// cannot be serialised, and only there, and then writes nothing.
#[verifier::external_body]
pub(crate) fn set_contract_version(
    host: &mut Host,
    name: &str,
    version: &str,
) -> (written: Result<(), StdError>)
    ensures
        written is Ok <==> registration_is_storable(name@, version@),
        written is Ok ==> host_ledger(*final(host)) == host_ledger(*old(host)).with_registration(
            name@,
            version@,
        ),
        written is Err ==> host_ledger(*final(host)) == host_ledger(*old(host)),
{
    cw2::set_contract_version(&mut *host.storage, name, version)
}

/// `cw_storage_plus::Item::save` for the administrative record. On success
/// the record reads back as this address, and nothing else has changed. It
/// fails where the address cannot be serialised, and only there, and then
/// writes nothing.
#[verifier::external_body]
pub(crate) fn save_config(
    host: &mut Host,
    key: &str,
    config: &Config,
) -> (written: Result<(), StdError>)
    requires
        key@ == CONFIG_KEY@,
    ensures
        written is Ok <==> address_is_storable(addr_text(config.admin_address)),
        written is Ok ==> host_ledger(*final(host)) == host_ledger(*old(host)).with_config(
            addr_text(config.admin_address),
        ),
        written is Err ==> host_ledger(*final(host)) == host_ledger(*old(host)),
{
    cw_storage_plus::Item::<Addr>::new(key).save(&mut *host.storage, &config.admin_address)
}

/// `cw_storage_plus::Item::load` for the administrative record. It gives the
/// address where one is stored and parses, and fails where nothing is stored
/// or what is stored does not parse.
#[verifier::external_body]
pub(crate) fn load_config(host: &HostRef, key: &str) -> (loaded: Result<Config, StdError>)
    requires
        key@ == CONFIG_KEY@,
    ensures
        loaded matches Ok(config) ==> host_ref_ledger(*host).config == Some(
            Record::Intact(addr_text(config.admin_address)),
        ),
        loaded is Err ==> !(host_ref_ledger(*host).config matches Some(Record::Intact(_))),
{
    match cw_storage_plus::Item::<Addr>::new(key).load(host.storage) {
        Ok(admin_address) => Ok(Config { admin_address }),
        Err(error) => Err(error),
    }
}

/// `cw_storage_plus::Map::has` for a poll: whether anything is stored under
/// the question, be it a poll or not.
#[verifier::external_body]
pub(crate) fn has_poll(host: &Host, namespace: &str, question: &String) -> (found: bool)
    requires
        namespace@ == POLLS_NAMESPACE@,
    ensures
        found == host_ledger(*host).polls.contains_key(question@),
{
    let polls = cw_storage_plus::Map::<String, (String, u64, u64)>::new(namespace);
    polls.has(&*host.storage, question.clone())
}

/// `cw_storage_plus::Map::load` for a poll. It gives the poll where one is
/// stored under the question and parses, and fails where nothing is stored
/// there or what is stored does not parse.
#[verifier::external_body]
pub(crate) fn load_poll(
    host: &Host,
    namespace: &str,
    question: &String,
) -> (loaded: Result<Poll, StdError>)
    requires
        namespace@ == POLLS_NAMESPACE@,
    ensures
        loaded matches Ok(poll) ==> host_ledger(*host).polls.contains_key(question@)
            && host_ledger(*host).polls[question@] == Record::Intact(poll@),
        loaded is Err ==> !host_ledger(*host).polls.contains_key(question@)
            || host_ledger(*host).polls[question@] == Record::<PollView>::Garbled,
{
    let polls = cw_storage_plus::Map::<String, (String, u64, u64)>::new(namespace);
    match polls.load(&*host.storage, question.clone()) {
        Ok((question, yes_votes, no_votes)) => Ok(Poll { question, yes_votes, no_votes }),
        Err(error) => Err(error),
    }
}

/// `cw_storage_plus::Map::may_load` for a poll. It gives `None` where nothing
/// is stored under the question and the poll where one is stored and parses,
/// and fails where what is stored does not parse.
#[verifier::external_body]
pub(crate) fn may_load_poll(
    host: &HostRef,
    namespace: &str,
    question: &String,
) -> (loaded: Result<Option<Poll>, StdError>)
    requires
        namespace@ == POLLS_NAMESPACE@,
    ensures
        loaded is Ok && loaded->Ok_0 is None ==> !host_ref_ledger(*host).polls.contains_key(
            question@,
        ),
        loaded matches Ok(Some(poll)) ==> host_ref_ledger(*host).polls.contains_key(question@)
            && host_ref_ledger(*host).polls[question@] == Record::Intact(poll@),
        loaded is Err ==> host_ref_ledger(*host).polls.contains_key(question@)
            && host_ref_ledger(*host).polls[question@] == Record::<PollView>::Garbled,
{
    let polls = cw_storage_plus::Map::<String, (String, u64, u64)>::new(namespace);
    match polls.may_load(host.storage, question.clone()) {
        Ok(Some((question, yes_votes, no_votes))) => Ok(
            Some(Poll { question, yes_votes, no_votes }),
        ),
        Ok(None) => Ok(None),
        Err(error) => Err(error),
    }
}

/// `cw_storage_plus::Map::save` for a poll. On success the poll reads back
/// under the question, in place of what was there, and nothing else has
/// changed. It fails where the poll cannot be serialised, and only there, and
/// then writes nothing.
#[verifier::external_body]
pub(crate) fn save_poll(
    host: &mut Host,
    namespace: &str,
    question: &String,
    poll: &Poll,
) -> (written: Result<(), StdError>)
    requires
        namespace@ == POLLS_NAMESPACE@,
    ensures
        written is Ok <==> poll_is_storable(poll@),
        written is Ok ==> host_ledger(*final(host)) == host_ledger(*old(host)).with_poll(
            question@,
            poll@,
        ),
        written is Err ==> host_ledger(*final(host)) == host_ledger(*old(host)),
{
    let polls = cw_storage_plus::Map::<String, (String, u64, u64)>::new(namespace);
    let row = (poll.question.clone(), poll.yes_votes, poll.no_votes);
    polls.save(&mut *host.storage, question.clone(), &row)
}

/// `ToString::to_string` for `StdError`: the message that its `Display` writes.
#[verifier::external_body]
pub(crate) fn std_error_message(error: &StdError) -> (text: String)
    ensures
        text@ == std_error_text(*error),
{
    error.to_string()
}

/// `Response::new`: a response that carries nothing.
#[verifier::external_body]
pub(crate) fn new_response() -> (response: Response)
    ensures
        response_attributes(response) == Seq::<(Seq<char>, Seq<char>)>::empty(),
        response_extras(response) == 0,
{
    Response::new()
}

/// `Response::add_attribute`: the same response with one more attribute at
/// the end. A key that starts with an underscore is reserved: a debug build
/// panics on it.
#[verifier::external_body]
pub(crate) fn add_attribute(response: Response, key: &str, value: &str) -> (extended: Response)
    requires
        key@.len() == 0 || key@[0] != '_',
    ensures
        response_attributes(extended) == response_attributes(response).push((key@, value@)),
        response_extras(extended) == response_extras(response),
{
    response.add_attribute(key, value)
}

} // verus!
