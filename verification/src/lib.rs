//! The core of a small service that hands out facts about animals, takes
//! flags that users raise against facts, and lets administrators list, add and
//! delete both.
//!
//! Everything here works on values in memory and decides; it performs no
//! input or output. A caller that shares the lists between threads guards each
//! list with a lock of its own and calls the operations of
//! [`animal_facts`] and [`flagging`], or the steps of [`admin`], while it
//! holds that lock. After a call whose [`Outcome`] names a [`Resource`], the
//! caller writes the list of that resource to its file before it lets go of
//! the lock.
//!
//! The collections are modelled by the sequences of their items (`@`), the
//! items by their fields, and text by its characters.

use vstd::prelude::*;

use crate::animal_facts::{Fact, FactLists};
use crate::credentials::Principal;
use crate::store::{first_repeat, first_repeated_id, ids_of, unique_ids, Identified};
use crate::text::{join_path, joined};

pub mod admin;
pub mod animal_facts;
pub mod credentials;
pub mod flagging;
pub mod laws;
pub mod permissions;
pub mod random;
pub mod store;
pub mod text;

verus! {

/// What an administrator may do, one switch for each action.
#[derive(Clone, Copy, Debug, PartialEq, Eq, Structural)]
pub struct Perms {
    pub view_facts: bool,
    pub add_fact: bool,
    pub delete_fact: bool,
    pub view_flags: bool,
    pub add_flag: bool,
    pub delete_flag: bool,
}

/// An administrator, known by a secret key.
#[derive(Clone, Debug, PartialEq)]
pub struct Admin {
    pub name: String,
    pub key: String,
    pub permissions: Perms,
}

impl Principal for Admin {
    open spec fn secret(&self) -> Seq<char> {
        self.key@
    }

    fn key(&self) -> (key: &str) {
        self.key.as_str()
    }
}

/// The settings that the service is started with. They do not change while it
/// runs.
#[derive(Clone, Debug)]
pub struct Config {
    pub logging_dir: String,
    pub logging_level: String,
    pub facts_dir: String,
    pub animal_fact_types: Vec<Animal>,
    pub flagging_enabled: bool,
    pub flaggers: Vec<Flagger>,
    pub admins: Vec<Admin>,
}

impl Config {
    /// Whether facts about the kind are to be served.
    pub open spec fn serves(self, animal: Animal) -> bool {
        self.animal_fact_types@.contains(animal)
    }

    /// Whether facts about the kind are to be served.
    pub fn is_served(&self, animal: Animal) -> (served: bool)
        ensures
            served == self.serves(animal),
    {
        let mut i: usize = 0;
        while i < self.animal_fact_types.len()
            invariant
                i <= self.animal_fact_types.len(),
                forall|j: int| 0 <= j < i ==> self.animal_fact_types@[j] != animal,
            decreases self.animal_fact_types.len() - i,
        {
            if self.animal_fact_types[i] == animal {
                return true;
            }
            i = i + 1;
        }
        false
    }
}

/// What an administrator sends to list, add or delete facts.
#[derive(Clone, Debug)]
pub struct AdminFactRequest {
    /// Read when a fact is deleted.
    pub fact_id: Option<u64>,
    /// Read when a fact is added.
    pub fact_content: Option<String>,
    pub animal_type: Animal,
    pub key: String,
}

/// What the last part of an administrative path asks for.
#[derive(Clone, Copy, Debug, PartialEq, Eq, Structural)]
pub enum AdminAction {
    Add,
    Delete,
    View,
}

impl AdminAction {
    /// The word for the action.
    pub open spec fn label(self) -> &'static str {
        match self {
            AdminAction::Add => "add",
            AdminAction::Delete => "delete",
            AdminAction::View => "view",
        }
    }

    /// The word for the action, as it is written in messages.
    pub fn as_str(self) -> (word: &'static str)
        ensures
            word == self.label(),
    {
        match self {
            AdminAction::Add => "add",
            AdminAction::Delete => "delete",
            AdminAction::View => "view",
        }
    }
}

/// What an administrator sends to list, add or delete flags.
#[derive(Clone, Debug)]
pub struct AdminFlagRequest {
    pub key: String,
    pub fact_id: Option<u64>,
    pub flag_id: Option<u64>,
    pub reason: Option<String>,
    pub fact_type: Option<Animal>,
}

/// Someone who may raise flags, known by a secret key.
#[derive(Debug, PartialEq)]
pub struct Flagger {
    pub location: String,
    pub key: String,
}

impl Clone for Flagger {
    fn clone(&self) -> (copy: Self)
        ensures
            copy == *self,
    {
        Flagger { location: self.location.clone(), key: self.key.clone() }
    }
}

impl Principal for Flagger {
    open spec fn secret(&self) -> Seq<char> {
        self.key@
    }

    fn key(&self) -> (key: &str) {
        self.key.as_str()
    }
}

/// What a flagger sends to raise a flag.
#[derive(Clone, Debug)]
pub struct FactFlagRequest {
    pub fact_type: Animal,
    pub fact_id: u64,
    pub reason: Option<String>,
    pub key: String,
    /// Who raised the flag, where the flagger passes on the flags of others.
    /// The key is still the flagger's own.
    pub flagger: Option<String>,
}

/// A flag raised against a fact. It names the fact by kind and id and does
/// not keep it alive: the fact may be deleted while the flag stays.
#[derive(Debug, PartialEq)]
pub struct FactFlag {
    pub id: u64,
    pub fact_type: Animal,
    pub fact_id: u64,
    pub reason: Option<String>,
    pub flagger: String,
}

impl Clone for FactFlag {
    fn clone(&self) -> (copy: Self)
        ensures
            copy == *self,
    {
        FactFlag {
            id: self.id,
            fact_type: self.fact_type,
            fact_id: self.fact_id,
            reason: match &self.reason {
                Some(reason) => Some(reason.clone()),
                None => None,
            },
            flagger: self.flagger.clone(),
        }
    }
}

impl Identified for FactFlag {
    open spec fn ident(&self) -> u64 {
        self.id
    }

    fn id(&self) -> (id: u64) {
        self.id
    }
}

/// The kinds of animal that facts are kept about.
#[derive(Clone, Copy, Debug, PartialEq, Eq, Structural)]
pub enum Animal {
    Cat,
    Dog,
}

impl Animal {
    /// The name of the kind.
    pub open spec fn label(self) -> &'static str {
        match self {
            Animal::Cat => "Cat",
            Animal::Dog => "Dog",
        }
    }

    /// The name of the file that holds the facts of the kind.
    pub open spec fn file_name(self) -> &'static str {
        match self {
            Animal::Cat => "cat_facts.json",
            Animal::Dog => "dog_facts.json",
        }
    }

    /// The name of the kind, as it is written in messages.
    pub fn as_str(self) -> (name: &'static str)
        ensures
            name == self.label(),
    {
        match self {
            Animal::Cat => "Cat",
            Animal::Dog => "Dog",
        }
    }

    /// The file inside `dir` that holds the facts of the kind.
    pub fn get_filepath(self, dir: &str) -> (path: String)
        ensures
            path@ == joined(dir@, self.file_name()@),
    {
        match self {
            Animal::Cat => join_path(dir, "cat_facts.json"),
            Animal::Dog => join_path(dir, "dog_facts.json"),
        }
    }
}

/// A thing that was made on request.
#[derive(Clone, Copy, Debug, PartialEq, Eq, Structural)]
pub enum CreatedAction {
    Fact { animal: Animal },
    Flag,
}

impl CreatedAction {
    /// The words that confirm that the thing was made.
    pub open spec fn label(self) -> &'static str {
        match self {
            CreatedAction::Fact { animal } => match animal {
                Animal::Cat => "Cat fact added",
                Animal::Dog => "Dog fact added",
            },
            CreatedAction::Flag => "Flag set",
        }
    }

    /// The words that confirm that the thing was made.
    pub fn as_str(self) -> (words: &'static str)
        ensures
            words == self.label(),
    {
        match self {
            CreatedAction::Fact { animal } => match animal {
                Animal::Cat => "Cat fact added",
                Animal::Dog => "Dog fact added",
            },
            CreatedAction::Flag => "Flag set",
        }
    }
}

/// Why a request was turned down.
#[derive(Clone, Copy, Debug, PartialEq, Eq, Structural)]
pub enum Failure {
    /// The kind of animal, or flagging as a whole, is not loaded.
    NotLoaded,
    /// The key is an administrator's, who may not do what was asked.
    MissingPerms,
    /// The key is nobody's.
    BadAuth,
    /// A fact was to be added and no content came with the request.
    NoContentSpecified,
    /// Nothing carries the id that the request names.
    IdNotFound,
    /// A flag was to be added and no kind of animal came with the request.
    NoTypeSupplied,
    /// The request needs an id and none came with it.
    NoIdSupplied,
}

impl Failure {
    /// The status code that goes with the failure.
    pub open spec fn status(self) -> u16 {
        match self {
            Failure::NotLoaded => 501,
            Failure::MissingPerms => 401,
            Failure::BadAuth => 401,
            Failure::NoContentSpecified => 400,
            Failure::IdNotFound => 404,
            Failure::NoTypeSupplied => 400,
            Failure::NoIdSupplied => 400,
        }
    }

    /// The words that go with the failure.
    pub open spec fn words(self) -> &'static str {
        match self {
            Failure::NotLoaded => "The requested feature is not currently loaded!",
            Failure::MissingPerms => "Missing Permission",
            Failure::BadAuth => "Invalid authorization",
            Failure::NoContentSpecified => "No content was specified",
            Failure::IdNotFound => "The requested ID doesn't exist",
            Failure::NoTypeSupplied => "The animal type was not specified",
            Failure::NoIdSupplied => "An ID was not specified",
        }
    }

    /// The message that tells the caller of the failure.
    pub open spec fn body(self) -> JsonResp {
        JsonResp { code: self.status(), message: self.words() }
    }

    /// The message that tells the caller of the failure.
    pub fn response(self) -> (resp: JsonResp)
        ensures
            resp == self.body(),
    {
        match self {
            Failure::NotLoaded => JsonResp::new(
                501,
                "The requested feature is not currently loaded!",
            ),
            Failure::MissingPerms => JsonResp::new(401, "Missing Permission"),
            Failure::BadAuth => JsonResp::new(401, "Invalid authorization"),
            Failure::NoContentSpecified => JsonResp::new(400, "No content was specified"),
            Failure::IdNotFound => JsonResp::new(404, "The requested ID doesn't exist"),
            Failure::NoTypeSupplied => JsonResp::new(400, "The animal type was not specified"),
            Failure::NoIdSupplied => JsonResp::new(400, "An ID was not specified"),
        }
    }
}

/// A message to the caller: a status code and a few words.
#[derive(Clone, Copy, Debug, PartialEq)]
pub struct JsonResp {
    pub code: u16,
    pub message: &'static str,
}

impl JsonResp {
    /// Makes a message of a code and a few words.
    pub fn new(code: u16, message: &'static str) -> (resp: Self)
        ensures
            resp == (JsonResp { code, message }),
    {
        JsonResp { code, message }
    }
}

/// The statuses under which a message is sent.
#[derive(Clone, Copy, Debug, PartialEq, Eq, Structural)]
pub enum Status {
    Created,
    NotImplemented,
    Unauthorized,
    BadRequest,
    NotFound,
}

impl Status {
    /// The status with the given code, if messages are sent under it.
    pub open spec fn of(code: u16) -> Option<Status> {
        if code == 201 {
            Some(Status::Created)
        } else if code == 501 {
            Some(Status::NotImplemented)
        } else if code == 401 {
            Some(Status::Unauthorized)
        } else if code == 400 {
            Some(Status::BadRequest)
        } else if code == 404 {
            Some(Status::NotFound)
        } else {
            None
        }
    }
}

/// What is said to the caller.
#[derive(Debug, PartialEq)]
pub enum Reply {
    /// The request was turned down; the message of the failure is sent under
    /// its status code.
    Failed(Failure),
    /// Something was made: status 201, with a message that says what.
    Created(CreatedAction),
    /// Something was deleted: status 204, with nothing to read.
    Deleted,
    /// Status 200, with the facts of a list.
    Facts(Vec<Fact>),
    /// Status 200, with one fact.
    Fact(Fact),
    /// Status 200, with the flags.
    Flags(Vec<FactFlag>),
}

/// A reply, with what it carries as sequences.
pub enum ReplyView {
    Failed(Failure),
    Created(CreatedAction),
    Deleted,
    Facts(Seq<Fact>),
    Fact(Fact),
    Flags(Seq<FactFlag>),
}

impl View for Reply {
    type V = ReplyView;

    open spec fn view(&self) -> ReplyView {
        match *self {
            Reply::Failed(failure) => ReplyView::Failed(failure),
            Reply::Created(created) => ReplyView::Created(created),
            Reply::Deleted => ReplyView::Deleted,
            Reply::Facts(facts) => ReplyView::Facts(facts@),
            Reply::Fact(fact) => ReplyView::Fact(fact),
            Reply::Flags(flags) => ReplyView::Flags(flags@),
        }
    }
}

impl ReplyView {
    /// The status code of the reply.
    pub open spec fn status(self) -> u16 {
        match self {
            ReplyView::Failed(failure) => failure.status(),
            ReplyView::Created(_) => 201,
            ReplyView::Deleted => 204,
            ReplyView::Facts(_) => 200,
            ReplyView::Fact(_) => 200,
            ReplyView::Flags(_) => 200,
        }
    }

    /// The message of the reply, where it is one.
    pub open spec fn message(self) -> Option<JsonResp> {
        match self {
            ReplyView::Failed(failure) => Some(failure.body()),
            ReplyView::Created(created) => Some(JsonResp { code: 201, message: created.label() }),
            _ => None,
        }
    }
}

impl Reply {
    /// The status code of the reply.
    pub fn status(&self) -> (code: u16)
        ensures
            code == self@.status(),
    {
        match self {
            Reply::Failed(failure) => failure.response().code,
            Reply::Created(_) => 201,
            Reply::Deleted => 204,
            Reply::Facts(_) => 200,
            Reply::Fact(_) => 200,
            Reply::Flags(_) => 200,
        }
    }

    /// The message of the reply, where it is one: the replies that carry
    /// facts or flags, or nothing, have none. A message always goes out under
    /// a status that [`generate_response`] knows.
    pub fn message(&self) -> (message: Option<JsonResp>)
        ensures
            message == self@.message(),
            message matches Some(resp) ==> resp.code == self@.status() && Status::of(resp.code)
                is Some,
    {
        match self {
            Reply::Failed(failure) => Some(failure.response()),
            Reply::Created(created) => Some(JsonResp::new(201, created.as_str())),
            _ => None,
        }
    }
}

/// One of the lists, each of which is kept in a file of its own.
#[derive(Clone, Copy, Debug, PartialEq, Eq, Structural)]
pub enum Resource {
    Facts(Animal),
    Flags,
}

impl Resource {
    /// The name of the file that holds the list.
    pub open spec fn file_name(self) -> &'static str {
        match self {
            Resource::Facts(animal) => animal.file_name(),
            Resource::Flags => "fact_flags.json",
        }
    }

    /// The file inside `dir` that holds the list.
    pub fn get_filepath(self, dir: &str) -> (path: String)
        ensures
            path@ == joined(dir@, self.file_name()@),
    {
        match self {
            Resource::Facts(animal) => animal.get_filepath(dir),
            Resource::Flags => join_path(dir, "fact_flags.json"),
        }
    }
}

/// How a request ended: what is said to the caller, and the list that was
/// changed, if one was. The caller writes that list to its file before
/// anyone else may touch the list.
#[derive(Debug, PartialEq)]
pub struct Outcome {
    pub reply: Reply,
    pub persist: Option<Resource>,
}

impl Outcome {
    /// The request was turned down and nothing was changed.
    pub open spec fn is_refusal(self, failure: Failure) -> bool {
        self.reply@ == ReplyView::Failed(failure) && self.persist is None
    }

    /// The outcome of a request that was turned down.
    pub fn refused(failure: Failure) -> (outcome: Self)
        ensures
            outcome.is_refusal(failure),
    {
        Outcome { reply: Reply::Failed(failure), persist: None }
    }
}

/// All that the service holds while it runs: its settings, the facts and the
/// flags. Without a list of flags, flagging is not loaded.
#[derive(Debug)]
pub struct APIState {
    pub config: Config,
    pub fact_lists: FactLists,
    pub fact_flags: Option<Vec<FactFlag>>,
}

impl APIState {
    /// No list repeats an id.
    pub open spec fn wf(self) -> bool {
        &&& self.fact_lists.wf()
        &&& self.fact_flags matches Some(flags) ==> unique_ids(flags@)
    }
}

/// Why the lists that were read at the start cannot be served.
#[derive(Clone, Copy, Debug, PartialEq, Eq, Structural)]
pub enum LoadError {
    /// Two facts of one kind carry the same id.
    RepeatedFactId { animal: Animal, id: u64 },
    /// Two flags carry the same id.
    RepeatedFlagId { id: u64 },
}

/// The list that the facts read for a kind make: none where the kind is not
/// to be served, where nothing could be read for it, or where what was read
/// holds no fact.
pub open spec fn facts_to_load(config: Config, animal: Animal, file: Option<Vec<Fact>>) -> Option<
    Vec<Fact>,
> {
    match file {
        Some(facts) => if config.serves(animal) && facts@.len() > 0 {
            Some(facts)
        } else {
            None
        },
        None => None,
    }
}

/// What is wrong with the list of a kind, if anything is.
pub open spec fn fact_fault(animal: Animal, list: Option<Vec<Fact>>) -> Option<LoadError> {
    match list {
        Some(facts) => if unique_ids(facts@) {
            None
        } else {
            Some(LoadError::RepeatedFactId { animal, id: first_repeated_id(ids_of(facts@)) })
        },
        None => None,
    }
}

/// The lists that are served after the start, or what is wrong with the
/// first of them that cannot be.
pub open spec fn lists_to_load(
    config: Config,
    cat_file: Option<Vec<Fact>>,
    dog_file: Option<Vec<Fact>>,
) -> Result<FactLists, LoadError> {
    let cat_facts = facts_to_load(config, Animal::Cat, cat_file);
    let dog_facts = facts_to_load(config, Animal::Dog, dog_file);
    match fact_fault(Animal::Cat, cat_facts) {
        Some(error) => Err(error),
        None => match fact_fault(Animal::Dog, dog_facts) {
            Some(error) => Err(error),
            None => Ok(FactLists { cat_facts, dog_facts }),
        },
    }
}

/// The flags that are served after the start, or what is wrong with them:
/// none where flagging is switched off or nothing could be read.
pub open spec fn flags_to_load(config: Config, file: Option<Vec<FactFlag>>) -> Result<
    Option<Vec<FactFlag>>,
    LoadError,
> {
    match file {
        Some(flags) => if !config.flagging_enabled {
            Ok(None)
        } else if unique_ids(flags@) {
            Ok(Some(flags))
        } else {
            Err(LoadError::RepeatedFlagId { id: first_repeated_id(ids_of(flags@)) })
        },
        None => Ok(None),
    }
}

/// Decides whether the facts read for a kind become its list.
fn load_facts(config: &Config, animal: Animal, file: Option<Vec<Fact>>) -> (loaded: Result<
    Option<Vec<Fact>>,
    LoadError,
>)
    ensures
        loaded == match fact_fault(animal, facts_to_load(*config, animal, file)) {
            Some(error) => Err(error),
            None => Ok(facts_to_load(*config, animal, file)),
        },
{
    match file {
        Some(facts) => {
            if !config.is_served(animal) || facts.len() == 0 {
                return Ok(None);
            }
            match first_repeat(&facts) {
                Some(at) => Err(LoadError::RepeatedFactId { animal, id: facts[at].id }),
                None => Ok(Some(facts)),
            }
        },
        None => Ok(None),
    }
}

/// Makes the lists of facts out of what was read at the start.
///
/// `cat_file` and `dog_file` hold what the files of the two kinds held, and
/// nothing where a file could not be read. A kind is loaded if it is to be
/// served and its file held at least one fact. A file in which two facts
/// carry the same id is refused, that of the cats first.
pub fn load_fact_lists(config: &Config, cat_file: Option<Vec<Fact>>, dog_file: Option<Vec<Fact>>)
    -> (loaded: Result<FactLists, LoadError>)
    ensures
        loaded == lists_to_load(*config, cat_file, dog_file),
        loaded matches Ok(lists) ==> lists.wf(),
{
    let cat_facts = match load_facts(config, Animal::Cat, cat_file) {
        Ok(facts) => facts,
        Err(error) => {
            return Err(error);
        },
    };
    let dog_facts = match load_facts(config, Animal::Dog, dog_file) {
        Ok(facts) => facts,
        Err(error) => {
            return Err(error);
        },
    };
    Ok(FactLists { cat_facts, dog_facts })
}

/// Makes the list of flags out of what was read at the start.
///
/// `file` holds what the file of the flags held, and nothing where it could
/// not be read. Flagging is loaded if it is switched on and the file could be
/// read, be it empty. A file in which two flags carry the same id is refused.
pub fn load_fact_flags(config: &Config, file: Option<Vec<FactFlag>>) -> (loaded: Result<
    Option<Vec<FactFlag>>,
    LoadError,
>)
    ensures
        loaded == flags_to_load(*config, file),
        loaded matches Ok(Some(flags)) ==> unique_ids(flags@),
{
    if !config.flagging_enabled {
        return Ok(None);
    }
    match file {
        Some(flags) => match first_repeat(&flags) {
            Some(at) => Err(LoadError::RepeatedFlagId { id: flags[at].id }),
            None => Ok(Some(flags)),
        },
        None => Ok(None),
    }
}

/// Picks the status under which a message is sent, by its code. There is
/// none for a code that no message of this crate carries.
pub fn generate_response(resp: &JsonResp) -> (status: Option<Status>)
    ensures
        status == Status::of(resp.code),
{
    if resp.code == 201 {
        Some(Status::Created)
    } else if resp.code == 501 {
        Some(Status::NotImplemented)
    } else if resp.code == 401 {
        Some(Status::Unauthorized)
    } else if resp.code == 400 {
        Some(Status::BadRequest)
    } else if resp.code == 404 {
        Some(Status::NotFound)
    } else {
        None
    }
}

} // verus!
