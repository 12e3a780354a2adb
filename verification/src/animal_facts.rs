//! The facts, one list for each kind of animal, and the operations on a list.

use vstd::prelude::*;

use crate::admin::determine_list;
use crate::random::{next_u64, pick_one};
use crate::store::{first_unused, ids_of, lemma_push_keeps_unique, unique_ids, unused_id, Identified};
use crate::{Animal, Failure, Reply, ReplyView};

verus! {

/// A fact about one kind of animal. It never changes once it is made: to
/// correct a fact is to delete it and add another.
#[derive(Debug, PartialEq)]
pub struct Fact {
    pub id: u64,
    pub content: String,
}

impl Clone for Fact {
    fn clone(&self) -> (copy: Self)
        ensures
            copy == *self,
    {
        Fact { id: self.id, content: self.content.clone() }
    }
}

impl Identified for Fact {
    open spec fn ident(&self) -> u64 {
        self.id
    }

    fn id(&self) -> (id: u64) {
        self.id
    }
}

/// The facts that are loaded, by kind. A kind without a list is not loaded,
/// and stays so.
#[derive(Debug)]
pub struct FactLists {
    pub cat_facts: Option<Vec<Fact>>,
    pub dog_facts: Option<Vec<Fact>>,
}

impl Default for FactLists {
    fn default() -> (lists: Self)
        ensures
            lists.cat_facts is None,
            lists.dog_facts is None,
            lists.wf(),
    {
        FactLists { cat_facts: None, dog_facts: None }
    }
}

impl FactLists {
    /// The list of a kind, if the kind is loaded.
    pub open spec fn of(self, animal: Animal) -> Option<Vec<Fact>> {
        match animal {
            Animal::Cat => self.cat_facts,
            Animal::Dog => self.dog_facts,
        }
    }

    /// In no list do two facts carry the same id.
    pub open spec fn wf(self) -> bool {
        &&& self.cat_facts matches Some(facts) ==> unique_ids(facts@)
        &&& self.dog_facts matches Some(facts) ==> unique_ids(facts@)
    }

    /// Whether the kind is loaded.
    pub fn is_loaded(&self, animal: Animal) -> (loaded: bool)
        ensures
            loaded == self.of(animal) is Some,
    {
        match animal {
            Animal::Cat => self.cat_facts.is_some(),
            Animal::Dog => self.dog_facts.is_some(),
        }
    }
}

/// The list `before` with one fact more at its end, which holds `content`
/// under an id that no fact of `before` carries.
pub open spec fn appended(before: Seq<Fact>, after: Seq<Fact>, content: String) -> bool {
    &&& after.len() == before.len() + 1
    &&& after.drop_last() == before
    &&& after.last().content == content
    &&& !ids_of(before).contains(after.last().id)
}

/// A copy of the facts, in their order.
pub fn list(facts: &Vec<Fact>) -> (copy: Vec<Fact>)
    ensures
        copy@ == facts@,
{
    let mut copy: Vec<Fact> = Vec::new();
    let mut i: usize = 0;
    while i < facts.len()
        invariant
            i <= facts.len(),
            copy@ == facts@.take(i as int),
        decreases facts.len() - i,
    {
        copy.push(facts[i].clone());
        assert(facts@.take(i + 1) == facts@.take(i as int).push(facts@[i as int]));
        i = i + 1;
    }
    assert(facts@.take(i as int) == facts@);
    copy
}

/// Picks one of the facts at random. Of an empty list nothing is picked.
pub fn random_pick(facts: &Vec<Fact>) -> (picked: Option<&Fact>)
    ensures
        picked is None <==> facts@.len() == 0,
        picked matches Some(fact) ==> facts@.contains(*fact) && ids_of(facts@).contains(fact.id),
{
    let mut rng = rand::thread_rng();
    let picked = pick_one(facts.as_slice(), &mut rng);
    proof {
        if let Some(fact) = picked {
            let at: int = choose|at: int| 0 <= at < facts@.len() && facts@[at] == *fact;
            assert(ids_of(facts@)[at] == fact.id);
        }
    }
    picked
}

/// Puts a new fact with the given content at the end of the list and hands
/// back a copy of it. Its id is `start` where no fact carries that yet, else
/// the first free value counting up from `start`.
pub fn insert_from(facts: &mut Vec<Fact>, start: u64, content: String) -> (created: Fact)
    ensures
        first_unused(ids_of(old(facts)@), start, created.id),
        created.content == content,
        final(facts)@ == old(facts)@.push(created),
        appended(old(facts)@, final(facts)@, content),
        unique_ids(old(facts)@) ==> unique_ids(final(facts)@),
{
    let id: u64 = unused_id(facts, start);
    let created = Fact { id, content };
    let copy = created.clone();
    proof {
        if unique_ids(facts@) {
            lemma_push_keeps_unique(facts@, created);
        }
        assert(facts@.push(created).drop_last() == facts@);
    }
    facts.push(created);
    copy
}

/// Puts a new fact with the given content at the end of the list, under a
/// random id that no fact of the list carries yet, and hands back a copy of
/// it.
pub fn insert(facts: &mut Vec<Fact>, content: String) -> (created: Fact)
    ensures
        created.content == content,
        !ids_of(old(facts)@).contains(created.id),
        final(facts)@ == old(facts)@.push(created),
        appended(old(facts)@, final(facts)@, content),
        unique_ids(old(facts)@) ==> unique_ids(final(facts)@),
{
    let mut rng = rand::thread_rng();
    let start: u64 = next_u64(&mut rng);
    insert_from(facts, start, content)
}

/// What is said to a request for a random fact out of `list`: one of its
/// facts, or that nothing is loaded where there is no list or no fact in it.
pub fn pick_reply(list: Option<&Vec<Fact>>) -> (reply: Reply)
    ensures
        match list {
            Some(facts) if facts@.len() > 0 => reply@ matches ReplyView::Fact(fact)
                && facts@.contains(fact) && ids_of(facts@).contains(fact.id),
            _ => reply@ == ReplyView::Failed(Failure::NotLoaded),
        },
{
    match list {
        Some(facts) => match random_pick(facts) {
            Some(fact) => Reply::Fact(fact.clone()),
            None => Reply::Failed(Failure::NotLoaded),
        },
        None => Reply::Failed(Failure::NotLoaded),
    }
}

/// Answers a request for a random fact about cats.
pub fn get_cat_fact(lists: &FactLists) -> (reply: Reply)
    ensures
        match lists.cat_facts {
            Some(facts) if facts@.len() > 0 => reply@ matches ReplyView::Fact(fact)
                && facts@.contains(fact) && ids_of(facts@).contains(fact.id),
            _ => reply@ == ReplyView::Failed(Failure::NotLoaded),
        },
{
    pick_reply(determine_list(Animal::Cat, lists))
}

/// Answers a request for a random fact about dogs.
pub fn get_dog_fact(lists: &FactLists) -> (reply: Reply)
    ensures
        match lists.dog_facts {
            Some(facts) if facts@.len() > 0 => reply@ matches ReplyView::Fact(fact)
                && facts@.contains(fact) && ids_of(facts@).contains(fact.id),
            _ => reply@ == ReplyView::Failed(Failure::NotLoaded),
        },
{
    pick_reply(determine_list(Animal::Dog, lists))
}

} // verus!
