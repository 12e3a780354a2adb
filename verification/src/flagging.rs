//! The flags that were raised against facts, and what a flagger may do.
//!
//! All flags stand in one list, whatever the kind of animal they speak of,
//! and share one space of ids.

use vstd::prelude::*;

use crate::credentials::{match_key, matched};
use crate::random::next_u64;
use crate::store::{first_unused, ids_of, lemma_push_keeps_unique, unique_ids, unused_id};
use crate::{
    APIState, Animal, Config, CreatedAction, FactFlag, FactFlagRequest, Failure, Flagger, Outcome,
    Reply, Resource,
};

verus! {

/// The ids of the facts that the flags speak of, in the order of the flags.
pub open spec fn flagged_ids(flags: Seq<FactFlag>) -> Seq<u64> {
    flags.map_values(|flag: FactFlag| flag.fact_id)
}

/// The list `before` with one flag more at its end, which holds what was
/// handed in under an id that no flag of `before` carries.
pub open spec fn raised(
    before: Seq<FactFlag>,
    after: Seq<FactFlag>,
    fact_type: Animal,
    fact_id: u64,
    reason: Option<String>,
    flagger: String,
) -> bool {
    &&& after.len() == before.len() + 1
    &&& after.drop_last() == before
    &&& after.last().fact_type == fact_type
    &&& after.last().fact_id == fact_id
    &&& after.last().reason == reason
    &&& after.last().flagger == flagger
    &&& !ids_of(before).contains(after.last().id)
}

/// A copy of the flags, in their order.
pub fn list(flags: &Vec<FactFlag>) -> (copy: Vec<FactFlag>)
    ensures
        copy@ == flags@,
{
    let mut copy: Vec<FactFlag> = Vec::new();
    let mut i: usize = 0;
    while i < flags.len()
        invariant
            i <= flags.len(),
            copy@ == flags@.take(i as int),
        decreases flags.len() - i,
    {
        copy.push(flags[i].clone());
        assert(flags@.take(i + 1) == flags@.take(i as int).push(flags@[i as int]));
        i = i + 1;
    }
    assert(flags@.take(i as int) == flags@);
    copy
}

/// Whether some flag of the list speaks of the fact with the given id.
pub fn is_flagged(flags: &Vec<FactFlag>, fact_id: u64) -> (found: bool)
    ensures
        found == flagged_ids(flags@).contains(fact_id),
{
    let mut i: usize = 0;
    while i < flags.len()
        invariant
            i <= flags.len(),
            forall|j: int| 0 <= j < i ==> flagged_ids(flags@)[j] != fact_id,
        decreases flags.len() - i,
    {
        if flags[i].fact_id == fact_id {
            assert(flagged_ids(flags@)[i as int] == fact_id);
            return true;
        }
        i = i + 1;
    }
    false
}

/// Raises a flag against the fact with the given id, if a flag of the list
/// speaks of that fact already; else the list stays as it is and nothing is
/// handed back.
///
/// The facts themselves are not looked at. A fact that nobody has flagged
/// before cannot be flagged this way, and one that was deleted can be for as
/// long as an older flag still names it.
///
/// The new flag goes to the end of the list. Its id is `start` where no flag
/// carries that yet, else the first free value counting up from `start`.
pub fn insert_from(
    flags: &mut Vec<FactFlag>,
    start: u64,
    fact_type: Animal,
    fact_id: u64,
    reason: Option<String>,
    flagger: String,
) -> (created: Option<FactFlag>)
    ensures
        created is Some <==> flagged_ids(old(flags)@).contains(fact_id),
        match created {
            Some(flag) => {
                &&& first_unused(ids_of(old(flags)@), start, flag.id)
                &&& final(flags)@ == old(flags)@.push(flag)
                &&& raised(old(flags)@, final(flags)@, fact_type, fact_id, reason, flagger)
            },
            None => final(flags)@ == old(flags)@,
        },
        unique_ids(old(flags)@) ==> unique_ids(final(flags)@),
{
    if !is_flagged(flags, fact_id) {
        return None;
    }
    let id: u64 = unused_id(flags, start);
    let created = FactFlag { id, fact_type, fact_id, reason, flagger };
    let copy = created.clone();
    proof {
        if unique_ids(flags@) {
            lemma_push_keeps_unique(flags@, created);
        }
        assert(flags@.push(created).drop_last() == flags@);
    }
    flags.push(created);
    Some(copy)
}

/// Raises a flag as [`insert_from`] does, under a random id that no flag of
/// the list carries yet.
pub fn insert(
    flags: &mut Vec<FactFlag>,
    fact_type: Animal,
    fact_id: u64,
    reason: Option<String>,
    flagger: String,
) -> (created: Option<FactFlag>)
    ensures
        created is Some <==> flagged_ids(old(flags)@).contains(fact_id),
        match created {
            Some(flag) => {
                &&& !ids_of(old(flags)@).contains(flag.id)
                &&& final(flags)@ == old(flags)@.push(flag)
                &&& raised(old(flags)@, final(flags)@, fact_type, fact_id, reason, flagger)
            },
            None => final(flags)@ == old(flags)@,
        },
        unique_ids(old(flags)@) ==> unique_ids(final(flags)@),
{
    let mut rng = rand::thread_rng();
    let start: u64 = next_u64(&mut rng);
    insert_from(flags, start, fact_type, fact_id, reason, flagger)
}

/// Finds the flagger whose key was handed in. With no flaggers configured
/// nobody is found.
pub fn check_flagger(unchecked_auth: String, flagger_list: &[Flagger]) -> (found: Option<Flagger>)
    ensures
        found == matched(unchecked_auth@, flagger_list@),
        flagger_list@.len() == 0 ==> found is None,
{
    match match_key(unchecked_auth.as_str(), flagger_list) {
        Some(flagger) => Some(flagger.clone()),
        None => None,
    }
}

/// What stands between a submission and the list of flags: flagging must be
/// switched on and loaded, and the key must be a flagger's. Where flagging is
/// off, no key is looked at.
pub open spec fn submission_gate(config: Config, loaded: bool, key: Seq<char>) -> Result<
    Flagger,
    Failure,
> {
    if !config.flagging_enabled || !loaded {
        Err(Failure::NotLoaded)
    } else {
        match matched(key, config.flaggers@) {
            Some(flagger) => Ok(flagger),
            None => Err(Failure::BadAuth),
        }
    }
}

/// The name under which a submission is filed: the one that came with it,
/// else the place of the flagger who sent it.
pub open spec fn filed_under(flagger: Flagger, body: FactFlagRequest) -> String {
    match body.flagger {
        Some(name) => name,
        None => flagger.location,
    }
}

/// What a submission of `flagger` does to the list of flags, and how it ends.
pub open spec fn submitted(
    flagger: Flagger,
    body: FactFlagRequest,
    before: Seq<FactFlag>,
    after: Seq<FactFlag>,
    outcome: Outcome,
) -> bool {
    if flagged_ids(before).contains(body.fact_id) {
        &&& raised(
            before,
            after,
            body.fact_type,
            body.fact_id,
            body.reason,
            filed_under(flagger, body),
        )
        &&& outcome.reply == Reply::Created(CreatedAction::Flag)
        &&& outcome.persist == Some(Resource::Flags)
    } else {
        after == before && outcome.is_refusal(Failure::IdNotFound)
    }
}

/// Decides whether a submission under `key` may go on to the list of flags,
/// and on whose behalf. `loaded` says whether there is a list of flags.
pub fn admit_submission(config: &Config, loaded: bool, key: String) -> (admitted: Result<
    Flagger,
    Failure,
>)
    ensures
        admitted == submission_gate(*config, loaded, key@),
{
    if !config.flagging_enabled || !loaded {
        return Err(Failure::NotLoaded);
    }
    match check_flagger(key, config.flaggers.as_slice()) {
        Some(flagger) => Ok(flagger),
        None => Err(Failure::BadAuth),
    }
}

/// Files the submission of an admitted flagger in the list of flags.
pub fn submit(flags: &mut Vec<FactFlag>, flagger: Flagger, body: FactFlagRequest) -> (outcome:
    Outcome)
    ensures
        submitted(flagger, body, old(flags)@, final(flags)@, outcome),
        unique_ids(old(flags)@) ==> unique_ids(final(flags)@),
{
    let name = match body.flagger {
        Some(name) => name,
        None => flagger.location,
    };
    match insert(flags, body.fact_type, body.fact_id, body.reason, name) {
        Some(_) => Outcome {
            reply: Reply::Created(CreatedAction::Flag),
            persist: Some(Resource::Flags),
        },
        None => Outcome::refused(Failure::IdNotFound),
    }
}

/// Handles the submission of a flag from start to end.
///
/// Flagging that is switched off or not loaded is answered before the key is
/// looked at. Facts and settings are never touched.
pub fn set_flag(state: &mut APIState, body: FactFlagRequest) -> (outcome: Outcome)
    ensures
        final(state).config == old(state).config,
        final(state).fact_lists == old(state).fact_lists,
        final(state).fact_flags is Some <==> old(state).fact_flags is Some,
        match submission_gate(old(state).config, old(state).fact_flags is Some, body.key@) {
            Ok(flagger) => {
                &&& final(state).fact_flags is Some
                &&& submitted(
                    flagger,
                    body,
                    old(state).fact_flags->0@,
                    final(state).fact_flags->0@,
                    outcome,
                )
            },
            Err(failure) => {
                &&& outcome.is_refusal(failure)
                &&& final(state).fact_flags == old(state).fact_flags
            },
        },
        old(state).wf() ==> final(state).wf(),
{
    let loaded: bool = state.fact_flags.is_some();
    let flagger = match admit_submission(&state.config, loaded, body.key.clone()) {
        Ok(flagger) => flagger,
        Err(failure) => {
            return Outcome::refused(failure);
        },
    };
    match &mut state.fact_flags {
        Some(flags) => submit(flags, flagger, body),
        None => Outcome::refused(Failure::NotLoaded),
    }
}

} // verus!
