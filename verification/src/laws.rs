//! What holds of the operations of this crate taken together.
//!
//! Each law is stated over the same functions as the contracts of the
//! operations it speaks of, so that it can be held against them.

use vstd::prelude::*;

use crate::admin::{
    action_of, fact_request_gate, fact_step, flag_request_gate, flag_step, user_check,
};
use crate::animal_facts::{appended, Fact};
use crate::credentials::matched;
use crate::flagging::{raised, submission_gate, submitted};
use crate::permissions::{authorization, Action};
use crate::store::{
    ids_of, item_with_id, lemma_push_keeps_unique, lemma_without_id_keeps_unique, unique_ids,
    without_id, Identified,
};
use crate::{
    Admin, AdminAction, AdminFactRequest, AdminFlagRequest, Animal, Config, FactFlag,
    FactFlagRequest, Failure, Flagger, Outcome, Perms, Resource,
};

verus! {

/// An action is allowed exactly when its own switch is on.
pub proof fn law_the_switch_decides(perms: Perms, action: Action)
    ensures
        authorization(perms, action) is Allowed <==> perms.allows(action),
{
}

/// Two sets of permissions that agree on the switch of an action agree on
/// whether the action is allowed, whatever their other switches say.
pub proof fn law_other_switches_do_not_count(one: Perms, other: Perms, action: Action)
    requires
        one.allows(action) == other.allows(action),
    ensures
        authorization(one, action) is Allowed <==> authorization(other, action) is Allowed,
{
}

/// An administrator who may not do an action is told the same, whether any
/// other switch of the domain is on or none is.
pub proof fn law_denials_look_alike(action: Action, key: Seq<char>, admins: Seq<Admin>)
    requires
        matched(key, admins) matches Some(admin) && !(authorization(admin.permissions, action)
            is Allowed),
    ensures
        user_check(action, key, admins) == Err::<Admin, Failure>(Failure::MissingPerms),
{
}

/// With flagging switched off, every request that concerns flags is told
/// that flagging is not loaded, whatever key it carries.
pub proof fn law_flagging_off_comes_first(
    config: Config,
    loaded: bool,
    path: Seq<char>,
    key: Seq<char>,
)
    requires
        !config.flagging_enabled,
    ensures
        flag_request_gate(config, loaded, path, key) == Err::<(AdminAction, Admin), Failure>(
            Failure::NotLoaded,
        ),
        submission_gate(config, loaded, key) == Err::<Flagger, Failure>(Failure::NotLoaded),
{
}

/// A fact that was added is in the list, under the id that it was given, and
/// the facts that were there before stand in front of it as they were.
pub proof fn law_added_fact_is_listed(before: Seq<Fact>, after: Seq<Fact>, content: String)
    requires
        appended(before, after, content),
    ensures
        after.contains(after.last()),
        ids_of(after).contains(after.last().id),
        after == before.push(after.last()),
        unique_ids(before) ==> unique_ids(after),
{
    let created = after.last();
    assert(after =~= before.push(created));
    assert(ids_of(after)[after.len() - 1] == created.id);
    if unique_ids(before) {
        lemma_push_keeps_unique(before, created);
    }
}

/// A flag that was raised is in the list, under the id that it was given,
/// and the flags that were there before stand in front of it as they were.
pub proof fn law_raised_flag_is_listed(
    before: Seq<FactFlag>,
    after: Seq<FactFlag>,
    fact_type: Animal,
    fact_id: u64,
    reason: Option<String>,
    flagger: String,
)
    requires
        raised(before, after, fact_type, fact_id, reason, flagger),
    ensures
        after.contains(after.last()),
        ids_of(after).contains(after.last().id),
        after == before.push(after.last()),
        unique_ids(before) ==> unique_ids(after),
{
    let created = after.last();
    assert(after =~= before.push(created));
    assert(ids_of(after)[after.len() - 1] == created.id);
    if unique_ids(before) {
        lemma_push_keeps_unique(before, created);
    }
}

/// After an item was removed by its id from a list without repeated ids, no
/// item of the list carries that id, and the list is one item shorter.
pub proof fn law_removed_id_is_gone<T: Identified>(before: Seq<T>, id: u64)
    requires
        unique_ids(before),
        ids_of(before).contains(id),
    ensures
        !ids_of(without_id(before, id)).contains(id),
        without_id(before, id).len() == before.len() - 1,
        unique_ids(without_id(before, id)),
{
    ids_of(before).index_of_first_ensures(id);
    lemma_without_id_keeps_unique(before, id);
}

/// To remove an id that no item carries finds nothing and leaves the list as
/// it is.
pub proof fn law_absent_id_removes_nothing<T: Identified>(before: Seq<T>, id: u64)
    requires
        !ids_of(before).contains(id),
    ensures
        item_with_id(before, id) is None,
        without_id(before, id) == before,
{
    ids_of(before).index_of_first_ensures(id);
}

/// To remove an id a second time from a list without repeated ids changes
/// nothing any more.
pub proof fn law_remove_twice_is_remove_once<T: Identified>(before: Seq<T>, id: u64)
    requires
        unique_ids(before),
    ensures
        without_id(without_id(before, id), id) == without_id(before, id),
{
    lemma_without_id_keeps_unique(before, id);
    law_absent_id_removes_nothing(without_id(before, id), id);
}

/// To remove what was just put at the end of a list, under an id of its own,
/// gives back the list as it was.
pub proof fn law_remove_undoes_insert<T: Identified>(before: Seq<T>, created: T)
    requires
        !ids_of(before).contains(created.ident()),
    ensures
        item_with_id(before.push(created), created.ident()) == Some(created),
        without_id(before.push(created), created.ident()) == before,
{
    let after = before.push(created);
    let ids = ids_of(after);
    let last: int = before.len() as int;
    ids.index_of_first_ensures(created.ident());
    assert(ids[last] == created.ident());
    assert forall|i: int| 0 <= i < last implies ids[i] != created.ident() by {
        assert(ids[i] == ids_of(before)[i]);
    }
    assert(ids.index_of_first(created.ident()) == Some(last));
    assert(after.remove(last) =~= before);
}

/// A request on facts names the list of its kind for writing exactly when it
/// has changed that list.
pub proof fn law_changed_facts_are_written(
    action: AdminAction,
    request: AdminFactRequest,
    before: Seq<Fact>,
    after: Seq<Fact>,
    outcome: Outcome,
)
    requires
        fact_step(action, request, before, after, outcome),
    ensures
        outcome.persist is Some <==> after != before,
        outcome.persist matches Some(resource) ==> resource == Resource::Facts(
            request.animal_type,
        ),
{
}

/// A request on flags names the list of flags for writing exactly when it has
/// changed that list.
pub proof fn law_changed_flags_are_written(
    action: AdminAction,
    user: Admin,
    request: AdminFlagRequest,
    before: Seq<FactFlag>,
    after: Seq<FactFlag>,
    outcome: Outcome,
)
    requires
        flag_step(action, user, request, before, after, outcome),
    ensures
        outcome.persist is Some <==> after != before,
        outcome.persist matches Some(resource) ==> resource == Resource::Flags,
{
}

/// A submission names the list of flags for writing exactly when it has
/// changed that list.
pub proof fn law_submitted_flags_are_written(
    flagger: Flagger,
    body: FactFlagRequest,
    before: Seq<FactFlag>,
    after: Seq<FactFlag>,
    outcome: Outcome,
)
    requires
        submitted(flagger, body, before, after, outcome),
    ensures
        outcome.persist is Some <==> after != before,
        outcome.persist matches Some(resource) ==> resource == Resource::Flags,
{
}

/// A request on facts is let through only with the key of an administrator
/// who holds the permission for its action on facts, and only on a kind that
/// is loaded.
pub proof fn law_facts_are_guarded(admins: Seq<Admin>, loaded: bool, path: Seq<char>, key: Seq<char>)
    ensures
        fact_request_gate(admins, loaded, path, key) matches Ok((action, admin)) ==> {
            &&& matched(key, admins) == Some(admin)
            &&& admin.permissions.allows(Action::facts(action))
            &&& loaded
        },
{
}

/// No request goes on to the facts of a kind that is not loaded: one that an
/// administrator is entitled to is told that the kind is not loaded.
pub proof fn law_unloaded_kind_is_refused(admins: Seq<Admin>, path: Seq<char>, key: Seq<char>)
    ensures
        fact_request_gate(admins, false, path, key) is Err,
        user_check(Action::facts(action_of(path)), key, admins) is Ok ==> fact_request_gate(
            admins,
            false,
            path,
            key,
        ) == Err::<(AdminAction, Admin), Failure>(Failure::NotLoaded),
{
}

/// A request on flags is let through only while flagging is switched on and
/// loaded, with the key of an administrator who holds the permission for its
/// action on flags.
pub proof fn law_flags_are_guarded(config: Config, loaded: bool, path: Seq<char>, key: Seq<char>)
    ensures
        flag_request_gate(config, loaded, path, key) matches Ok((action, admin)) ==> {
            &&& config.flagging_enabled
            &&& loaded
            &&& matched(key, config.admins@) == Some(admin)
            &&& admin.permissions.allows(Action::flags(action))
        },
{
}

} // verus!
