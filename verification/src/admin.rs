//! What administrators may ask for: listing, adding and deleting facts and
//! flags.
//!
//! A request goes through the same steps each time. The last part of its path
//! names the action. The key is matched against the administrators, and the
//! permissions of the one it belongs to decide on the action. Then the list
//! in question must be loaded, the request must carry what the action needs,
//! and at last the list is read or changed. The first step that fails ends
//! the request, and a request that failed has changed nothing.

use vstd::prelude::*;

use crate::animal_facts::{appended, insert, list, Fact, FactLists};
use crate::credentials::{match_key, matched};
use crate::flagging::{flagged_ids, raised};
use crate::permissions::{authorize, Action, AuthzResult};
use crate::store::{ids_of, remove_by_id, unique_ids, without_id};
use crate::text::ends_with;
use crate::{
    APIState, Admin, AdminAction, AdminFactRequest, AdminFlagRequest, Animal, Config,
    CreatedAction, FactFlag, Failure, Outcome, Perms, Reply, ReplyView, Resource,
};

verus! {

/// The action that a path asks for: to view where it ends in `list`, to
/// delete where it ends in `delete`, and to add in every other case.
pub open spec fn action_of(path: Seq<char>) -> AdminAction {
    if "list"@.is_suffix_of(path) {
        AdminAction::View
    } else if "delete"@.is_suffix_of(path) {
        AdminAction::Delete
    } else {
        AdminAction::Add
    }
}

/// Whose key it is, and whether that administrator may do `action`.
pub open spec fn user_check(action: Action, key: Seq<char>, admins: Seq<Admin>) -> Result<
    Admin,
    Failure,
> {
    match matched(key, admins) {
        Some(admin) => if admin.permissions.allows(action) {
            Ok(admin)
        } else {
            Err(Failure::MissingPerms)
        },
        None => Err(Failure::BadAuth),
    }
}

/// What stands between a request and a list of facts: the key must be an
/// administrator's, who must hold the permission for the action on facts that
/// the path asks for, and the list must be loaded.
pub open spec fn fact_request_gate(
    admins: Seq<Admin>,
    loaded: bool,
    path: Seq<char>,
    key: Seq<char>,
) -> Result<(AdminAction, Admin), Failure> {
    match user_check(Action::facts(action_of(path)), key, admins) {
        Ok(admin) => if loaded {
            Ok((action_of(path), admin))
        } else {
            Err(Failure::NotLoaded)
        },
        Err(failure) => Err(failure),
    }
}

/// What stands between a request and the list of flags: flagging must be
/// switched on and loaded, the key must be an administrator's, who must hold
/// the permission for the action on flags that the path asks for. Where
/// flagging is off, no key is looked at.
pub open spec fn flag_request_gate(config: Config, loaded: bool, path: Seq<char>, key: Seq<char>)
    -> Result<(AdminAction, Admin), Failure> {
    if !config.flagging_enabled || !loaded {
        Err(Failure::NotLoaded)
    } else {
        match user_check(Action::flags(action_of(path)), key, config.admins@) {
            Ok(admin) => Ok((action_of(path), admin)),
            Err(failure) => Err(failure),
        }
    }
}

/// The facts are handed out and stay as they are.
pub open spec fn facts_viewed(before: Seq<Fact>, after: Seq<Fact>, outcome: Outcome) -> bool {
    &&& after == before
    &&& outcome.reply@ == ReplyView::Facts(before)
    &&& outcome.persist is None
}

/// A fact with the content of the request is added, if it has any.
pub open spec fn fact_added(
    animal: Animal,
    request: AdminFactRequest,
    before: Seq<Fact>,
    after: Seq<Fact>,
    outcome: Outcome,
) -> bool {
    match request.fact_content {
        Some(content) => {
            &&& appended(before, after, content)
            &&& outcome.reply == Reply::Created(CreatedAction::Fact { animal })
            &&& outcome.persist == Some(Resource::Facts(animal))
        },
        None => after == before && outcome.is_refusal(Failure::NoContentSpecified),
    }
}

/// The first fact with the id of the request is deleted, if the request has
/// an id and a fact carries it.
pub open spec fn fact_deleted(
    animal: Animal,
    request: AdminFactRequest,
    before: Seq<Fact>,
    after: Seq<Fact>,
    outcome: Outcome,
) -> bool {
    match request.fact_id {
        Some(id) => if ids_of(before).contains(id) {
            &&& after == without_id(before, id)
            &&& after.len() == before.len() - 1
            &&& outcome.reply == Reply::Deleted
            &&& outcome.persist == Some(Resource::Facts(animal))
        } else {
            after == before && outcome.is_refusal(Failure::IdNotFound)
        },
        None => after == before && outcome.is_refusal(Failure::NoIdSupplied),
    }
}

/// What an admitted request does to the list of facts of its kind, and how
/// it ends.
pub open spec fn fact_step(
    action: AdminAction,
    request: AdminFactRequest,
    before: Seq<Fact>,
    after: Seq<Fact>,
    outcome: Outcome,
) -> bool {
    match action {
        AdminAction::View => facts_viewed(before, after, outcome),
        AdminAction::Add => fact_added(request.animal_type, request, before, after, outcome),
        AdminAction::Delete => fact_deleted(request.animal_type, request, before, after, outcome),
    }
}

/// The flags are handed out and stay as they are.
pub open spec fn flags_viewed(before: Seq<FactFlag>, after: Seq<FactFlag>, outcome: Outcome)
    -> bool {
    &&& after == before
    &&& outcome.reply@ == ReplyView::Flags(before)
    &&& outcome.persist is None
}

/// A flag is raised in the name of `user`, if a flag speaks of the same fact
/// already.
pub open spec fn flag_added(
    user: Admin,
    set_flag: (Animal, u64, Option<String>),
    before: Seq<FactFlag>,
    after: Seq<FactFlag>,
    outcome: Outcome,
) -> bool {
    if flagged_ids(before).contains(set_flag.1) {
        &&& raised(before, after, set_flag.0, set_flag.1, set_flag.2, user.name)
        &&& outcome.reply == Reply::Created(CreatedAction::Flag)
        &&& outcome.persist == Some(Resource::Flags)
    } else {
        after == before && outcome.is_refusal(Failure::IdNotFound)
    }
}

/// The first flag with the id `rem_id` is deleted, if a flag carries it.
pub open spec fn flag_deleted(
    rem_id: u64,
    before: Seq<FactFlag>,
    after: Seq<FactFlag>,
    outcome: Outcome,
) -> bool {
    if ids_of(before).contains(rem_id) {
        &&& after == without_id(before, rem_id)
        &&& after.len() == before.len() - 1
        &&& outcome.reply == Reply::Deleted
        &&& outcome.persist == Some(Resource::Flags)
    } else {
        after == before && outcome.is_refusal(Failure::IdNotFound)
    }
}

/// What an admitted request of `user` does to the list of flags, and how it
/// ends. To add a flag, the request must name the kind of animal and the
/// fact, and the kind is asked for first. To delete one, it must name the
/// flag.
pub open spec fn flag_step(
    action: AdminAction,
    user: Admin,
    request: AdminFlagRequest,
    before: Seq<FactFlag>,
    after: Seq<FactFlag>,
    outcome: Outcome,
) -> bool {
    match action {
        AdminAction::View => flags_viewed(before, after, outcome),
        AdminAction::Add => match (request.fact_type, request.fact_id) {
            (None, _) => after == before && outcome.is_refusal(Failure::NoTypeSupplied),
            (Some(_), None) => after == before && outcome.is_refusal(Failure::NoIdSupplied),
            (Some(fact_type), Some(fact_id)) => flag_added(
                user,
                (fact_type, fact_id, request.reason),
                before,
                after,
                outcome,
            ),
        },
        AdminAction::Delete => match request.flag_id {
            Some(rem_id) => flag_deleted(rem_id, before, after, outcome),
            None => after == before && outcome.is_refusal(Failure::NoIdSupplied),
        },
    }
}

/// Finds the administrator whose key was handed in, and says whether the
/// permissions found go beyond what is open to everyone: they are handed
/// back only if they do. With no administrators configured nobody is found.
pub fn check_admin_perms<'a>(unchecked_auth: &str, admin_list: &'a [Admin]) -> (found: Option<
    (&'a Admin, Option<Perms>),
>)
    ensures
        found == match matched(unchecked_auth@, admin_list@) {
            Some(admin) => Some(
                (
                    &admin,
                    if admin.permissions.beyond_public() {
                        Some(admin.permissions)
                    } else {
                        None
                    },
                ),
            ),
            None => None,
        },
        admin_list@.len() == 0 ==> found is None,
{
    match match_key(unchecked_auth, admin_list) {
        Some(admin) => {
            let perms = admin.permissions;
            if perms.add_fact || perms.delete_fact || perms.view_flags || perms.delete_flag {
                Some((admin, Some(admin.permissions)))
            } else {
                Some((admin, None))
            }
        },
        None => None,
    }
}

/// Finds the administrator whose key was handed in and decides whether that
/// administrator may do `action`.
pub fn check_user<'a>(action: Action, key: &str, admins: &'a [Admin]) -> (checked: Result<
    &'a Admin,
    Failure,
>)
    ensures
        checked == match user_check(action, key@, admins@) {
            Ok(admin) => Ok(&admin),
            Err(failure) => Err(failure),
        },
{
    match check_admin_perms(key, admins) {
        Some((user, _)) => match authorize(user, action) {
            AuthzResult::Allowed => Ok(user),
            AuthzResult::NoPermissionsAtAll => Err(Failure::MissingPerms),
            AuthzResult::MissingSpecificPermission => Err(Failure::MissingPerms),
        },
        None => Err(Failure::BadAuth),
    }
}

/// Reads the action that a path asks for off its end.
pub fn determine_action(path: &str) -> (action: AdminAction)
    ensures
        action == action_of(path@),
{
    if ends_with(path, "list") {
        AdminAction::View
    } else if ends_with(path, "delete") {
        AdminAction::Delete
    } else {
        AdminAction::Add
    }
}

/// The list of facts of a kind, if the kind is loaded.
pub fn determine_list<'a>(animal: Animal, fact_lists: &'a FactLists) -> (facts: Option<
    &'a Vec<Fact>,
>)
    ensures
        facts == match fact_lists.of(animal) {
            Some(facts) => Some(&facts),
            None => None,
        },
{
    match animal {
        Animal::Cat => fact_lists.cat_facts.as_ref(),
        Animal::Dog => fact_lists.dog_facts.as_ref(),
    }
}

/// Decides whether a request on facts may go on to the list, with which
/// action and on whose behalf. `loaded` says whether the kind of animal that
/// the request names is loaded.
pub fn admit_fact_request<'a>(admins: &'a [Admin], loaded: bool, path: &str, key: &str) -> (admitted:
    Result<(AdminAction, &'a Admin), Failure>)
    ensures
        admitted == match fact_request_gate(admins@, loaded, path@, key@) {
            Ok((action, admin)) => Ok((action, &admin)),
            Err(failure) => Err(failure),
        },
{
    let action = determine_action(path);
    let user = match check_user(Action::on_facts(action), key, admins) {
        Ok(user) => user,
        Err(failure) => {
            return Err(failure);
        },
    };
    if !loaded {
        return Err(Failure::NotLoaded);
    }
    Ok((action, user))
}

/// Decides whether a request on flags may go on to the list, with which
/// action and on whose behalf. `loaded` says whether there is a list of
/// flags.
pub fn admit_flag_request<'a>(config: &'a Config, loaded: bool, path: &str, key: &str) -> (admitted:
    Result<(AdminAction, &'a Admin), Failure>)
    ensures
        admitted == match flag_request_gate(*config, loaded, path@, key@) {
            Ok((action, admin)) => Ok((action, &admin)),
            Err(failure) => Err(failure),
        },
{
    if !config.flagging_enabled || !loaded {
        return Err(Failure::NotLoaded);
    }
    let action = determine_action(path);
    match check_user(Action::on_flags(action), key, config.admins.as_slice()) {
        Ok(user) => Ok((action, user)),
        Err(failure) => Err(failure),
    }
}

/// Hands out the facts of a list.
pub fn view_facts(facts: &Vec<Fact>) -> (reply: Reply)
    ensures
        reply@ == ReplyView::Facts(facts@),
{
    Reply::Facts(list(facts))
}

/// Adds a fact with the content of the request to the list. A request without
/// content is turned down.
pub fn add_fact(animal: Animal, request: AdminFactRequest, facts: &mut Vec<Fact>) -> (outcome:
    Outcome)
    ensures
        fact_added(animal, request, old(facts)@, final(facts)@, outcome),
        unique_ids(old(facts)@) ==> unique_ids(final(facts)@),
{
    match request.fact_content {
        Some(content) => {
            insert(facts, content);
            Outcome {
                reply: Reply::Created(CreatedAction::Fact { animal }),
                persist: Some(Resource::Facts(animal)),
            }
        },
        None => Outcome::refused(Failure::NoContentSpecified),
    }
}

/// Deletes the fact with the id of the request from the list. A request
/// without an id is turned down, and so is one with an id that no fact
/// carries.
pub fn delete_fact(animal: Animal, request: AdminFactRequest, facts: &mut Vec<Fact>) -> (outcome:
    Outcome)
    ensures
        fact_deleted(animal, request, old(facts)@, final(facts)@, outcome),
        unique_ids(old(facts)@) ==> unique_ids(final(facts)@),
        unique_ids(old(facts)@) && request.fact_id is Some ==> !ids_of(final(facts)@).contains(
            request.fact_id->0,
        ),
{
    match request.fact_id {
        Some(rem_id) => {
            proof {
                ids_of(facts@).index_of_first_ensures(rem_id);
            }
            match remove_by_id(facts, rem_id) {
                Some(_) => Outcome {
                    reply: Reply::Deleted,
                    persist: Some(Resource::Facts(animal)),
                },
                None => Outcome::refused(Failure::IdNotFound),
            }
        },
        None => Outcome::refused(Failure::NoIdSupplied),
    }
}

/// Does to the list of facts what an admitted request asks for.
pub fn perform_fact_action(action: AdminAction, request: AdminFactRequest, facts: &mut Vec<Fact>)
    -> (outcome: Outcome)
    ensures
        fact_step(action, request, old(facts)@, final(facts)@, outcome),
        unique_ids(old(facts)@) ==> unique_ids(final(facts)@),
{
    match action {
        AdminAction::Add => add_fact(request.animal_type, request, facts),
        AdminAction::Delete => delete_fact(request.animal_type, request, facts),
        AdminAction::View => Outcome { reply: view_facts(facts), persist: None },
    }
}

/// Handles a request on facts from start to end.
///
/// Only the list of the kind that the request names can change. Settings,
/// flags and the other list are never touched, and a kind is loaded after the
/// request exactly if it was before.
pub fn modify_fact(state: &mut APIState, path: &str, body: AdminFactRequest) -> (outcome: Outcome)
    ensures
        final(state).config == old(state).config,
        final(state).fact_flags == old(state).fact_flags,
        forall|animal: Animal| #[trigger]
            final(state).fact_lists.of(animal) is Some <==> old(state).fact_lists.of(animal)
                is Some,
        body.animal_type != Animal::Cat ==> final(state).fact_lists.cat_facts == old(
            state,
        ).fact_lists.cat_facts,
        body.animal_type != Animal::Dog ==> final(state).fact_lists.dog_facts == old(
            state,
        ).fact_lists.dog_facts,
        match fact_request_gate(
            old(state).config.admins@,
            old(state).fact_lists.of(body.animal_type) is Some,
            path@,
            body.key@,
        ) {
            Ok((action, _)) => {
                &&& final(state).fact_lists.of(body.animal_type) is Some
                &&& fact_step(
                    action,
                    body,
                    old(state).fact_lists.of(body.animal_type)->0@,
                    final(state).fact_lists.of(body.animal_type)->0@,
                    outcome,
                )
            },
            Err(failure) => {
                &&& outcome.is_refusal(failure)
                &&& final(state).fact_lists == old(state).fact_lists
            },
        },
        old(state).wf() ==> final(state).wf(),
{
    let loaded: bool = state.fact_lists.is_loaded(body.animal_type);
    let action = match admit_fact_request(
        state.config.admins.as_slice(),
        loaded,
        path,
        body.key.as_str(),
    ) {
        Ok((action, _)) => action,
        Err(failure) => {
            return Outcome::refused(failure);
        },
    };
    match body.animal_type {
        Animal::Cat => match &mut state.fact_lists.cat_facts {
            Some(facts) => perform_fact_action(action, body, facts),
            None => Outcome::refused(Failure::NotLoaded),
        },
        Animal::Dog => match &mut state.fact_lists.dog_facts {
            Some(facts) => perform_fact_action(action, body, facts),
            None => Outcome::refused(Failure::NotLoaded),
        },
    }
}

/// Hands out the flags.
pub fn list_flags(flags: &Vec<FactFlag>) -> (reply: Reply)
    ensures
        reply@ == ReplyView::Flags(flags@),
{
    Reply::Flags(crate::flagging::list(flags))
}

/// Raises a flag in the name of an administrator, who needs no flagger's key
/// for it. The flag names the kind of animal, the fact and the reason of
/// `set_flag`. It is turned down unless a flag speaks of the same fact
/// already.
pub fn add_flag(
    flags: &mut Vec<FactFlag>,
    user: &Admin,
    set_flag: (Animal, u64, Option<String>),
) -> (outcome: Outcome)
    ensures
        flag_added(*user, set_flag, old(flags)@, final(flags)@, outcome),
        unique_ids(old(flags)@) ==> unique_ids(final(flags)@),
{
    match crate::flagging::insert(flags, set_flag.0, set_flag.1, set_flag.2, user.name.clone()) {
        Some(_) => Outcome {
            reply: Reply::Created(CreatedAction::Flag),
            persist: Some(Resource::Flags),
        },
        None => Outcome::refused(Failure::IdNotFound),
    }
}

/// Deletes the flag with the id `rem_id`. An id that no flag carries is
/// turned down.
pub fn delete_flag(flags: &mut Vec<FactFlag>, rem_id: u64) -> (outcome: Outcome)
    ensures
        flag_deleted(rem_id, old(flags)@, final(flags)@, outcome),
        unique_ids(old(flags)@) ==> unique_ids(final(flags)@) && !ids_of(final(flags)@).contains(
            rem_id,
        ),
{
    proof {
        ids_of(flags@).index_of_first_ensures(rem_id);
    }
    match remove_by_id(flags, rem_id) {
        Some(_) => Outcome { reply: Reply::Deleted, persist: Some(Resource::Flags) },
        None => Outcome::refused(Failure::IdNotFound),
    }
}

/// Does to the list of flags what an admitted request of `user` asks for.
pub fn perform_flag_action(
    action: AdminAction,
    user: &Admin,
    request: AdminFlagRequest,
    flags: &mut Vec<FactFlag>,
) -> (outcome: Outcome)
    ensures
        flag_step(action, *user, request, old(flags)@, final(flags)@, outcome),
        unique_ids(old(flags)@) ==> unique_ids(final(flags)@),
{
    match action {
        AdminAction::View => Outcome { reply: list_flags(flags), persist: None },
        AdminAction::Add => {
            let fact_type = match request.fact_type {
                Some(fact_type) => fact_type,
                None => {
                    return Outcome::refused(Failure::NoTypeSupplied);
                },
            };
            let fact_id: u64 = match request.fact_id {
                Some(fact_id) => fact_id,
                None => {
                    return Outcome::refused(Failure::NoIdSupplied);
                },
            };
            add_flag(flags, user, (fact_type, fact_id, request.reason))
        },
        AdminAction::Delete => match request.flag_id {
            Some(rem_id) => delete_flag(flags, rem_id),
            None => Outcome::refused(Failure::NoIdSupplied),
        },
    }
}

/// Handles a request on flags from start to end.
///
/// Flagging that is switched off or not loaded is answered before the key is
/// looked at. Facts and settings are never touched.
pub fn modify_flag(state: &mut APIState, path: &str, body: AdminFlagRequest) -> (outcome: Outcome)
    ensures
        final(state).config == old(state).config,
        final(state).fact_lists == old(state).fact_lists,
        final(state).fact_flags is Some <==> old(state).fact_flags is Some,
        match flag_request_gate(
            old(state).config,
            old(state).fact_flags is Some,
            path@,
            body.key@,
        ) {
            Ok((action, user)) => {
                &&& final(state).fact_flags is Some
                &&& flag_step(
                    action,
                    user,
                    body,
                    old(state).fact_flags->0@,
                    final(state).fact_flags->0@,
                    outcome,
                )
            },
            Err(failure) => {
                &&& outcome.is_refusal(failure)
                &&& final(state).fact_flags == old(state).fact_flags
            },
        },
        old(state).wf() ==> final(state).wf(),
{
    let loaded: bool = state.fact_flags.is_some();
    let (action, user) = match admit_flag_request(&state.config, loaded, path, body.key.as_str()) {
        Ok(admitted) => admitted,
        Err(failure) => {
            return Outcome::refused(failure);
        },
    };
    match &mut state.fact_flags {
        Some(flags) => perform_flag_action(action, user, body, flags),
        None => Outcome::refused(Failure::NotLoaded),
    }
}

} // verus!
