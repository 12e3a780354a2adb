//! Deciding whether a principal may do what it asks for.
//!
//! There are two domains, facts and flags, with three actions each, and an
//! administrator holds one switch for each of the six. A request is let
//! through exactly when the switch for its action is on. A refusal says
//! whether the administrator holds no switch of the domain at all or only
//! lacks the one that was needed; both are answered alike, and the difference
//! is for the logs.

use vstd::prelude::*;

use crate::{Admin, AdminAction, Perms};

verus! {

/// What can be asked of the service by an administrator.
#[derive(Clone, Copy, Debug, PartialEq, Eq, Structural)]
pub enum Action {
    ViewFacts,
    AddFact,
    DeleteFact,
    ViewFlags,
    AddFlag,
    DeleteFlag,
}

/// What the permissions of a principal say to an action.
#[derive(Clone, Copy, Debug, PartialEq, Eq, Structural)]
pub enum AuthzResult {
    /// The switch for the action is on.
    Allowed,
    /// No switch of the action's domain is on.
    NoPermissionsAtAll,
    /// The switch for the action is off, another of its domain is on.
    MissingSpecificPermission,
}

impl Action {
    /// Whether the action is one on facts; the others are on flags.
    pub open spec fn concerns_facts(self) -> bool {
        self is ViewFacts || self is AddFact || self is DeleteFact
    }

    /// The action on facts that `action` stands for.
    pub open spec fn facts(action: AdminAction) -> Action {
        match action {
            AdminAction::View => Action::ViewFacts,
            AdminAction::Add => Action::AddFact,
            AdminAction::Delete => Action::DeleteFact,
        }
    }

    /// The action on flags that `action` stands for.
    pub open spec fn flags(action: AdminAction) -> Action {
        match action {
            AdminAction::View => Action::ViewFlags,
            AdminAction::Add => Action::AddFlag,
            AdminAction::Delete => Action::DeleteFlag,
        }
    }

    /// The action on facts that `action` stands for.
    pub fn on_facts(action: AdminAction) -> (on_facts: Action)
        ensures
            on_facts == Action::facts(action),
    {
        match action {
            AdminAction::View => Action::ViewFacts,
            AdminAction::Add => Action::AddFact,
            AdminAction::Delete => Action::DeleteFact,
        }
    }

    /// The action on flags that `action` stands for.
    pub fn on_flags(action: AdminAction) -> (on_flags: Action)
        ensures
            on_flags == Action::flags(action),
    {
        match action {
            AdminAction::View => Action::ViewFlags,
            AdminAction::Add => Action::AddFlag,
            AdminAction::Delete => Action::DeleteFlag,
        }
    }
}

impl Perms {
    /// The switch for `action`.
    pub open spec fn allows(self, action: Action) -> bool {
        match action {
            Action::ViewFacts => self.view_facts,
            Action::AddFact => self.add_fact,
            Action::DeleteFact => self.delete_fact,
            Action::ViewFlags => self.view_flags,
            Action::AddFlag => self.add_flag,
            Action::DeleteFlag => self.delete_flag,
        }
    }

    /// Whether any switch of the domain of `action` is on.
    pub open spec fn any_in_domain(self, action: Action) -> bool {
        if action.concerns_facts() {
            self.view_facts || self.add_fact || self.delete_fact
        } else {
            self.view_flags || self.add_flag || self.delete_flag
        }
    }

    /// Whether the permissions go beyond what is open to everyone who may
    /// read a fact or raise a flag: changing the facts, or reading and
    /// deleting flags.
    pub open spec fn beyond_public(self) -> bool {
        self.add_fact || self.delete_fact || self.view_flags || self.delete_flag
    }

    /// Reads the switch for `action`.
    pub fn permits(self, action: Action) -> (on: bool)
        ensures
            on == self.allows(action),
    {
        match action {
            Action::ViewFacts => self.view_facts,
            Action::AddFact => self.add_fact,
            Action::DeleteFact => self.delete_fact,
            Action::ViewFlags => self.view_flags,
            Action::AddFlag => self.add_flag,
            Action::DeleteFlag => self.delete_flag,
        }
    }
}

/// What `perms` say to `action`.
pub open spec fn authorization(perms: Perms, action: Action) -> AuthzResult {
    if perms.allows(action) {
        AuthzResult::Allowed
    } else if perms.any_in_domain(action) {
        AuthzResult::MissingSpecificPermission
    } else {
        AuthzResult::NoPermissionsAtAll
    }
}

/// Decides whether `principal` may perform `action`. The answer is `Allowed`
/// exactly when the switch for the action is on, whatever the other switches
/// say.
pub fn authorize(principal: &Admin, action: Action) -> (result: AuthzResult)
    ensures
        result == authorization(principal.permissions, action),
        result is Allowed <==> principal.permissions.allows(action),
{
    let perms = principal.permissions;
    if perms.permits(action) {
        AuthzResult::Allowed
    } else {
        let any_of_domain: bool = match action {
            Action::ViewFacts | Action::AddFact | Action::DeleteFact => {
                perms.view_facts || perms.add_fact || perms.delete_fact
            },
            Action::ViewFlags | Action::AddFlag | Action::DeleteFlag => {
                perms.view_flags || perms.add_flag || perms.delete_flag
            },
        };
        if any_of_domain {
            AuthzResult::MissingSpecificPermission
        } else {
            AuthzResult::NoPermissionsAtAll
        }
    }
}

} // verus!
