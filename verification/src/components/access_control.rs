//! AccessControl: per-user role grants, independent of the admin identity.
//!
//! Granting and revoking are idempotent at the storage level, and both emit
//! their event on every successful call: the event records the admin's
//! intent, not a state delta, so an idempotent re-grant or a revocation of
//! an absent grant emits again.

use crate::components::contract_core::admin_check;
use crate::errors::ContractError;
use crate::events::{
    publish_role_granted_event, publish_role_revoked_event, role_granted_event, role_revoked_event,
};
use crate::model::State;
use crate::shade::Shade;
use crate::types::{Address, Role, RoleGrant};
use vstd::prelude::*;

verus! {

/// The grants left when the pair `(user, role)` is revoked.
pub open spec fn without_grant(roles: Seq<RoleGrant>, user: Address, role: Role) -> Seq<RoleGrant> {
    roles.filter(|g: RoleGrant| g != (RoleGrant { user, role }))
}

/// How one more grant entry changes a revocation's result: the revoked pair
/// is dropped, everything else is kept in order.
pub proof fn lemma_without_grant_push(roles: Seq<RoleGrant>, user: Address, role: Role, g: RoleGrant)
    ensures
        without_grant(roles.push(g), user, role) == if g == (RoleGrant { user, role }) {
            without_grant(roles, user, role)
        } else {
            without_grant(roles, user, role).push(g)
        },
{
    reveal(Seq::filter);
    assert(roles.push(g).drop_last() =~= roles);
}

/// The revocation keeps only other grants, each one a grant of the list
/// before, and keeps a duplicate-free list duplicate-free.
pub proof fn lemma_without_grant_props(roles: Seq<RoleGrant>, user: Address, role: Role)
    requires
        roles.no_duplicates(),
    ensures
        forall|i: int|
            0 <= i < without_grant(roles, user, role).len() ==> (#[trigger] without_grant(
                roles,
                user,
                role,
            )[i]) != (RoleGrant { user, role }) && roles.contains(without_grant(roles, user, role)[i]),
        without_grant(roles, user, role).no_duplicates(),
    decreases roles.len(),
{
    reveal(Seq::filter);
    if roles.len() > 0 {
        let d = roles.drop_last();
        let last = roles.last();
        assert(forall|i: int| 0 <= i < d.len() ==> #[trigger] d[i] == roles[i]);
        assert(d.no_duplicates());
        lemma_without_grant_props(d, user, role);
        let wd = without_grant(d, user, role);
        if last != (RoleGrant { user, role }) {
            let w = without_grant(roles, user, role);
            assert(w == wd.push(last));
            assert(roles[roles.len() - 1] == last);
            assert forall|i: int| 0 <= i < w.len() implies (#[trigger] w[i]) != (RoleGrant {
                user,
                role,
            }) && roles.contains(w[i]) by {
                if i < wd.len() {
                    assert(w[i] == wd[i]);
                    let j = choose|j: int| 0 <= j < d.len() && d[j] == wd[i];
                    assert(roles[j] == wd[i]);
                } else {
                    assert(w[i] == last);
                }
            }
            assert forall|i: int, j: int|
                0 <= i < w.len() && 0 <= j < w.len() && i != j implies (#[trigger] w[i])
                != (#[trigger] w[j]) by {
                if i < wd.len() && j == wd.len() {
                    assert(w[j] == last && w[i] == wd[i]);
                    let k = choose|k: int| 0 <= k < d.len() && d[k] == wd[i];
                    assert(roles[k] == wd[i]);
                    assert(roles[k] != roles[roles.len() - 1]);
                } else if j < wd.len() && i == wd.len() {
                    assert(w[i] == last && w[j] == wd[j]);
                    let k = choose|k: int| 0 <= k < d.len() && d[k] == wd[j];
                    assert(roles[k] == wd[j]);
                    assert(roles[k] != roles[roles.len() - 1]);
                } else {
                    assert(w[i] == wd[i] && w[j] == wd[j]);
                }
            }
        }
    }
}

/// The outcome of `grant_role` and `revoke_role`: the admin guard alone.
pub open spec fn role_change_check(s: State, caller: Address) -> Result<(), ContractError> {
    admin_check(s, caller)
}

/// The state after `grant_role`: the pair added unless already granted, and
/// the granted event appended either way; unchanged on rejection.
pub open spec fn grant_role_step(s: State, caller: Address, user: Address, role: Role, now: u64) -> State {
    if role_change_check(s, caller) is Ok {
        State {
            roles: if s.has_role(user, role) {
                s.roles
            } else {
                s.roles.push(RoleGrant { user, role })
            },
            events: s.events.push(role_granted_event(user, role, now)),
            ..s
        }
    } else {
        s
    }
}

/// The state after `revoke_role`: the pair dropped if present, and the
/// revoked event appended either way; unchanged on rejection.
pub open spec fn revoke_role_step(s: State, caller: Address, user: Address, role: Role, now: u64) -> State {
    if role_change_check(s, caller) is Ok {
        State {
            roles: without_grant(s.roles, user, role),
            events: s.events.push(role_revoked_event(user, role, now)),
            ..s
        }
    } else {
        s
    }
}

impl Shade {
    /// Whether `(user, role)` is an active grant; `false` for any unknown
    /// pair.
    pub fn has_role(&self, user: Address, role: Role) -> (r: bool)
        ensures
            r == self@.has_role(user, role),
    {
        let n = self.roles.len();
        let mut i: usize = 0;
        while i < n
            invariant
                n == self.roles.len(),
                0 <= i <= n,
                forall|j: int| 0 <= j < i ==> self.roles@[j] != (RoleGrant { user, role }),
            decreases n - i,
        {
            if self.roles[i].user == user && self.roles[i].role == role {
                return true;
            }
            i += 1;
        }
        false
    }

    /// Grants `role` to `user`; requires the caller to be the admin.
    /// Re-granting an already-granted role succeeds as a storage no-op but
    /// still emits the granted event.
    pub fn grant_role(&mut self, caller: Address, user: Address, role: Role, now: u64) -> (r:
        Result<(), ContractError>)
        ensures
            r == role_change_check(old(self)@, caller),
            final(self)@ == grant_role_step(old(self)@, caller, user, role, now),
            old(self)@.wf() ==> final(self)@.wf(),
    {
        if let Err(e) = self.assert_admin(caller) {
            return Err(e);
        }
        if !self.has_role(user, role) {
            self.roles.push(RoleGrant { user, role });
        }
        publish_role_granted_event(&mut self.events, user, role, now);
        proof {
            assert(self@ =~= grant_role_step(old(self)@, caller, user, role, now));
            if old(self)@.wf() {
                crate::laws::lemma_grant_role_preserves_wf(old(self)@, caller, user, role, now);
            }
        }
        Ok(())
    }

    /// Revokes `role` from `user`; requires the caller to be the admin.
    /// Revoking an absent grant succeeds as a storage no-op but still emits
    /// the revoked event.
    pub fn revoke_role(&mut self, caller: Address, user: Address, role: Role, now: u64) -> (r:
        Result<(), ContractError>)
        ensures
            r == role_change_check(old(self)@, caller),
            final(self)@ == revoke_role_step(old(self)@, caller, user, role, now),
            old(self)@.wf() ==> final(self)@.wf(),
    {
        if let Err(e) = self.assert_admin(caller) {
            return Err(e);
        }
        let n = self.roles.len();
        let mut kept: Vec<RoleGrant> = Vec::new();
        let mut i: usize = 0;
        proof {
            assert(self.roles@.take(0int) =~= Seq::<RoleGrant>::empty());
            reveal(Seq::filter);
        }
        while i < n
            invariant
                n == self.roles.len(),
                0 <= i <= n,
                kept@ == without_grant(self.roles@.take(i as int), user, role),
            decreases n - i,
        {
            let g = self.roles[i];
            proof {
                assert(self.roles@.take(i + 1int) =~= self.roles@.take(i as int).push(g));
                lemma_without_grant_push(self.roles@.take(i as int), user, role, g);
            }
            if !(g.user == user && g.role == role) {
                kept.push(g);
            }
            i += 1;
        }
        proof {
            assert(self.roles@.take(n as int) =~= self.roles@);
        }
        self.roles = kept;
        publish_role_revoked_event(&mut self.events, user, role, now);
        proof {
            assert(self@ =~= revoke_role_step(old(self)@, caller, user, role, now));
            if old(self)@.wf() {
                crate::laws::lemma_revoke_role_preserves_wf(old(self)@, caller, user, role, now);
            }
        }
        Ok(())
    }
}

} // verus!
