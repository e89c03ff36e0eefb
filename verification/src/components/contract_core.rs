//! Core: the admin identity.
//!
//! Initialization stores the admin and the deployment record exactly once;
//! `assert_admin` is the authorization guard every admin-gated operation
//! runs before mutating state.

use crate::errors::ContractError;
use crate::events::{initalized_event, publish_initialized_event};
use crate::model::State;
use crate::shade::Shade;
use crate::types::{Address, ContractInfo};
use vstd::prelude::*;

verus! {

/// The outcome of `initialize`: rejected exactly when an admin record
/// already exists.
pub open spec fn initialize_check(s: State, admin: Address) -> Result<(), ContractError> {
    if s.admin is Some {
        Err(ContractError::AlreadyInitialized)
    } else {
        Ok(())
    }
}

/// The state after `initialize`: on the first call the admin identity, the
/// deployment record and the initialization event; otherwise unchanged.
pub open spec fn initialize_step(s: State, admin: Address, now: u64) -> State {
    if s.admin is Some {
        s
    } else {
        State {
            admin: Some(admin),
            info: Some(ContractInfo { admin, created_at: now }),
            events: s.events.push(initalized_event(admin, now)),
            ..s
        }
    }
}

/// The outcome of `get_admin`: the stored admin, or `NotInitialized`.
pub open spec fn admin_of(s: State) -> Result<Address, ContractError> {
    match s.admin {
        Some(a) => Ok(a),
        None => Err(ContractError::NotInitialized),
    }
}

/// The authorization guard: `Ok` exactly when the contract is initialized
/// and `caller` is the stored admin.
pub open spec fn admin_check(s: State, caller: Address) -> Result<(), ContractError> {
    match s.admin {
        None => Err(ContractError::NotInitialized),
        Some(a) => if caller == a {
            Ok(())
        } else {
            Err(ContractError::NotAuthorized)
        },
    }
}

impl Shade {
    /// Stores `admin` and the deployment record and emits the
    /// initialization event; fails with `AlreadyInitialized` on any call
    /// after the first.  `now` is the host's call-time timestamp.
    pub fn initialize(&mut self, admin: Address, now: u64) -> (r: Result<(), ContractError>)
        ensures
            r == initialize_check(old(self)@, admin),
            final(self)@ == initialize_step(old(self)@, admin, now),
            old(self)@.wf() ==> final(self)@.wf(),
    {
        if self.admin.is_some() {
            return Err(ContractError::AlreadyInitialized);
        }
        self.admin = Some(admin);
        self.contract_info = Some(ContractInfo { admin, created_at: now });
        publish_initialized_event(&mut self.events, admin, now);
        proof {
            assert(self@ =~= initialize_step(old(self)@, admin, now));
            if old(self)@.wf() {
                crate::laws::lemma_initialize_preserves_wf(old(self)@, admin, now);
            }
        }
        Ok(())
    }

    /// Returns the stored admin; fails with `NotInitialized` if absent.
    pub fn get_admin(&self) -> (r: Result<Address, ContractError>)
        ensures
            r == admin_of(self@),
    {
        match self.admin {
            Some(a) => Ok(a),
            None => Err(ContractError::NotInitialized),
        }
    }

    /// The admin authorization guard.  The host has already verified that
    /// `caller` cryptographically authorized the call; this check fails with
    /// `NotAuthorized` unless `caller` is also the stored admin, and with
    /// `NotInitialized` when no admin is stored yet.
    pub fn assert_admin(&self, caller: Address) -> (r: Result<(), ContractError>)
        ensures
            r == admin_check(self@, caller),
    {
        match self.admin {
            None => Err(ContractError::NotInitialized),
            Some(a) => if caller == a {
                Ok(())
            } else {
                Err(ContractError::NotAuthorized)
            },
        }
    }
}

} // verus!
