//! Pausable: the global circuit-breaker gating mutating entry points.

use crate::components::contract_core::admin_check;
use crate::errors::ContractError;
use crate::events::{
    contract_paused_event, contract_unpaused_event, publish_contract_paused_event,
    publish_contract_unpaused_event,
};
use crate::model::State;
use crate::shade::Shade;
use crate::types::Address;
use vstd::prelude::*;

verus! {

/// The read-only guard other components run first: rejected exactly when
/// the contract is paused.
pub open spec fn not_paused_check(s: State) -> Result<(), ContractError> {
    if s.paused {
        Err(ContractError::ContractPaused)
    } else {
        Ok(())
    }
}

/// The opposite read-only guard: rejected exactly when the contract is not
/// paused.
pub open spec fn paused_check(s: State) -> Result<(), ContractError> {
    if s.paused {
        Ok(())
    } else {
        Err(ContractError::ContractNotPaused)
    }
}

/// The outcome of `pause`: the admin guard first, then rejected with
/// `ContractPaused` when the flag is already set.
pub open spec fn pause_check(s: State, caller: Address) -> Result<(), ContractError> {
    match admin_check(s, caller) {
        Err(e) => Err(e),
        Ok(()) => if s.paused {
            Err(ContractError::ContractPaused)
        } else {
            Ok(())
        },
    }
}

/// The state after `pause`: the flag set and the paused event appended, or
/// unchanged on any rejection.
pub open spec fn pause_step(s: State, caller: Address, now: u64) -> State {
    if pause_check(s, caller) is Ok {
        State { paused: true, events: s.events.push(contract_paused_event(caller, now)), ..s }
    } else {
        s
    }
}

/// The outcome of `unpause`: the admin guard first, then rejected with
/// `ContractNotPaused` when the flag is already clear.
pub open spec fn unpause_check(s: State, caller: Address) -> Result<(), ContractError> {
    match admin_check(s, caller) {
        Err(e) => Err(e),
        Ok(()) => if s.paused {
            Ok(())
        } else {
            Err(ContractError::ContractNotPaused)
        },
    }
}

/// The state after `unpause`: the flag cleared and the unpaused event
/// appended, or unchanged on any rejection.
pub open spec fn unpause_step(s: State, caller: Address, now: u64) -> State {
    if unpause_check(s, caller) is Ok {
        State { paused: false, events: s.events.push(contract_unpaused_event(caller, now)), ..s }
    } else {
        s
    }
}

impl Shade {
    /// Sets the pause flag and emits the paused event with the triggering
    /// admin and the call-time timestamp; fails with `ContractPaused` when
    /// already paused, leaving the flag unchanged.
    pub fn pause(&mut self, caller: Address, now: u64) -> (r: Result<(), ContractError>)
        ensures
            r == pause_check(old(self)@, caller),
            final(self)@ == pause_step(old(self)@, caller, now),
            old(self)@.wf() ==> final(self)@.wf(),
    {
        if let Err(e) = self.assert_admin(caller) {
            return Err(e);
        }
        if self.paused {
            return Err(ContractError::ContractPaused);
        }
        self.paused = true;
        publish_contract_paused_event(&mut self.events, caller, now);
        proof {
            assert(self@ =~= pause_step(old(self)@, caller, now));
            if old(self)@.wf() {
                crate::laws::lemma_pause_preserves_wf(old(self)@, caller, now);
            }
        }
        Ok(())
    }

    /// Clears the pause flag and emits the unpaused event; fails with
    /// `ContractNotPaused` when not currently paused.
    pub fn unpause(&mut self, caller: Address, now: u64) -> (r: Result<(), ContractError>)
        ensures
            r == unpause_check(old(self)@, caller),
            final(self)@ == unpause_step(old(self)@, caller, now),
            old(self)@.wf() ==> final(self)@.wf(),
    {
        if let Err(e) = self.assert_admin(caller) {
            return Err(e);
        }
        if !self.paused {
            return Err(ContractError::ContractNotPaused);
        }
        self.paused = false;
        publish_contract_unpaused_event(&mut self.events, caller, now);
        proof {
            assert(self@ =~= unpause_step(old(self)@, caller, now));
            if old(self)@.wf() {
                crate::laws::lemma_unpause_preserves_wf(old(self)@, caller, now);
            }
        }
        Ok(())
    }

    /// Whether the contract is currently paused.
    pub fn is_paused(&self) -> (r: bool)
        ensures
            r == self@.paused,
    {
        self.paused
    }

    /// The read-only pause guard used as a precondition by mutating
    /// operations.
    pub fn assert_not_paused(&self) -> (r: Result<(), ContractError>)
        ensures
            r == not_paused_check(self@),
    {
        if self.paused {
            Err(ContractError::ContractPaused)
        } else {
            Ok(())
        }
    }

    /// The opposite read-only guard.
    pub fn assert_paused(&self) -> (r: Result<(), ContractError>)
        ensures
            r == paused_check(self@),
    {
        if self.paused {
            Ok(())
        } else {
            Err(ContractError::ContractNotPaused)
        }
    }
}

} // verus!
