//! ReentrancyGuard: the single-flag call-depth sentinel.
//!
//! An invocation may transitively invoke other contracts — reading a
//! token's display symbol, for instance — and such a call may re-enter a
//! guarded entry point of this contract before returning.  Every guarded
//! operation sets the flag on entry and clears it on every exit path, so a
//! nested call finds it set and is rejected before it can corrupt state.

use crate::errors::ContractError;
use crate::model::State;
use crate::shade::Shade;
use vstd::prelude::*;

verus! {

/// The outcome of `enter`: rejected exactly when a guarded section is
/// already active.
pub open spec fn enter_check(s: State) -> Result<(), ContractError> {
    if s.entered {
        Err(ContractError::Reentrancy)
    } else {
        Ok(())
    }
}

/// The state after `enter`: the flag set, or unchanged on rejection.
pub open spec fn enter_step(s: State) -> State {
    if s.entered {
        s
    } else {
        State { entered: true, ..s }
    }
}

/// The state after `exit`: the flag cleared unconditionally.
pub open spec fn exit_step(s: State) -> State {
    State { entered: false, ..s }
}

impl Shade {
    /// Opens a guarded section; fails with `Reentrancy` if one is already
    /// open.
    pub fn enter(&mut self) -> (r: Result<(), ContractError>)
        ensures
            r == enter_check(old(self)@),
            final(self)@ == enter_step(old(self)@),
            old(self)@.wf() ==> final(self)@.wf(),
    {
        if self.entered {
            return Err(ContractError::Reentrancy);
        }
        self.entered = true;
        proof {
            assert(self@ =~= enter_step(old(self)@));
        }
        Ok(())
    }

    /// Closes the guarded section, clearing the flag unconditionally so it
    /// never leaks `true` across calls.
    pub fn exit(&mut self)
        ensures
            final(self)@ == exit_step(old(self)@),
            old(self)@.wf() ==> final(self)@.wf(),
    {
        self.entered = false;
        proof {
            assert(self@ =~= exit_step(old(self)@));
        }
    }
}

} // verus!
