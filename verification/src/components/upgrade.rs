//! UpgradeManager: swapping the running code image.
//!
//! The host performs the actual image swap; the core's part is the admin
//! guard and the upgraded event.  Every persisted record — admin, tokens,
//! merchants, invoices, roles, keys, the pause flag — remains untouched by
//! an upgrade: the storage keying scheme is a stability contract across
//! code versions, and `upgrade_step` changes nothing but the journal.

use crate::components::contract_core::admin_check;
use crate::errors::ContractError;
use crate::events::{contract_upgraded_event, publish_contract_upgraded_event};
use crate::model::State;
use crate::shade::Shade;
use crate::types::Address;
use vstd::prelude::*;

verus! {

/// The outcome of `upgrade`: the admin guard alone.
pub open spec fn upgrade_check(s: State, caller: Address) -> Result<(), ContractError> {
    admin_check(s, caller)
}

/// The state after `upgrade`: every persisted record unchanged, the
/// upgraded event appended; unchanged entirely on rejection.
pub open spec fn upgrade_step(s: State, caller: Address, new_wasm_hash: [u8; 32], now: u64) -> State {
    if upgrade_check(s, caller) is Ok {
        State { events: s.events.push(contract_upgraded_event(new_wasm_hash, now)), ..s }
    } else {
        s
    }
}

impl Shade {
    /// Authorizes the swap of the running code image to the one identified
    /// by `new_wasm_hash` and emits the upgraded event carrying the hash
    /// and timestamp; requires the caller to be the admin.  The host
    /// adapter performs the swap itself after this call succeeds; every
    /// persisted record remains readable, unchanged, afterwards.
    pub fn upgrade(&mut self, caller: Address, new_wasm_hash: [u8; 32], now: u64) -> (r: Result<
        (),
        ContractError,
    >)
        ensures
            r == upgrade_check(old(self)@, caller),
            final(self)@ == upgrade_step(old(self)@, caller, new_wasm_hash, now),
            old(self)@.wf() ==> final(self)@.wf(),
    {
        if let Err(e) = self.assert_admin(caller) {
            return Err(e);
        }
        publish_contract_upgraded_event(&mut self.events, new_wasm_hash, now);
        proof {
            assert(self@ =~= upgrade_step(old(self)@, caller, new_wasm_hash, now));
            if old(self)@.wf() {
                crate::laws::lemma_upgrade_preserves_wf(old(self)@, caller, new_wasm_hash, now);
            }
        }
        Ok(())
    }
}

} // verus!
