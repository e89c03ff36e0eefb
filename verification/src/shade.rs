//! The contract state and its abstraction.
//!
//! [`Shade`] holds, as plain values, every record the contract keeps in the
//! host's persistent store, together with the emission journal.  The host
//! adapter owns the storage round-trip: it materializes a `Shade` value from
//! the store, calls one entry point, and — only on success — writes the
//! updated records back and delivers the appended journal entries, so the
//! host's transactional commit gives every operation all-or-nothing effect.
//!
//! The entry points themselves are defined component by component under
//! [`crate::components`], each against the transition functions over
//! [`State`].

use crate::events::Event;
use crate::model::State;
use crate::types::{Address, ContractInfo, Invoice, Merchant, MerchantKeyEntry, RoleGrant};
use vstd::prelude::*;

verus! {

/// The full persisted state of the invoicing contract.
pub struct Shade {
    /// The stored admin identity; `None` until initialization.
    pub admin: Option<Address>,
    /// The deployment record, written once at initialization.
    pub contract_info: Option<ContractInfo>,
    /// The allow-list of settlement tokens, in insertion order.
    pub accepted_tokens: Vec<Address>,
    /// The merchant registry; the record with id `i + 1` sits at index `i`.
    pub merchants: Vec<Merchant>,
    /// The per-merchant signing keys.
    pub merchant_keys: Vec<MerchantKeyEntry>,
    /// The invoice ledger; the record with id `i + 1` sits at index `i`.
    pub invoices: Vec<Invoice>,
    /// The active role grants.
    pub roles: Vec<RoleGrant>,
    /// The pause circuit-breaker.
    pub paused: bool,
    /// The reentrancy flag.
    pub entered: bool,
    /// The emission journal, in emission order.
    pub events: Vec<Event>,
}

impl View for Shade {
    type V = State;

    open spec fn view(&self) -> State {
        State {
            admin: self.admin,
            info: self.contract_info,
            tokens: self.accepted_tokens@,
            merchants: self.merchants@,
            keys: self.merchant_keys@,
            invoices: self.invoices@,
            roles: self.roles@,
            paused: self.paused,
            entered: self.entered,
            events: self.events@,
        }
    }
}

impl Shade {
    /// The state of a fresh deployment: nothing stored, nothing emitted,
    /// both flags clear.
    pub fn new() -> (s: Shade)
        ensures
            s@ == State::initial(),
            s@.wf(),
    {
        let s = Shade {
            admin: None,
            contract_info: None,
            accepted_tokens: Vec::new(),
            merchants: Vec::new(),
            merchant_keys: Vec::new(),
            invoices: Vec::new(),
            roles: Vec::new(),
            paused: false,
            entered: false,
            events: Vec::new(),
        };
        proof {
            assert(s@ =~= State::initial());
        }
        s
    }

    /// The emission journal so far, oldest first.
    pub fn journal(&self) -> (j: &Vec<Event>)
        ensures
            j@ == self@.events,
    {
        &self.events
    }
}

} // verus!
