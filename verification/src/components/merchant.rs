//! MerchantRegistry: merchant records, the verification flag, and the
//! per-merchant signing key.
//!
//! Registration is self-authorized: the host has already verified that the
//! registering address authorized the call, so no admin check runs here.
//! Ids come from a global counter starting at 1, one record per distinct
//! address.

use crate::components::contract_core::admin_check;
use crate::errors::ContractError;
use crate::events::{
    merchant_key_set_event, merchant_registered_event, merchant_verified_event,
    publish_merchant_key_set_event, publish_merchant_registered_event,
    publish_merchant_verified_event,
};
use crate::model::{filtered_merchants, lemma_filtered_merchants_push, merchant_id_in, merchant_matches, key_in, State};
use crate::shade::Shade;
use crate::types::{Address, Merchant, MerchantFilter, MerchantKeyEntry};
use vstd::prelude::*;

verus! {

/// The key entries left when `address` stores a fresh key.
pub open spec fn without_key(keys: Seq<MerchantKeyEntry>, address: Address) -> Seq<
    MerchantKeyEntry,
> {
    keys.filter(|e: MerchantKeyEntry| e.address != address)
}

/// How one more entry changes the rebuild: the overwritten address is
/// dropped, everything else is kept in order.
pub proof fn lemma_without_key_push(keys: Seq<MerchantKeyEntry>, address: Address, e: MerchantKeyEntry)
    ensures
        without_key(keys.push(e), address) == if e.address == address {
            without_key(keys, address)
        } else {
            without_key(keys, address).push(e)
        },
{
    reveal(Seq::filter);
    assert(keys.push(e).drop_last() =~= keys);
}

/// The rebuild keeps only entries of other addresses, each one an entry of
/// the list before, and keeps distinct addresses distinct.
pub proof fn lemma_without_key_distinct(keys: Seq<MerchantKeyEntry>, address: Address)
    requires
        forall|i: int, j: int|
            0 <= i < j < keys.len() ==> (#[trigger] keys[i]).address
                != (#[trigger] keys[j]).address,
    ensures
        forall|i: int|
            0 <= i < without_key(keys, address).len()
                ==> (#[trigger] without_key(keys, address)[i]).address != address && keys.contains(
                without_key(keys, address)[i],
            ),
        forall|i: int, j: int|
            0 <= i < j < without_key(keys, address).len() ==> (#[trigger] without_key(
                keys,
                address,
            )[i]).address != (#[trigger] without_key(keys, address)[j]).address,
    decreases keys.len(),
{
    reveal(Seq::filter);
    if keys.len() > 0 {
        let d = keys.drop_last();
        let last = keys.last();
        assert(forall|i: int| 0 <= i < d.len() ==> #[trigger] d[i] == keys[i]);
        lemma_without_key_distinct(d, address);
        let wd = without_key(d, address);
        if last.address != address {
            let w = without_key(keys, address);
            assert(w == wd.push(last));
            assert(keys[keys.len() - 1] == last);
            assert forall|i: int| 0 <= i < w.len() implies (#[trigger] w[i]).address != address
                && keys.contains(w[i]) by {
                if i < wd.len() {
                    assert(w[i] == wd[i]);
                    let j = choose|j: int| 0 <= j < d.len() && d[j] == wd[i];
                    assert(keys[j] == wd[i]);
                } else {
                    assert(w[i] == last);
                }
            }
            assert forall|i: int, j: int| 0 <= i < j < w.len() implies (#[trigger] w[i]).address
                != (#[trigger] w[j]).address by {
                if j < wd.len() {
                    assert(w[i] == wd[i] && w[j] == wd[j]);
                } else {
                    assert(w[j] == last);
                    assert(w[i] == wd[i]);
                    let k = choose|k: int| 0 <= k < d.len() && d[k] == wd[i];
                    assert(keys[k] == wd[i]);
                    assert(keys[k].address != keys[keys.len() - 1].address);
                }
            }
        }
    }
}

/// The outcome of `register_merchant`: the pause gate, then rejected with
/// `MerchantAlreadyRegistered` when an id mapping exists for the address.
pub open spec fn register_check(s: State, merchant: Address) -> Result<(), ContractError> {
    if s.paused {
        Err(ContractError::ContractPaused)
    } else if s.is_registered(merchant) {
        Err(ContractError::MerchantAlreadyRegistered)
    } else {
        Ok(())
    }
}

/// The state after `register_merchant`: the next id from the global
/// counter, a fresh active, unverified record, and the registered event;
/// unchanged on rejection.
pub open spec fn register_step(s: State, merchant: Address, now: u64) -> State {
    if register_check(s, merchant) is Err {
        s
    } else {
        let id = (s.merchants.len() + 1) as u64;
        State {
            merchants: s.merchants.push(
                Merchant {
                    id,
                    address: merchant,
                    active: true,
                    verified: false,
                    registered_at: now,
                },
            ),
            events: s.events.push(merchant_registered_event(merchant, id, now)),
            ..s
        }
    }
}

/// The outcome of `get_merchant`: the stored record, or `MerchantNotFound`
/// exactly when the id is `0` or exceeds the current counter.
pub open spec fn merchant_lookup(s: State, merchant_id: u64) -> Result<Merchant, ContractError> {
    if 1 <= merchant_id <= s.merchants.len() {
        Ok(s.merchants[merchant_id - 1])
    } else {
        Err(ContractError::MerchantNotFound)
    }
}

/// The outcome of `verify_merchant`: the admin guard, then the lookup.
pub open spec fn verify_check(s: State, caller: Address, merchant_id: u64) -> Result<
    (),
    ContractError,
> {
    match admin_check(s, caller) {
        Err(e) => Err(e),
        Ok(()) => match merchant_lookup(s, merchant_id) {
            Err(e) => Err(e),
            Ok(_) => Ok(()),
        },
    }
}

/// The state after `verify_merchant`: the record's `verified` flag set to
/// `status` and the verified event appended; unchanged on rejection.
pub open spec fn verify_step(s: State, caller: Address, merchant_id: u64, status: bool, now: u64) -> State {
    if verify_check(s, caller, merchant_id) is Err {
        s
    } else {
        let i = merchant_id - 1;
        State {
            merchants: s.merchants.update(i, Merchant { verified: status, ..s.merchants[i] }),
            events: s.events.push(merchant_verified_event(merchant_id, status, now)),
            ..s
        }
    }
}

/// The outcome of `is_merchant_verified`: the record's flag, through the
/// same lookup.
pub open spec fn verified_lookup(s: State, merchant_id: u64) -> Result<bool, ContractError> {
    match merchant_lookup(s, merchant_id) {
        Ok(m) => Ok(m.verified),
        Err(e) => Err(e),
    }
}

/// The outcome of `set_merchant_key`: rejected with `MerchantNotFound`
/// unless the address is registered; independent of verification status.
pub open spec fn set_key_check(s: State, merchant: Address) -> Result<(), ContractError> {
    if s.is_registered(merchant) {
        Ok(())
    } else {
        Err(ContractError::MerchantNotFound)
    }
}

/// The state after `set_merchant_key`: any previous entry for the address
/// replaced by the new key — last write wins — and the key-set event
/// appended; unchanged on rejection.
pub open spec fn set_key_step(s: State, merchant: Address, key: [u8; 32], now: u64) -> State {
    if set_key_check(s, merchant) is Err {
        s
    } else {
        State {
            keys: without_key(s.keys, merchant).push(MerchantKeyEntry { address: merchant, key }),
            events: s.events.push(merchant_key_set_event(merchant, key, now)),
            ..s
        }
    }
}

/// The outcome of `get_merchant_key`: the stored key, or
/// `MerchantKeyNotFound` when none was ever set.
pub open spec fn key_lookup(s: State, merchant: Address) -> Result<[u8; 32], ContractError> {
    match s.key_of(merchant) {
        Some(k) => Ok(k),
        None => Err(ContractError::MerchantKeyNotFound),
    }
}

impl Shade {
    /// Registers the calling address as a merchant: allocates the next id,
    /// stores the record, and emits the registered event.  Self-authorized:
    /// the host has verified that `merchant` authorized the call.  Fails
    /// with `MerchantAlreadyRegistered` on a second registration of the
    /// same address, consuming no id.
    pub fn register_merchant(&mut self, merchant: Address, now: u64) -> (r: Result<
        (),
        ContractError,
    >)
        requires
            old(self)@.merchants.len() < u64::MAX,
        ensures
            r == register_check(old(self)@, merchant),
            final(self)@ == register_step(old(self)@, merchant, now),
            old(self)@.wf() ==> final(self)@.wf(),
    {
        if self.paused {
            return Err(ContractError::ContractPaused);
        }
        if self.is_merchant(merchant) {
            return Err(ContractError::MerchantAlreadyRegistered);
        }
        let new_id: u64 = (self.merchants.len() as u64) + 1;
        self.merchants.push(
            Merchant { id: new_id, address: merchant, active: true, verified: false, registered_at: now },
        );
        publish_merchant_registered_event(&mut self.events, merchant, new_id, now);
        proof {
            assert(self@ =~= register_step(old(self)@, merchant, now));
            if old(self)@.wf() {
                crate::laws::lemma_register_preserves_wf(old(self)@, merchant, now);
            }
        }
        Ok(())
    }

    /// Returns the record stored under `merchant_id`; fails with
    /// `MerchantNotFound` when the id is `0` or exceeds the current
    /// counter.
    pub fn get_merchant(&self, merchant_id: u64) -> (r: Result<Merchant, ContractError>)
        ensures
            r == merchant_lookup(self@, merchant_id),
    {
        if merchant_id == 0 {
            return Err(ContractError::MerchantNotFound);
        }
        if merchant_id > self.merchants.len() as u64 {
            return Err(ContractError::MerchantNotFound);
        }
        Ok(self.merchants[(merchant_id - 1) as usize])
    }

    /// Whether `merchant` has a record: a pure existence check on the
    /// address-to-id mapping.
    pub fn is_merchant(&self, merchant: Address) -> (r: bool)
        ensures
            r == self@.is_registered(merchant),
    {
        let mut i: usize = self.merchants.len();
        proof {
            assert(self.merchants@.take(i as int) =~= self.merchants@);
        }
        while i > 0
            invariant
                i <= self.merchants.len(),
                merchant_id_in(self.merchants@, merchant) == merchant_id_in(
                    self.merchants@.take(i as int),
                    merchant,
                ),
            decreases i,
        {
            i -= 1;
            let m = self.merchants[i];
            proof {
                assert(self.merchants@.take(i + 1int).drop_last() =~= self.merchants@.take(
                    i as int,
                ));
                assert(self.merchants@.take(i + 1int).last() == m);
            }
            if m.address == merchant {
                return true;
            }
        }
        proof {
            assert(self.merchants@.take(0int) =~= Seq::<Merchant>::empty());
        }
        false
    }

    /// The id mapped to `merchant` in the address-to-id mapping, if any.
    pub fn merchant_id_for(&self, merchant: Address) -> (r: Option<u64>)
        ensures
            r == self@.merchant_id_of(merchant),
    {
        let mut i: usize = self.merchants.len();
        proof {
            assert(self.merchants@.take(i as int) =~= self.merchants@);
        }
        while i > 0
            invariant
                i <= self.merchants.len(),
                merchant_id_in(self.merchants@, merchant) == merchant_id_in(
                    self.merchants@.take(i as int),
                    merchant,
                ),
            decreases i,
        {
            i -= 1;
            let m = self.merchants[i];
            proof {
                assert(self.merchants@.take(i + 1int).drop_last() =~= self.merchants@.take(
                    i as int,
                ));
                assert(self.merchants@.take(i + 1int).last() == m);
            }
            if m.address == merchant {
                return Some(m.id);
            }
        }
        proof {
            assert(self.merchants@.take(0int) =~= Seq::<Merchant>::empty());
        }
        None
    }

    /// Sets the record's verification flag to `status` and emits the
    /// verified event carrying the new status; requires the caller to be
    /// the admin, and propagates `MerchantNotFound` from the lookup.
    pub fn verify_merchant(&mut self, caller: Address, merchant_id: u64, status: bool, now: u64) -> (r:
        Result<(), ContractError>)
        ensures
            r == verify_check(old(self)@, caller, merchant_id),
            final(self)@ == verify_step(old(self)@, caller, merchant_id, status, now),
            old(self)@.wf() ==> final(self)@.wf(),
    {
        if let Err(e) = self.assert_admin(caller) {
            return Err(e);
        }
        if merchant_id == 0 || merchant_id > self.merchants.len() as u64 {
            return Err(ContractError::MerchantNotFound);
        }
        let i = (merchant_id - 1) as usize;
        let m = self.merchants[i];
        self.merchants.set(i, Merchant { verified: status, ..m });
        publish_merchant_verified_event(&mut self.events, merchant_id, status, now);
        proof {
            assert(self@ =~= verify_step(old(self)@, caller, merchant_id, status, now));
            if old(self)@.wf() {
                crate::laws::lemma_verify_preserves_wf(old(self)@, caller, merchant_id, status, now);
            }
        }
        Ok(())
    }

    /// Reads the record's verification flag through the same lookup as
    /// `get_merchant`.
    pub fn is_merchant_verified(&self, merchant_id: u64) -> (r: Result<bool, ContractError>)
        ensures
            r == verified_lookup(self@, merchant_id),
    {
        match self.get_merchant(merchant_id) {
            Ok(m) => Ok(m.verified),
            Err(e) => Err(e),
        }
    }

    /// Stores or overwrites — last write wins — the 32-byte signing key of
    /// the calling merchant, and emits the key-set event.  Self-authorized;
    /// fails with `MerchantNotFound` if the address is not registered;
    /// independent of verification status.
    pub fn set_merchant_key(&mut self, merchant: Address, key: [u8; 32], now: u64) -> (r: Result<
        (),
        ContractError,
    >)
        ensures
            r == set_key_check(old(self)@, merchant),
            final(self)@ == set_key_step(old(self)@, merchant, key, now),
            old(self)@.wf() ==> final(self)@.wf(),
    {
        if !self.is_merchant(merchant) {
            return Err(ContractError::MerchantNotFound);
        }
        let n = self.merchant_keys.len();
        let mut kept: Vec<MerchantKeyEntry> = Vec::new();
        let mut i: usize = 0;
        proof {
            assert(self.merchant_keys@.take(0int) =~= Seq::<MerchantKeyEntry>::empty());
            reveal(Seq::filter);
        }
        while i < n
            invariant
                n == self.merchant_keys.len(),
                0 <= i <= n,
                kept@ == without_key(self.merchant_keys@.take(i as int), merchant),
            decreases n - i,
        {
            let e = self.merchant_keys[i];
            proof {
                assert(self.merchant_keys@.take(i + 1int) =~= self.merchant_keys@.take(
                    i as int,
                ).push(e));
                lemma_without_key_push(self.merchant_keys@.take(i as int), merchant, e);
            }
            if !(e.address == merchant) {
                kept.push(e);
            }
            i += 1;
        }
        proof {
            assert(self.merchant_keys@.take(n as int) =~= self.merchant_keys@);
        }
        kept.push(MerchantKeyEntry { address: merchant, key });
        self.merchant_keys = kept;
        publish_merchant_key_set_event(&mut self.events, merchant, key, now);
        proof {
            assert(self@ =~= set_key_step(old(self)@, merchant, key, now));
            if old(self)@.wf() {
                crate::laws::lemma_set_key_preserves_wf(old(self)@, merchant, key, now);
            }
        }
        Ok(())
    }

    /// Returns the most recently set signing key of `merchant`; fails with
    /// `MerchantKeyNotFound` when none was ever set.
    pub fn get_merchant_key(&self, merchant: Address) -> (r: Result<[u8; 32], ContractError>)
        ensures
            r == key_lookup(self@, merchant),
    {
        let mut i: usize = self.merchant_keys.len();
        proof {
            assert(self.merchant_keys@.take(i as int) =~= self.merchant_keys@);
        }
        while i > 0
            invariant
                i <= self.merchant_keys.len(),
                key_in(self.merchant_keys@, merchant) == key_in(
                    self.merchant_keys@.take(i as int),
                    merchant,
                ),
            decreases i,
        {
            i -= 1;
            let e = self.merchant_keys[i];
            proof {
                assert(self.merchant_keys@.take(i + 1int).drop_last() =~= self.merchant_keys@.take(
                    i as int,
                ));
                assert(self.merchant_keys@.take(i + 1int).last() == e);
            }
            if e.address == merchant {
                return Ok(e.key);
            }
        }
        proof {
            assert(self.merchant_keys@.take(0int) =~= Seq::<MerchantKeyEntry>::empty());
        }
        Err(ContractError::MerchantKeyNotFound)
    }

    /// Scans ids `1..=count` in order and returns the records passing the
    /// conjunctive `filter`, in ascending id order.  A linear, unbounded
    /// read whose cost scales with the total merchant count.
    pub fn get_merchants(&self, filter: MerchantFilter) -> (r: Vec<Merchant>)
        ensures
            r@ == filtered_merchants(self@.merchants, filter),
    {
        let n = self.merchants.len();
        let mut out: Vec<Merchant> = Vec::new();
        let mut i: usize = 0;
        proof {
            assert(self.merchants@.take(0int) =~= Seq::<Merchant>::empty());
            reveal(Seq::filter);
        }
        while i < n
            invariant
                n == self.merchants.len(),
                0 <= i <= n,
                out@ == filtered_merchants(self.merchants@.take(i as int), filter),
            decreases n - i,
        {
            let m = self.merchants[i];
            proof {
                assert(self.merchants@.take(i + 1int) =~= self.merchants@.take(i as int).push(m));
                lemma_filtered_merchants_push(self.merchants@.take(i as int), filter, m);
            }
            let mut keep = true;
            if let Some(active) = filter.is_active {
                if m.active != active {
                    keep = false;
                }
            }
            if let Some(verified) = filter.is_verified {
                if m.verified != verified {
                    keep = false;
                }
            }
            proof {
                assert(keep == merchant_matches(m, filter));
            }
            if keep {
                out.push(m);
            }
            i += 1;
        }
        proof {
            assert(self.merchants@.take(n as int) =~= self.merchants@);
        }
        out
    }
}

} // verus!
