//! The mathematical model of the persisted contract state.
//!
//! [`State`] is the abstraction every contract operation is specified
//! against: each entry point's postcondition equates the view of the updated
//! [`crate::shade::Shade`] value with a transition function over `State`,
//! and the laws of the contract are proved once, over these transitions.

use crate::events::Event;
use crate::types::{
    Address, ContractInfo, Invoice, InvoiceFilter, Merchant, MerchantFilter, MerchantKeyEntry,
    Role, RoleGrant,
};
use vstd::prelude::*;

verus! {

/// The persisted records of the contract together with the emission journal,
/// as mathematical values.
#[verifier::ext_equal]
pub struct State {
    /// The stored admin identity; `None` until initialization.
    pub admin: Option<Address>,
    /// The deployment record, written once at initialization.
    pub info: Option<ContractInfo>,
    /// The admin-curated allow-list of settlement tokens, in insertion
    /// order, without duplicates.
    pub tokens: Seq<Address>,
    /// The merchant registry; the record with id `i + 1` sits at index `i`.
    pub merchants: Seq<Merchant>,
    /// The per-merchant signing keys, one entry per merchant address.
    pub keys: Seq<MerchantKeyEntry>,
    /// The invoice ledger; the record with id `i + 1` sits at index `i`.
    pub invoices: Seq<Invoice>,
    /// The active role grants, one entry per `(user, role)` pair.
    pub roles: Seq<RoleGrant>,
    /// The pause circuit-breaker; `true` gates the mutating entry points.
    pub paused: bool,
    /// The reentrancy flag; `true` only for the dynamic extent of a guarded
    /// section.
    pub entered: bool,
    /// The emission journal, in emission order.
    pub events: Seq<Event>,
}

impl State {
    /// The state of a fresh deployment, before initialization.
    pub open spec fn initial() -> State {
        State {
            admin: None,
            info: None,
            tokens: Seq::empty(),
            merchants: Seq::empty(),
            keys: Seq::empty(),
            invoices: Seq::empty(),
            roles: Seq::empty(),
            paused: false,
            entered: false,
            events: Seq::empty(),
        }
    }

    /// Well-formedness: the cross-record invariants every operation
    /// preserves.
    pub open spec fn wf(self) -> bool {
        &&& self.wf_info()
        &&& self.wf_tokens()
        &&& self.wf_merchants()
        &&& self.wf_keys()
        &&& self.wf_invoices()
        &&& self.wf_roles()
    }

    /// The deployment record exists exactly when the admin does, and names
    /// the same admin.
    pub open spec fn wf_info(self) -> bool {
        match self.admin {
            Some(a) => self.info matches Some(i) && i.admin == a,
            None => self.info is None,
        }
    }

    /// The allow-list holds no duplicate token.
    pub open spec fn wf_tokens(self) -> bool {
        self.tokens.no_duplicates()
    }

    /// Merchant ids are the positions in the registry, shifted by one, and
    /// no two merchants share an address.
    pub open spec fn wf_merchants(self) -> bool {
        &&& forall|i: int|
            0 <= i < self.merchants.len() ==> (#[trigger] self.merchants[i]).id == i + 1
        &&& forall|i: int, j: int|
            0 <= i < j < self.merchants.len()
                ==> (#[trigger] self.merchants[i]).address != (#[trigger] self.merchants[j]).address
    }

    /// Each signing key belongs to a registered merchant, and no address has
    /// two entries.
    pub open spec fn wf_keys(self) -> bool {
        &&& forall|i: int|
            0 <= i < self.keys.len()
                ==> self.is_registered((#[trigger] self.keys[i]).address)
        &&& forall|i: int, j: int|
            0 <= i < j < self.keys.len()
                ==> (#[trigger] self.keys[i]).address != (#[trigger] self.keys[j]).address
    }

    /// Invoice ids are the positions in the ledger, shifted by one; every
    /// invoice names a registered merchant and a strictly positive amount.
    pub open spec fn wf_invoices(self) -> bool {
        forall|i: int|
            0 <= i < self.invoices.len() ==> {
                let inv = #[trigger] self.invoices[i];
                &&& inv.id == i + 1
                &&& 1 <= inv.merchant_id <= self.merchants.len()
                &&& inv.amount > 0
            }
    }

    /// No `(user, role)` pair is granted twice.
    pub open spec fn wf_roles(self) -> bool {
        self.roles.no_duplicates()
    }

    /// The id mapped to `address` in the merchant registry, if any.
    pub open spec fn merchant_id_of(self, address: Address) -> Option<u64> {
        merchant_id_in(self.merchants, address)
    }

    /// Whether `address` has a merchant record.
    pub open spec fn is_registered(self, address: Address) -> bool {
        self.merchant_id_of(address) is Some
    }

    /// The signing key stored for `address`, if any.
    pub open spec fn key_of(self, address: Address) -> Option<[u8; 32]> {
        key_in(self.keys, address)
    }

    /// Whether `(user, role)` is an active grant.
    pub open spec fn has_role(self, user: Address, role: Role) -> bool {
        self.roles.contains(RoleGrant { user, role })
    }

    /// Whether `token` is on the allow-list.
    pub open spec fn is_accepted(self, token: Address) -> bool {
        self.tokens.contains(token)
    }
}

/// The id of the merchant record for `address` among `merchants`, if any.
pub open spec fn merchant_id_in(merchants: Seq<Merchant>, address: Address) -> Option<u64>
    decreases merchants.len(),
{
    if merchants.len() == 0 {
        None
    } else if merchants.last().address == address {
        Some(merchants.last().id)
    } else {
        merchant_id_in(merchants.drop_last(), address)
    }
}

/// The signing key stored for `address` among `keys`, if any.
pub open spec fn key_in(keys: Seq<MerchantKeyEntry>, address: Address) -> Option<[u8; 32]>
    decreases keys.len(),
{
    if keys.len() == 0 {
        None
    } else if keys.last().address == address {
        Some(keys.last().key)
    } else {
        key_in(keys.drop_last(), address)
    }
}

/// How one more record changes the address-to-id lookup.
pub proof fn lemma_merchant_id_in_push(ms: Seq<Merchant>, m: Merchant, a: Address)
    ensures
        merchant_id_in(ms.push(m), a) == if m.address == a {
            Some(m.id)
        } else {
            merchant_id_in(ms, a)
        },
{
    assert(ms.push(m).drop_last() =~= ms);
    assert(ms.push(m).last() == m);
}

/// How one more entry changes the key lookup.
pub proof fn lemma_key_in_push(ks: Seq<MerchantKeyEntry>, e: MerchantKeyEntry, a: Address)
    ensures
        key_in(ks.push(e), a) == if e.address == a {
            Some(e.key)
        } else {
            key_in(ks, a)
        },
{
    assert(ks.push(e).drop_last() =~= ks);
    assert(ks.push(e).last() == e);
}

/// The lookup misses exactly when no record carries the address.
pub proof fn lemma_merchant_id_in_none(ms: Seq<Merchant>, a: Address)
    ensures
        merchant_id_in(ms, a) is None <==> forall|i: int|
            0 <= i < ms.len() ==> (#[trigger] ms[i]).address != a,
    decreases ms.len(),
{
    if ms.len() > 0 {
        lemma_merchant_id_in_none(ms.drop_last(), a);
        assert(forall|i: int|
            0 <= i < ms.len() - 1 ==> (#[trigger] ms[i]).address == ms.drop_last()[i].address);
        assert(ms[ms.len() - 1] == ms.last());
    }
}

/// In a registry whose ids are the positions shifted by one, a hit returns
/// an id within `1..=len`, and that id's record carries the address.
pub proof fn lemma_merchant_id_in_bounds(ms: Seq<Merchant>, a: Address)
    requires
        forall|i: int| 0 <= i < ms.len() ==> (#[trigger] ms[i]).id == i + 1,
    ensures
        merchant_id_in(ms, a) matches Some(id) ==> 1 <= id <= ms.len() && ms[id - 1].address == a,
    decreases ms.len(),
{
    if ms.len() > 0 {
        assert(forall|i: int|
            0 <= i < ms.len() - 1 ==> (#[trigger] ms.drop_last()[i]).id == ms[i].id);
        lemma_merchant_id_in_bounds(ms.drop_last(), a);
        assert(ms[ms.len() - 1] == ms.last());
    }
}

/// The lookup reads only ids and addresses, so it agrees on two registries
/// that agree on those.
pub proof fn lemma_merchant_id_in_congruence(ms1: Seq<Merchant>, ms2: Seq<Merchant>, a: Address)
    requires
        ms1.len() == ms2.len(),
        forall|i: int|
            0 <= i < ms1.len() ==> (#[trigger] ms1[i]).address == ms2[i].address && ms1[i].id
                == ms2[i].id,
    ensures
        merchant_id_in(ms1, a) == merchant_id_in(ms2, a),
    decreases ms1.len(),
{
    if ms1.len() > 0 {
        assert(forall|i: int|
            0 <= i < ms1.len() - 1 ==> (#[trigger] ms1.drop_last()[i]).address
                == ms2.drop_last()[i].address && ms1.drop_last()[i].id == ms2.drop_last()[i].id);
        lemma_merchant_id_in_congruence(ms1.drop_last(), ms2.drop_last(), a);
        assert(ms1[ms1.len() - 1] == ms1.last());
        assert(ms2[ms2.len() - 1] == ms2.last());
    }
}

/// Appending an element absent from a duplicate-free sequence keeps it
/// duplicate-free.
pub proof fn lemma_push_no_duplicates<A>(s: Seq<A>, x: A)
    requires
        s.no_duplicates(),
        !s.contains(x),
    ensures
        s.push(x).no_duplicates(),
{
    assert forall|i: int, j: int|
        0 <= i < s.push(x).len() && 0 <= j < s.push(x).len() && i != j implies s.push(x)[i]
        != s.push(x)[j] by {
        if j == s.len() && i < s.len() {
            assert(s.push(x)[i] == s[i]);
            if s[i] == x {
                assert(s.contains(x));
            }
        } else if i == s.len() && j < s.len() {
            assert(s.push(x)[j] == s[j]);
            if s[j] == x {
                assert(s.contains(x));
            }
        }
    }
}

/// Whether `merchant` passes the conjunctive `filter`.
pub open spec fn merchant_matches(merchant: Merchant, filter: MerchantFilter) -> bool {
    &&& (filter.is_active matches Some(a) ==> merchant.active == a)
    &&& (filter.is_verified matches Some(v) ==> merchant.verified == v)
}

/// The merchants passing `filter`, in ascending id order.
pub open spec fn filtered_merchants(merchants: Seq<Merchant>, filter: MerchantFilter) -> Seq<
    Merchant,
> {
    merchants.filter(|m: Merchant| merchant_matches(m, filter))
}

/// How one more record changes a filtered merchant scan: a match is
/// appended, a non-match dropped, order kept.
pub proof fn lemma_filtered_merchants_push(ms: Seq<Merchant>, f: MerchantFilter, m: Merchant)
    ensures
        filtered_merchants(ms.push(m), f) == if merchant_matches(m, f) {
            filtered_merchants(ms, f).push(m)
        } else {
            filtered_merchants(ms, f)
        },
{
    reveal(Seq::filter);
    assert(ms.push(m).drop_last() =~= ms);
}

/// Whether `invoice` passes the conjunctive `filter`.
pub open spec fn invoice_matches(invoice: Invoice, filter: InvoiceFilter) -> bool {
    &&& (filter.merchant_id matches Some(m) ==> invoice.merchant_id == m)
    &&& (filter.status matches Some(s) ==> invoice.status == s)
}

/// The invoices passing `filter`, in ascending id order.
pub open spec fn filtered_invoices(invoices: Seq<Invoice>, filter: InvoiceFilter) -> Seq<Invoice> {
    invoices.filter(|i: Invoice| invoice_matches(i, filter))
}

/// How one more record changes a filtered invoice scan: a match is
/// appended, a non-match dropped, order kept.
pub proof fn lemma_filtered_invoices_push(is: Seq<Invoice>, f: InvoiceFilter, inv: Invoice)
    ensures
        filtered_invoices(is.push(inv), f) == if invoice_matches(inv, f) {
            filtered_invoices(is, f).push(inv)
        } else {
            filtered_invoices(is, f)
        },
{
    reveal(Seq::filter);
    assert(is.push(inv).drop_last() =~= is);
}

} // verus!
