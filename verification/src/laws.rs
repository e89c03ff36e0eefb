//! The laws of the contract, proved once over the transition functions of
//! the model: id sequencing, rejection without side effects, idempotent
//! token addition, last-write-wins keys, the pause round trip, record
//! stability across upgrades, and preservation of well-formedness by every
//! operation.

use crate::components::access_control::{
    grant_role_step, lemma_without_grant_props, revoke_role_step, role_change_check,
};
use crate::components::admin::{
    add_token_step, lemma_without_token_props, remove_token_step, token_change_check,
};
use crate::components::contract_core::{admin_check, initialize_step};
use crate::components::invoice::{create_invoice_check, create_invoice_step, invoice_lookup};
use crate::components::merchant::{
    lemma_without_key_distinct, merchant_lookup, register_check, register_step, set_key_check,
    set_key_step, verify_check, verify_step, without_key,
};
use crate::components::pausable::{pause_check, pause_step, unpause_check, unpause_step};
use crate::components::reentrancy::{enter_step, exit_step};
use crate::components::upgrade::{upgrade_check, upgrade_step};
use crate::errors::ContractError;
use crate::events::{contract_paused_event, contract_unpaused_event, contract_upgraded_event, token_added_event};
use crate::model::{
    lemma_merchant_id_in_bounds, lemma_merchant_id_in_congruence, lemma_merchant_id_in_none,
    lemma_merchant_id_in_push, lemma_key_in_push, lemma_push_no_duplicates, State,
};
use crate::types::{Address, Invoice, Merchant, MerchantKeyEntry, Role, RoleGrant};
use vstd::prelude::*;

verus! {

/// In every well-formed state, merchant ids are `1, 2, 3, …` in
/// registration order: the record at position `i` carries id `i + 1`.
pub proof fn lemma_merchant_ids_sequential(s: State)
    requires
        s.wf(),
    ensures
        forall|i: int| 0 <= i < s.merchants.len() ==> (#[trigger] s.merchants[i]).id == i + 1,
{
}

/// A successful registration appends exactly the next id, and touches no
/// invoice.
pub proof fn lemma_register_assigns_next_id(s: State, merchant: Address, now: u64)
    requires
        register_check(s, merchant) is Ok,
        s.merchants.len() < u64::MAX,
    ensures
        ({
            let s1 = register_step(s, merchant, now);
            &&& s1.merchants.len() == s.merchants.len() + 1
            &&& s1.merchants.last().id == s.merchants.len() + 1
            &&& s1.merchants.last().address == merchant
            &&& s1.invoices == s.invoices
        }),
{
}

/// Re-registering the same address always fails with
/// `MerchantAlreadyRegistered`, leaves the state unchanged, and so never
/// consumes an id.
pub proof fn lemma_reregister_rejected(s: State, merchant: Address, t1: u64, t2: u64)
    requires
        register_check(s, merchant) is Ok,
        s.merchants.len() < u64::MAX,
    ensures
        ({
            let s1 = register_step(s, merchant, t1);
            &&& register_check(s1, merchant) == Err::<(), ContractError>(
                ContractError::MerchantAlreadyRegistered,
            )
            &&& register_step(s1, merchant, t2) == s1
        }),
{
    let s1 = register_step(s, merchant, t1);
    lemma_merchant_id_in_push(s.merchants, s1.merchants.last(), merchant);
}

/// In every well-formed state, invoice ids are `1, 2, 3, …` in creation
/// order, on a counter of their own.
pub proof fn lemma_invoice_ids_sequential(s: State)
    requires
        s.wf(),
    ensures
        forall|i: int| 0 <= i < s.invoices.len() ==> (#[trigger] s.invoices[i]).id == i + 1,
{
}

/// A successful creation returns exactly the next invoice id — independent
/// of merchant id sequencing, which it leaves untouched.
pub proof fn lemma_create_invoice_assigns_next_id(
    s: State,
    merchant: Address,
    description: String,
    amount: i128,
    token: Address,
)
    requires
        create_invoice_check(s, merchant, amount) is Ok,
    ensures
        create_invoice_check(s, merchant, amount) == Ok::<u64, ContractError>(
            ((s.invoices.len() + 1) as u64),
        ),
        ({
            let s1 = create_invoice_step(s, merchant, description, amount, token);
            &&& s1.invoices.len() == s.invoices.len() + 1
            &&& s1.invoices.last().id == (s.invoices.len() + 1) as u64
            &&& s1.merchants == s.merchants
        }),
{
}

/// Creating an invoice for an amount that is not strictly positive fails
/// with `InvalidAmount` and consumes no id.
pub proof fn lemma_invalid_amount_consumes_no_id(
    s: State,
    merchant: Address,
    description: String,
    amount: i128,
    token: Address,
)
    requires
        !s.paused,
        s.is_registered(merchant),
        amount <= 0,
    ensures
        create_invoice_check(s, merchant, amount) == Err::<u64, ContractError>(
            ContractError::InvalidAmount,
        ),
        create_invoice_step(s, merchant, description, amount, token) == s,
{
}

/// The lookup misses on `0` and on everything above the current counter —
/// in particular on `count + 1`.
pub proof fn lemma_get_merchant_out_of_range(s: State, merchant_id: u64)
    requires
        merchant_id == 0 || merchant_id > s.merchants.len(),
    ensures
        merchant_lookup(s, merchant_id) == Err::<Merchant, ContractError>(
            ContractError::MerchantNotFound,
        ),
{
}

/// The invoice lookup misses on every id never handed out: `0` and
/// everything above the current counter.
pub proof fn lemma_get_invoice_never_created(s: State, invoice_id: u64)
    requires
        invoice_id == 0 || invoice_id > s.invoices.len(),
    ensures
        invoice_lookup(s, invoice_id) == Err::<Invoice, ContractError>(
            ContractError::InvoiceNotFound,
        ),
{
}

/// Pausing while already paused fails with `ContractPaused` and leaves the
/// flag — and everything else — unchanged.
pub proof fn lemma_double_pause_rejected(s: State, admin: Address, t1: u64, t2: u64)
    requires
        pause_check(s, admin) is Ok,
    ensures
        ({
            let s1 = pause_step(s, admin, t1);
            &&& s1.paused
            &&& pause_check(s1, admin) == Err::<(), ContractError>(ContractError::ContractPaused)
            &&& pause_step(s1, admin, t2) == s1
        }),
{
}

/// Unpausing while not paused fails with `ContractNotPaused` and changes
/// nothing.
pub proof fn lemma_unpause_unpaused_rejected(s: State, admin: Address, t: u64)
    requires
        admin_check(s, admin) is Ok,
        !s.paused,
    ensures
        unpause_check(s, admin) == Err::<(), ContractError>(ContractError::ContractNotPaused),
        unpause_step(s, admin, t) == s,
{
}

/// After pause then unpause, the contract is unpaused, and the two
/// transitions emitted exactly one event each, carrying the triggering
/// admin and the call-time timestamps; no record was touched.
pub proof fn lemma_pause_unpause_round_trip(s: State, admin: Address, t1: u64, t2: u64)
    requires
        pause_check(s, admin) is Ok,
    ensures
        ({
            let s1 = pause_step(s, admin, t1);
            let s2 = unpause_step(s1, admin, t2);
            &&& unpause_check(s1, admin) is Ok
            &&& !s2.paused
            &&& s2.events == s.events.push(contract_paused_event(admin, t1)).push(
                contract_unpaused_event(admin, t2),
            )
            &&& s2.admin == s.admin
            &&& s2.info == s.info
            &&& s2.tokens == s.tokens
            &&& s2.merchants == s.merchants
            &&& s2.keys == s.keys
            &&& s2.invoices == s.invoices
            &&& s2.roles == s.roles
            &&& s2.entered == s.entered
        }),
{
}

/// Adding the same token twice yields a deduplicated allow-list and emits
/// the token-added event only once: the second addition changes nothing at
/// all.
pub proof fn lemma_add_token_idempotent(s: State, admin: Address, token: Address, t1: u64, t2: u64)
    requires
        token_change_check(s, admin) is Ok,
    ensures
        ({
            let s1 = add_token_step(s, admin, token, t1);
            &&& token_change_check(s1, admin) is Ok
            &&& add_token_step(s1, admin, token, t2) == s1
            &&& s1.tokens.contains(token)
            &&& !s.tokens.contains(token) ==> s1.tokens == s.tokens.push(token) && s1.events
                == s.events.push(token_added_event(token, t1))
            &&& s.tokens.contains(token) ==> s1 == s
        }),
{
    let s1 = add_token_step(s, admin, token, t1);
    if !s.tokens.contains(token) {
        assert(s1.tokens.contains(token)) by {
            assert(s1.tokens[s.tokens.len() as int] == token);
        }
    }
}

/// Setting a merchant's key twice returns the most recently set value:
/// last write wins.
pub proof fn lemma_set_key_last_write_wins(
    s: State,
    merchant: Address,
    k1: [u8; 32],
    k2: [u8; 32],
    t1: u64,
    t2: u64,
)
    requires
        set_key_check(s, merchant) is Ok,
    ensures
        ({
            let s1 = set_key_step(s, merchant, k1, t1);
            let s2 = set_key_step(s1, merchant, k2, t2);
            &&& set_key_check(s1, merchant) is Ok
            &&& s1.key_of(merchant) == Some(k1)
            &&& s2.key_of(merchant) == Some(k2)
        }),
{
    let s1 = set_key_step(s, merchant, k1, t1);
    lemma_key_in_push(
        without_key(s.keys, merchant),
        MerchantKeyEntry { address: merchant, key: k1 },
        merchant,
    );
    lemma_key_in_push(
        without_key(s1.keys, merchant),
        MerchantKeyEntry { address: merchant, key: k2 },
        merchant,
    );
}

/// An upgrade leaves every persisted record untouched — the storage layout
/// is a stability contract across code versions — and appends exactly the
/// upgraded event.
pub proof fn lemma_upgrade_preserves_records(s: State, admin: Address, new_wasm_hash: [u8; 32], now: u64)
    requires
        upgrade_check(s, admin) is Ok,
    ensures
        ({
            let s1 = upgrade_step(s, admin, new_wasm_hash, now);
            &&& s1.admin == s.admin
            &&& s1.info == s.info
            &&& s1.tokens == s.tokens
            &&& s1.merchants == s.merchants
            &&& s1.keys == s.keys
            &&& s1.invoices == s.invoices
            &&& s1.roles == s.roles
            &&& s1.paused == s.paused
            &&& s1.entered == s.entered
            &&& s1.events == s.events.push(contract_upgraded_event(new_wasm_hash, now))
        }),
{
}

/// Initialization establishes well-formedness and preserves it.
pub proof fn lemma_initialize_preserves_wf(s: State, admin: Address, now: u64)
    requires
        s.wf(),
    ensures
        initialize_step(s, admin, now).wf(),
{
}

/// Pausing preserves well-formedness.
pub proof fn lemma_pause_preserves_wf(s: State, admin: Address, now: u64)
    requires
        s.wf(),
    ensures
        pause_step(s, admin, now).wf(),
{
}

/// Unpausing preserves well-formedness.
pub proof fn lemma_unpause_preserves_wf(s: State, admin: Address, now: u64)
    requires
        s.wf(),
    ensures
        unpause_step(s, admin, now).wf(),
{
}

/// The reentrancy guard's transitions preserve well-formedness.
pub proof fn lemma_guard_preserves_wf(s: State)
    requires
        s.wf(),
    ensures
        enter_step(s).wf(),
        exit_step(s).wf(),
{
}

/// Granting a role preserves well-formedness: an already-granted pair is
/// not duplicated.
pub proof fn lemma_grant_role_preserves_wf(s: State, caller: Address, user: Address, role: Role, now: u64)
    requires
        s.wf(),
    ensures
        grant_role_step(s, caller, user, role, now).wf(),
{
    if role_change_check(s, caller) is Ok && !s.has_role(user, role) {
        lemma_push_no_duplicates(s.roles, RoleGrant { user, role });
    }
}

/// Revoking a role preserves well-formedness.
pub proof fn lemma_revoke_role_preserves_wf(s: State, caller: Address, user: Address, role: Role, now: u64)
    requires
        s.wf(),
    ensures
        revoke_role_step(s, caller, user, role, now).wf(),
{
    if role_change_check(s, caller) is Ok {
        lemma_without_grant_props(s.roles, user, role);
    }
}

/// Adding a token preserves well-formedness: the membership check keeps
/// the allow-list duplicate-free.
pub proof fn lemma_add_token_preserves_wf(s: State, caller: Address, token: Address, now: u64)
    requires
        s.wf(),
    ensures
        add_token_step(s, caller, token, now).wf(),
{
    if token_change_check(s, caller) is Ok && !s.is_accepted(token) {
        lemma_push_no_duplicates(s.tokens, token);
    }
}

/// Removing a token preserves well-formedness.
pub proof fn lemma_remove_token_preserves_wf(s: State, caller: Address, token: Address, now: u64)
    requires
        s.wf(),
    ensures
        remove_token_step(s, caller, token, now).wf(),
{
    if token_change_check(s, caller) is Ok {
        lemma_without_token_props(s.tokens, token);
    }
}

/// Registration preserves well-formedness: the fresh record carries the
/// next id and a previously unseen address, and every older record — and
/// every key and invoice — stays valid.
pub proof fn lemma_register_preserves_wf(s: State, merchant: Address, now: u64)
    requires
        s.wf(),
        s.merchants.len() < u64::MAX,
    ensures
        register_step(s, merchant, now).wf(),
{
    if register_check(s, merchant) is Ok {
        let s1 = register_step(s, merchant, now);
        let ms1 = s1.merchants;
        lemma_merchant_id_in_none(s.merchants, merchant);
        assert forall|i: int, j: int| 0 <= i < j < ms1.len() implies (#[trigger] ms1[i]).address
            != (#[trigger] ms1[j]).address by {
            if j == ms1.len() - 1 {
                assert(ms1[i] == s.merchants[i]);
            }
        }
        assert forall|i: int| 0 <= i < s1.keys.len() implies s1.is_registered(
            (#[trigger] s1.keys[i]).address,
        ) by {
            assert(s.is_registered(s.keys[i].address));
            lemma_merchant_id_in_push(s.merchants, ms1.last(), s.keys[i].address);
        }
    }
}

/// Flipping a verification flag preserves well-formedness: ids, addresses
/// and every other record are untouched.
pub proof fn lemma_verify_preserves_wf(s: State, caller: Address, merchant_id: u64, status: bool, now: u64)
    requires
        s.wf(),
    ensures
        verify_step(s, caller, merchant_id, status, now).wf(),
{
    if verify_check(s, caller, merchant_id) is Ok {
        let s1 = verify_step(s, caller, merchant_id, status, now);
        assert forall|i: int| 0 <= i < s1.keys.len() implies s1.is_registered(
            (#[trigger] s1.keys[i]).address,
        ) by {
            assert(s.is_registered(s.keys[i].address));
            lemma_merchant_id_in_congruence(s.merchants, s1.merchants, s.keys[i].address);
        }
    }
}

/// Storing a signing key preserves well-formedness: one entry per address,
/// every entry's address registered.
pub proof fn lemma_set_key_preserves_wf(s: State, merchant: Address, key: [u8; 32], now: u64)
    requires
        s.wf(),
    ensures
        set_key_step(s, merchant, key, now).wf(),
{
    if set_key_check(s, merchant) is Ok {
        let s1 = set_key_step(s, merchant, key, now);
        let w = without_key(s.keys, merchant);
        lemma_without_key_distinct(s.keys, merchant);
        assert forall|i: int| 0 <= i < s1.keys.len() implies s1.is_registered(
            (#[trigger] s1.keys[i]).address,
        ) by {
            if i < w.len() {
                assert(s1.keys[i] == w[i]);
                let j = choose|j: int| 0 <= j < s.keys.len() && s.keys[j] == w[i];
                assert(s.is_registered(s.keys[j].address));
            } else {
                assert(s1.keys[i] == (MerchantKeyEntry { address: merchant, key }));
            }
        }
        assert forall|i: int, j: int| 0 <= i < j < s1.keys.len() implies (#[trigger] s1.keys[i]).address
            != (#[trigger] s1.keys[j]).address by {
            if j == s1.keys.len() - 1 {
                assert(s1.keys[i] == w[i]);
                assert(s1.keys[j].address == merchant);
            } else {
                assert(s1.keys[i] == w[i] && s1.keys[j] == w[j]);
            }
        }
    }
}

/// Creating an invoice preserves well-formedness: the fresh record carries
/// the next id, a registered merchant and a positive amount.
pub proof fn lemma_create_invoice_preserves_wf(
    s: State,
    merchant: Address,
    description: String,
    amount: i128,
    token: Address,
)
    requires
        s.wf(),
        s.invoices.len() < u64::MAX,
    ensures
        create_invoice_step(s, merchant, description, amount, token).wf(),
{
    if create_invoice_check(s, merchant, amount) is Ok {
        lemma_merchant_id_in_bounds(s.merchants, merchant);
        if let Some(idv) = s.merchant_id_of(merchant) {
            assert(1 <= idv <= s.merchants.len());
        }
        let s1 = create_invoice_step(s, merchant, description, amount, token);
        assert forall|i: int| 0 <= i < s1.invoices.len() implies {
            let inv = #[trigger] s1.invoices[i];
            &&& inv.id == i + 1
            &&& 1 <= inv.merchant_id <= s1.merchants.len()
            &&& inv.amount > 0
        } by {
            if i < s.invoices.len() {
                assert(s1.invoices[i] == s.invoices[i]);
            } else {
                assert(s1.invoices[i] == s1.invoices.last());
            }
        }
    }
}

/// An upgrade preserves well-formedness.
pub proof fn lemma_upgrade_preserves_wf(s: State, admin: Address, new_wasm_hash: [u8; 32], now: u64)
    requires
        s.wf(),
    ensures
        upgrade_step(s, admin, new_wasm_hash, now).wf(),
{
}

} // verus!
