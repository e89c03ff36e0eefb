//! Typed event emission.  The host owns the append-only event log; the core
//! records every emission, in order, in an in-state journal of `Event`
//! entries, and the host adapter delivers each appended entry to the log.
//!
//! Each event has a fixed schema, one struct per schema, and one publish
//! function per event, shared by every component that emits it.

use crate::types::{Address, Role};
use vstd::prelude::*;

verus! {

/// Emitted once, by initialization.
#[derive(Clone, Copy, Debug, PartialEq, Eq)]
pub struct InitalizedEvent {
    pub admin: Address,
    pub timestamp: u64,
}

/// Emitted when a token is first added to the allow-list.
#[derive(Clone, Copy, Debug, PartialEq, Eq)]
pub struct TokenAddedEvent {
    pub token: Address,
    pub timestamp: u64,
}

/// Emitted when a present token is removed from the allow-list.
#[derive(Clone, Copy, Debug, PartialEq, Eq)]
pub struct TokenRemovedEvent {
    pub token: Address,
    pub timestamp: u64,
}

/// Emitted when a merchant record is created.
#[derive(Clone, Copy, Debug, PartialEq, Eq)]
pub struct MerchantRegisteredEvent {
    pub merchant: Address,
    pub merchant_id: u64,
    pub timestamp: u64,
}

/// Emitted when an invoice is created.
#[derive(Clone, Copy, Debug, PartialEq, Eq)]
pub struct InvoiceCreatedEvent {
    pub invoice_id: u64,
    pub merchant: Address,
    pub amount: i128,
    pub token: Address,
}

/// Emitted when the admin sets a merchant's verification flag; carries the
/// new status.
#[derive(Clone, Copy, Debug, PartialEq, Eq)]
pub struct MerchantVerifiedEvent {
    pub merchant_id: u64,
    pub status: bool,
    pub timestamp: u64,
}

/// Emitted when a merchant stores or overwrites its signing key.
#[derive(Clone, Copy, Debug, PartialEq, Eq)]
pub struct MerchantKeySetEvent {
    pub merchant: Address,
    pub key: [u8; 32],
    pub timestamp: u64,
}

/// Emitted by every `grant_role` call, recording intent rather than a state
/// delta: an idempotent re-grant emits it again.
#[derive(Clone, Copy, Debug, PartialEq, Eq)]
pub struct RoleGrantedEvent {
    pub user: Address,
    pub role: Role,
    pub timestamp: u64,
}

/// Emitted by every `revoke_role` call, recording intent rather than a state
/// delta: revoking an absent grant emits it again.
#[derive(Clone, Copy, Debug, PartialEq, Eq)]
pub struct RoleRevokedEvent {
    pub user: Address,
    pub role: Role,
    pub timestamp: u64,
}

/// Emitted when the admin pauses the contract.
#[derive(Clone, Copy, Debug, PartialEq, Eq)]
pub struct ContractPausedEvent {
    pub admin: Address,
    pub timestamp: u64,
}

/// Emitted when the admin unpauses the contract.
#[derive(Clone, Copy, Debug, PartialEq, Eq)]
pub struct ContractUnpausedEvent {
    pub admin: Address,
    pub timestamp: u64,
}

/// Emitted when the admin swaps the running code image.
#[derive(Clone, Copy, Debug, PartialEq, Eq)]
pub struct ContractUpgradedEvent {
    pub new_wasm_hash: [u8; 32],
    pub timestamp: u64,
}

/// One entry of the emission journal: any event of the contract, in the
/// order it was emitted.
#[derive(Clone, Copy, Debug, PartialEq, Eq)]
pub enum Event {
    Initalized(InitalizedEvent),
    TokenAdded(TokenAddedEvent),
    TokenRemoved(TokenRemovedEvent),
    MerchantRegistered(MerchantRegisteredEvent),
    InvoiceCreated(InvoiceCreatedEvent),
    MerchantVerified(MerchantVerifiedEvent),
    MerchantKeySet(MerchantKeySetEvent),
    RoleGranted(RoleGrantedEvent),
    RoleRevoked(RoleRevokedEvent),
    ContractPaused(ContractPausedEvent),
    ContractUnpaused(ContractUnpausedEvent),
    ContractUpgraded(ContractUpgradedEvent),
}

/// The journal entry an initialization emits.
pub open spec fn initalized_event(admin: Address, timestamp: u64) -> Event {
    Event::Initalized(InitalizedEvent { admin, timestamp })
}

/// The journal entry a first-time token addition emits.
pub open spec fn token_added_event(token: Address, timestamp: u64) -> Event {
    Event::TokenAdded(TokenAddedEvent { token, timestamp })
}

/// The journal entry a token removal emits.
pub open spec fn token_removed_event(token: Address, timestamp: u64) -> Event {
    Event::TokenRemoved(TokenRemovedEvent { token, timestamp })
}

/// The journal entry a merchant registration emits.
pub open spec fn merchant_registered_event(merchant: Address, merchant_id: u64, timestamp: u64) -> Event {
    Event::MerchantRegistered(MerchantRegisteredEvent { merchant, merchant_id, timestamp })
}

/// The journal entry an invoice creation emits.
pub open spec fn invoice_created_event(
    invoice_id: u64,
    merchant: Address,
    amount: i128,
    token: Address,
) -> Event {
    Event::InvoiceCreated(InvoiceCreatedEvent { invoice_id, merchant, amount, token })
}

/// The journal entry a verification-flag update emits.
pub open spec fn merchant_verified_event(merchant_id: u64, status: bool, timestamp: u64) -> Event {
    Event::MerchantVerified(MerchantVerifiedEvent { merchant_id, status, timestamp })
}

/// The journal entry a key store emits.
pub open spec fn merchant_key_set_event(merchant: Address, key: [u8; 32], timestamp: u64) -> Event {
    Event::MerchantKeySet(MerchantKeySetEvent { merchant, key, timestamp })
}

/// The journal entry a role grant emits.
pub open spec fn role_granted_event(user: Address, role: Role, timestamp: u64) -> Event {
    Event::RoleGranted(RoleGrantedEvent { user, role, timestamp })
}

/// The journal entry a role revocation emits.
pub open spec fn role_revoked_event(user: Address, role: Role, timestamp: u64) -> Event {
    Event::RoleRevoked(RoleRevokedEvent { user, role, timestamp })
}

/// The journal entry a pause emits.
pub open spec fn contract_paused_event(admin: Address, timestamp: u64) -> Event {
    Event::ContractPaused(ContractPausedEvent { admin, timestamp })
}

/// The journal entry an unpause emits.
pub open spec fn contract_unpaused_event(admin: Address, timestamp: u64) -> Event {
    Event::ContractUnpaused(ContractUnpausedEvent { admin, timestamp })
}

/// The journal entry an upgrade emits.
pub open spec fn contract_upgraded_event(new_wasm_hash: [u8; 32], timestamp: u64) -> Event {
    Event::ContractUpgraded(ContractUpgradedEvent { new_wasm_hash, timestamp })
}

/// Appends the initialization event to the journal.
pub fn publish_initialized_event(journal: &mut Vec<Event>, admin: Address, timestamp: u64)
    ensures
        final(journal)@ == old(journal)@.push(initalized_event(admin, timestamp)),
{
    journal.push(Event::Initalized(InitalizedEvent { admin, timestamp }));
}

/// Appends the token-added event to the journal.
pub fn publish_token_added_event(journal: &mut Vec<Event>, token: Address, timestamp: u64)
    ensures
        final(journal)@ == old(journal)@.push(token_added_event(token, timestamp)),
{
    journal.push(Event::TokenAdded(TokenAddedEvent { token, timestamp }));
}

/// Appends the token-removed event to the journal.
pub fn publish_token_removed_event(journal: &mut Vec<Event>, token: Address, timestamp: u64)
    ensures
        final(journal)@ == old(journal)@.push(token_removed_event(token, timestamp)),
{
    journal.push(Event::TokenRemoved(TokenRemovedEvent { token, timestamp }));
}

/// Appends the merchant-registered event to the journal.
pub fn publish_merchant_registered_event(
    journal: &mut Vec<Event>,
    merchant: Address,
    merchant_id: u64,
    timestamp: u64,
)
    ensures
        final(journal)@ == old(journal)@.push(
            merchant_registered_event(merchant, merchant_id, timestamp),
        ),
{
    journal.push(Event::MerchantRegistered(MerchantRegisteredEvent {
        merchant,
        merchant_id,
        timestamp,
    }));
}

/// Appends the invoice-created event to the journal.
pub fn publish_invoice_created_event(
    journal: &mut Vec<Event>,
    invoice_id: u64,
    merchant: Address,
    amount: i128,
    token: Address,
)
    ensures
        final(journal)@ == old(journal)@.push(
            invoice_created_event(invoice_id, merchant, amount, token),
        ),
{
    journal.push(Event::InvoiceCreated(InvoiceCreatedEvent { invoice_id, merchant, amount, token }));
}

/// Appends the merchant-verified event to the journal.
pub fn publish_merchant_verified_event(
    journal: &mut Vec<Event>,
    merchant_id: u64,
    status: bool,
    timestamp: u64,
)
    ensures
        final(journal)@ == old(journal)@.push(
            merchant_verified_event(merchant_id, status, timestamp),
        ),
{
    journal.push(Event::MerchantVerified(MerchantVerifiedEvent { merchant_id, status, timestamp }));
}

/// Appends the merchant-key-set event to the journal.
pub fn publish_merchant_key_set_event(
    journal: &mut Vec<Event>,
    merchant: Address,
    key: [u8; 32],
    timestamp: u64,
)
    ensures
        final(journal)@ == old(journal)@.push(merchant_key_set_event(merchant, key, timestamp)),
{
    journal.push(Event::MerchantKeySet(MerchantKeySetEvent { merchant, key, timestamp }));
}

/// Appends the role-granted event to the journal.
pub fn publish_role_granted_event(journal: &mut Vec<Event>, user: Address, role: Role, timestamp: u64)
    ensures
        final(journal)@ == old(journal)@.push(role_granted_event(user, role, timestamp)),
{
    journal.push(Event::RoleGranted(RoleGrantedEvent { user, role, timestamp }));
}

/// Appends the role-revoked event to the journal.
pub fn publish_role_revoked_event(journal: &mut Vec<Event>, user: Address, role: Role, timestamp: u64)
    ensures
        final(journal)@ == old(journal)@.push(role_revoked_event(user, role, timestamp)),
{
    journal.push(Event::RoleRevoked(RoleRevokedEvent { user, role, timestamp }));
}

/// Appends the contract-paused event to the journal.
pub fn publish_contract_paused_event(journal: &mut Vec<Event>, admin: Address, timestamp: u64)
    ensures
        final(journal)@ == old(journal)@.push(contract_paused_event(admin, timestamp)),
{
    journal.push(Event::ContractPaused(ContractPausedEvent { admin, timestamp }));
}

/// Appends the contract-unpaused event to the journal.
pub fn publish_contract_unpaused_event(journal: &mut Vec<Event>, admin: Address, timestamp: u64)
    ensures
        final(journal)@ == old(journal)@.push(contract_unpaused_event(admin, timestamp)),
{
    journal.push(Event::ContractUnpaused(ContractUnpausedEvent { admin, timestamp }));
}

/// Appends the contract-upgraded event to the journal.
pub fn publish_contract_upgraded_event(
    journal: &mut Vec<Event>,
    new_wasm_hash: [u8; 32],
    timestamp: u64,
)
    ensures
        final(journal)@ == old(journal)@.push(contract_upgraded_event(new_wasm_hash, timestamp)),
{
    journal.push(Event::ContractUpgraded(ContractUpgradedEvent { new_wasm_hash, timestamp }));
}

} // verus!
