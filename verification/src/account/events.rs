//! Typed event emission of the merchant account unit, mirroring the core's
//! journal pattern: one struct per schema, one publish function per event.

use crate::types::Address;
use vstd::prelude::*;

verus! {

/// Emitted once, by account initialization.
#[derive(Clone, Copy, Debug, PartialEq, Eq)]
pub struct AccountInitalizedEvent {
    pub merchant: Address,
    pub merchant_id: u64,
    pub timestamp: u64,
}

/// Emitted when a token is first added to the tracked list.
#[derive(Clone, Copy, Debug, PartialEq, Eq)]
pub struct TokenAddedEvent {
    pub token: Address,
    pub timestamp: u64,
}

/// Emitted when the manager verifies the account.
#[derive(Clone, Copy, Debug, PartialEq, Eq)]
pub struct AccountVerified {
    pub timestamp: u64,
}

/// One entry of the account's emission journal.
#[derive(Clone, Copy, Debug, PartialEq, Eq)]
pub enum AccountEvent {
    Initalized(AccountInitalizedEvent),
    TokenAdded(TokenAddedEvent),
    Verified(AccountVerified),
}

/// The journal entry an account initialization emits.
pub open spec fn account_initalized_event(merchant: Address, merchant_id: u64, timestamp: u64) -> AccountEvent {
    AccountEvent::Initalized(AccountInitalizedEvent { merchant, merchant_id, timestamp })
}

/// The journal entry a first-time token addition emits.
pub open spec fn account_token_added_event(token: Address, timestamp: u64) -> AccountEvent {
    AccountEvent::TokenAdded(TokenAddedEvent { token, timestamp })
}

/// The journal entry a verification emits.
pub open spec fn account_verified_event(timestamp: u64) -> AccountEvent {
    AccountEvent::Verified(AccountVerified { timestamp })
}

/// Appends the account-initialized event to the journal.
pub fn publish_account_initialized_event(
    journal: &mut Vec<AccountEvent>,
    merchant: Address,
    merchant_id: u64,
    timestamp: u64,
)
    ensures
        final(journal)@ == old(journal)@.push(
            account_initalized_event(merchant, merchant_id, timestamp),
        ),
{
    journal.push(AccountEvent::Initalized(AccountInitalizedEvent {
        merchant,
        merchant_id,
        timestamp,
    }));
}

/// Appends the token-added event to the journal.
pub fn publish_token_added_event(journal: &mut Vec<AccountEvent>, token: Address, timestamp: u64)
    ensures
        final(journal)@ == old(journal)@.push(account_token_added_event(token, timestamp)),
{
    journal.push(AccountEvent::TokenAdded(TokenAddedEvent { token, timestamp }));
}

/// Appends the account-verified event to the journal.
pub fn publish_account_verified_event(journal: &mut Vec<AccountEvent>, timestamp: u64)
    ensures
        final(journal)@ == old(journal)@.push(account_verified_event(timestamp)),
{
    journal.push(AccountEvent::Verified(AccountVerified { timestamp }));
}

} // verus!
