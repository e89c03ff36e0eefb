//! The per-merchant balance-tracking account unit.
//!
//! A separate contract, one deployment per merchant, that records which
//! settlement tokens the account watches and whether its manager verified
//! it.  The invoicing core never calls it; client tooling composes the two
//! independently.  Reading the actual token balances is a call into each
//! token contract, so it belongs to the host adapter; the decision state —
//! who the merchant and manager are, which tokens are watched, the
//! verification flag — lives here, verified.

pub mod events;

use crate::account::events::{
    account_initalized_event, account_token_added_event, account_verified_event, AccountEvent,
    publish_account_initialized_event, publish_account_verified_event, publish_token_added_event,
};
use crate::model::lemma_push_no_duplicates;
use crate::types::Address;
use vstd::prelude::*;

verus! {

/// A failure of the account unit, with its own stable numeric codes.
#[derive(Clone, Copy, Debug, PartialEq, Eq, Structural, Hash)]
pub enum AccountError {
    AlreadyInitialized,
    NotInitialized,
}

impl AccountError {
    /// The stable numeric code of this error.
    pub open spec fn spec_code(self) -> u32 {
        match self {
            AccountError::AlreadyInitialized => 1,
            AccountError::NotInitialized => 2,
        }
    }

    /// The stable numeric code of this error.
    pub fn code(&self) -> (c: u32)
        ensures
            c == self.spec_code(),
    {
        match self {
            AccountError::AlreadyInitialized => 1,
            AccountError::NotInitialized => 2,
        }
    }
}

/// The record written once at account initialization.
#[derive(Clone, Copy, Debug, PartialEq, Eq, Structural)]
pub struct AccountInfo {
    pub merchant: Address,
    pub manager: Address,
    pub merchant_id: u64,
    pub date_created: u64,
}

/// The mathematical model of the account's persisted state.
#[verifier::ext_equal]
pub struct AccountState {
    /// The merchant this account belongs to; `None` until initialization.
    pub merchant: Option<Address>,
    /// The manager allowed to curate the account; `None` until
    /// initialization.
    pub manager: Option<Address>,
    /// The record written at initialization.
    pub info: Option<AccountInfo>,
    /// The watched settlement tokens, in insertion order, without
    /// duplicates.
    pub tokens: Seq<Address>,
    /// Whether the manager verified this account.
    pub verified: bool,
    /// The emission journal, in emission order.
    pub events: Seq<AccountEvent>,
}

impl AccountState {
    /// The state of a fresh deployment.
    pub open spec fn initial() -> AccountState {
        AccountState {
            merchant: None,
            manager: None,
            info: None,
            tokens: Seq::empty(),
            verified: false,
            events: Seq::empty(),
        }
    }

    /// Well-formedness: the three initialization records exist together
    /// and agree, and the token list holds no duplicate.
    pub open spec fn wf(self) -> bool {
        &&& match self.info {
            Some(i) => self.merchant == Some(i.merchant) && self.manager == Some(i.manager),
            None => self.merchant is None && self.manager is None,
        }
        &&& self.tokens.no_duplicates()
    }
}

/// The outcome of account `initialize`: rejected exactly when a merchant
/// record already exists.
pub open spec fn account_initialize_check(s: AccountState) -> Result<(), AccountError> {
    if s.merchant is Some {
        Err(AccountError::AlreadyInitialized)
    } else {
        Ok(())
    }
}

/// The state after account `initialize`.
pub open spec fn account_initialize_step(
    s: AccountState,
    merchant: Address,
    manager: Address,
    merchant_id: u64,
    now: u64,
) -> AccountState {
    if s.merchant is Some {
        s
    } else {
        AccountState {
            merchant: Some(merchant),
            manager: Some(manager),
            info: Some(AccountInfo { merchant, manager, merchant_id, date_created: now }),
            events: s.events.push(account_initalized_event(merchant, merchant_id, now)),
            ..s
        }
    }
}

/// The outcome of the manager-gated operations: `NotInitialized` until a
/// manager is stored.  The manager's authorization itself is verified by
/// the host before the call reaches this unit.
pub open spec fn manager_check(s: AccountState) -> Result<(), AccountError> {
    if s.manager is None {
        Err(AccountError::NotInitialized)
    } else {
        Ok(())
    }
}

/// The state after `add_token`: the token appended and the added event
/// emitted on first addition; a silent no-op — no event — when already
/// watched; unchanged on rejection.
pub open spec fn add_token_step(s: AccountState, token: Address, now: u64) -> AccountState {
    if manager_check(s) is Err {
        s
    } else if s.tokens.contains(token) {
        s
    } else {
        AccountState {
            tokens: s.tokens.push(token),
            events: s.events.push(account_token_added_event(token, now)),
            ..s
        }
    }
}

/// The state after `verify_account`: the flag set and the verified event
/// appended; unchanged on rejection.
pub open spec fn verify_account_step(s: AccountState, now: u64) -> AccountState {
    if manager_check(s) is Err {
        s
    } else {
        AccountState { verified: true, events: s.events.push(account_verified_event(now)), ..s }
    }
}

/// Whether `token` occurs in `tokens`.
pub fn token_exists(tokens: &Vec<Address>, token: Address) -> (r: bool)
    ensures
        r == tokens@.contains(token),
{
    let n = tokens.len();
    let mut i: usize = 0;
    while i < n
        invariant
            n == tokens.len(),
            0 <= i <= n,
            forall|j: int| 0 <= j < i ==> tokens@[j] != token,
        decreases n - i,
    {
        if tokens[i] == token {
            proof {
                assert(tokens@.contains(token)) by {
                    assert(tokens@[i as int] == token);
                }
            }
            return true;
        }
        i += 1;
    }
    false
}

/// The persisted state of one merchant account.
pub struct MerchantAccount {
    /// The merchant this account belongs to; `None` until initialization.
    pub merchant: Option<Address>,
    /// The curating manager; `None` until initialization.
    pub manager: Option<Address>,
    /// The record written at initialization.
    pub account_info: Option<AccountInfo>,
    /// The watched settlement tokens, in insertion order.
    pub tracked_tokens: Vec<Address>,
    /// Whether the manager verified this account.
    pub verified: bool,
    /// The emission journal, in emission order.
    pub events: Vec<AccountEvent>,
}

impl View for MerchantAccount {
    type V = AccountState;

    open spec fn view(&self) -> AccountState {
        AccountState {
            merchant: self.merchant,
            manager: self.manager,
            info: self.account_info,
            tokens: self.tracked_tokens@,
            verified: self.verified,
            events: self.events@,
        }
    }
}

impl MerchantAccount {
    /// A fresh, uninitialized account.
    pub fn new() -> (a: MerchantAccount)
        ensures
            a@ == AccountState::initial(),
            a@.wf(),
    {
        let a = MerchantAccount {
            merchant: None,
            manager: None,
            account_info: None,
            tracked_tokens: Vec::new(),
            verified: false,
            events: Vec::new(),
        };
        proof {
            assert(a@ =~= AccountState::initial());
        }
        a
    }

    /// Stores the merchant, the manager and the account record, and emits
    /// the initialization event; fails with `AlreadyInitialized` on any
    /// call after the first.
    pub fn initialize(
        &mut self,
        merchant: Address,
        manager: Address,
        merchant_id: u64,
        now: u64,
    ) -> (r: Result<(), AccountError>)
        ensures
            r == account_initialize_check(old(self)@),
            final(self)@ == account_initialize_step(old(self)@, merchant, manager, merchant_id, now),
            old(self)@.wf() ==> final(self)@.wf(),
    {
        if self.merchant.is_some() {
            return Err(AccountError::AlreadyInitialized);
        }
        self.merchant = Some(merchant);
        self.manager = Some(manager);
        self.account_info = Some(AccountInfo { merchant, manager, merchant_id, date_created: now });
        publish_account_initialized_event(&mut self.events, merchant, merchant_id, now);
        proof {
            assert(self@ =~= account_initialize_step(old(self)@, merchant, manager, merchant_id, now));
        }
        Ok(())
    }

    /// Returns the merchant this account belongs to; fails with
    /// `NotInitialized` if absent.
    pub fn get_merchant(&self) -> (r: Result<Address, AccountError>)
        ensures
            r == match self@.merchant {
                Some(m) => Ok::<Address, AccountError>(m),
                None => Err::<Address, AccountError>(AccountError::NotInitialized),
            },
    {
        match self.merchant {
            Some(m) => Ok(m),
            None => Err(AccountError::NotInitialized),
        }
    }

    /// Returns the curating manager; fails with `NotInitialized` if
    /// absent.
    pub fn get_manager(&self) -> (r: Result<Address, AccountError>)
        ensures
            r == match self@.manager {
                Some(m) => Ok::<Address, AccountError>(m),
                None => Err::<Address, AccountError>(AccountError::NotInitialized),
            },
    {
        match self.manager {
            Some(m) => Ok(m),
            None => Err(AccountError::NotInitialized),
        }
    }

    /// Adds `token` to the watched list and emits the added event, unless
    /// it is already watched, in which case the call succeeds silently.
    /// Manager-gated: the host has verified the manager's authorization.
    pub fn add_token(&mut self, token: Address, now: u64) -> (r: Result<(), AccountError>)
        ensures
            r == manager_check(old(self)@),
            final(self)@ == add_token_step(old(self)@, token, now),
            old(self)@.wf() ==> final(self)@.wf(),
    {
        if self.manager.is_none() {
            return Err(AccountError::NotInitialized);
        }
        if !token_exists(&self.tracked_tokens, token) {
            self.tracked_tokens.push(token);
            publish_token_added_event(&mut self.events, token, now);
        }
        proof {
            assert(self@ =~= add_token_step(old(self)@, token, now));
            if old(self)@.wf() && !old(self)@.tokens.contains(token) {
                lemma_push_no_duplicates(old(self)@.tokens, token);
            }
        }
        Ok(())
    }

    /// Whether `token` is on the watched list.
    pub fn has_token(&self, token: Address) -> (r: bool)
        ensures
            r == self@.tokens.contains(token),
    {
        token_exists(&self.tracked_tokens, token)
    }

    /// The tokens tokens in insertion order — the list the host adapter
    /// walks when it reads the balances from the token contracts.
    pub fn get_tracked_tokens(&self) -> (r: &Vec<Address>)
        ensures
            r@ == self@.tokens,
    {
        &self.tracked_tokens
    }

    /// Marks the account verified and emits the verified event.
    /// Manager-gated: the host has verified the manager's authorization.
    pub fn verify_account(&mut self, now: u64) -> (r: Result<(), AccountError>)
        ensures
            r == manager_check(old(self)@),
            final(self)@ == verify_account_step(old(self)@, now),
            old(self)@.wf() ==> final(self)@.wf(),
    {
        if self.manager.is_none() {
            return Err(AccountError::NotInitialized);
        }
        self.verified = true;
        publish_account_verified_event(&mut self.events, now);
        proof {
            assert(self@ =~= verify_account_step(old(self)@, now));
        }
        Ok(())
    }

    /// Whether the manager verified this account; `false` until then.
    pub fn is_verified_account(&self) -> (r: bool)
        ensures
            r == self@.verified,
    {
        self.verified
    }
}

} // verus!
