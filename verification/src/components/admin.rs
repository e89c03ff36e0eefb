//! TokenAllowlist: the admin-curated list of accepted settlement tokens.
//!
//! Both mutating operations run the full guard sequence — pause check,
//! reentrancy guard, admin authorization — before touching the list.  The
//! reentrancy guard matters here because the host adapter validates a token
//! by reading its display symbol, a call into another contract that could
//! otherwise re-enter these entry points mid-operation; the symbol read
//! itself is a host-boundary liveness check whose failure aborts the call
//! at the host, so it does not appear among the contract-declared errors.

use crate::errors::ContractError;
use crate::events::{publish_token_added_event, publish_token_removed_event, token_added_event, token_removed_event};
use crate::components::contract_core::admin_check;
use crate::model::State;
use crate::shade::Shade;
use crate::types::Address;
use vstd::prelude::*;

verus! {

/// The allow-list left when `token` is removed.
pub open spec fn without_token(tokens: Seq<Address>, token: Address) -> Seq<Address> {
    tokens.filter(|t: Address| t != token)
}

/// How one more entry changes a removal's result: the removed token is
/// dropped, everything else is kept in order.
pub proof fn lemma_without_token_push(tokens: Seq<Address>, token: Address, t: Address)
    ensures
        without_token(tokens.push(t), token) == if t == token {
            without_token(tokens, token)
        } else {
            without_token(tokens, token).push(t)
        },
{
    reveal(Seq::filter);
    assert(tokens.push(t).drop_last() =~= tokens);
}

/// The removal keeps only other tokens, each one a token of the list
/// before, and keeps a duplicate-free list duplicate-free.
pub proof fn lemma_without_token_props(tokens: Seq<Address>, token: Address)
    requires
        tokens.no_duplicates(),
    ensures
        forall|i: int|
            0 <= i < without_token(tokens, token).len() ==> (#[trigger] without_token(
                tokens,
                token,
            )[i]) != token && tokens.contains(without_token(tokens, token)[i]),
        without_token(tokens, token).no_duplicates(),
    decreases tokens.len(),
{
    reveal(Seq::filter);
    if tokens.len() > 0 {
        let d = tokens.drop_last();
        let last = tokens.last();
        assert(forall|i: int| 0 <= i < d.len() ==> #[trigger] d[i] == tokens[i]);
        assert(d.no_duplicates());
        lemma_without_token_props(d, token);
        let wd = without_token(d, token);
        if last != token {
            let w = without_token(tokens, token);
            assert(w == wd.push(last));
            assert(tokens[tokens.len() - 1] == last);
            assert forall|i: int| 0 <= i < w.len() implies (#[trigger] w[i]) != token
                && tokens.contains(w[i]) by {
                if i < wd.len() {
                    assert(w[i] == wd[i]);
                    let j = choose|j: int| 0 <= j < d.len() && d[j] == wd[i];
                    assert(tokens[j] == wd[i]);
                } else {
                    assert(w[i] == last);
                }
            }
            assert forall|i: int, j: int|
                0 <= i < w.len() && 0 <= j < w.len() && i != j implies (#[trigger] w[i])
                != (#[trigger] w[j]) by {
                if i < wd.len() && j == wd.len() {
                    assert(w[j] == last && w[i] == wd[i]);
                    let k = choose|k: int| 0 <= k < d.len() && d[k] == wd[i];
                    assert(tokens[k] == wd[i]);
                    assert(tokens[k] != tokens[tokens.len() - 1]);
                } else if j < wd.len() && i == wd.len() {
                    assert(w[i] == last && w[j] == wd[j]);
                    let k = choose|k: int| 0 <= k < d.len() && d[k] == wd[j];
                    assert(tokens[k] == wd[j]);
                    assert(tokens[k] != tokens[tokens.len() - 1]);
                } else {
                    assert(w[i] == wd[i] && w[j] == wd[j]);
                }
            }
        }
    }
}

/// The shared guard sequence of the two mutating allow-list operations:
/// pause check, then reentrancy guard, then admin authorization.
pub open spec fn token_change_check(s: State, caller: Address) -> Result<(), ContractError> {
    if s.paused {
        Err(ContractError::ContractPaused)
    } else if s.entered {
        Err(ContractError::Reentrancy)
    } else {
        admin_check(s, caller)
    }
}

/// The state after `add_accepted_token`: the token appended and the added
/// event emitted on first addition; a silent no-op when already present;
/// unchanged on rejection.
pub open spec fn add_token_step(s: State, caller: Address, token: Address, now: u64) -> State {
    if token_change_check(s, caller) is Err {
        s
    } else if s.is_accepted(token) {
        s
    } else {
        State {
            tokens: s.tokens.push(token),
            events: s.events.push(token_added_event(token, now)),
            ..s
        }
    }
}

/// The state after `remove_accepted_token`: the token dropped and the
/// removed event emitted when present; a silent no-op when absent;
/// unchanged on rejection.
pub open spec fn remove_token_step(s: State, caller: Address, token: Address, now: u64) -> State {
    if token_change_check(s, caller) is Err {
        s
    } else if !s.is_accepted(token) {
        s
    } else {
        State {
            tokens: without_token(s.tokens, token),
            events: s.events.push(token_removed_event(token, now)),
            ..s
        }
    }
}

/// Whether `token` occurs in `tokens`.
pub fn contains_token(tokens: &Vec<Address>, token: Address) -> (r: bool)
    ensures
        r == tokens@.contains(token),
{
    let n = tokens.len();
    let mut i: usize = 0;
    while i < n
        invariant
            n == tokens.len(),
            0 <= i <= n,
            forall|j: int| 0 <= j < i ==> tokens@[j] != token,
        decreases n - i,
    {
        if tokens[i] == token {
            proof {
                assert(tokens@.contains(token)) by {
                    assert(tokens@[i as int] == token);
                }
            }
            return true;
        }
        i += 1;
    }
    false
}

impl Shade {
    /// Adds `token` to the allow-list and emits the token-added event,
    /// unless it is already present, in which case the call succeeds as a
    /// silent no-op and emits nothing.  Runs the full guard sequence; the
    /// host adapter validates the token's liveness (its display symbol)
    /// between the guards and the mutation.
    pub fn add_accepted_token(&mut self, caller: Address, token: Address, now: u64) -> (r: Result<
        (),
        ContractError,
    >)
        ensures
            r == token_change_check(old(self)@, caller),
            final(self)@ == add_token_step(old(self)@, caller, token, now),
            old(self)@.wf() ==> final(self)@.wf(),
    {
        if self.paused {
            return Err(ContractError::ContractPaused);
        }
        if let Err(e) = self.enter() {
            return Err(e);
        }
        if let Err(e) = self.assert_admin(caller) {
            self.exit();
            proof {
                assert(self@ =~= old(self)@);
            }
            return Err(e);
        }
        if !contains_token(&self.accepted_tokens, token) {
            self.accepted_tokens.push(token);
            publish_token_added_event(&mut self.events, token, now);
        }
        self.exit();
        proof {
            assert(self@ =~= add_token_step(old(self)@, caller, token, now));
            if old(self)@.wf() {
                crate::laws::lemma_add_token_preserves_wf(old(self)@, caller, token, now);
            }
        }
        Ok(())
    }

    /// Removes `token` from the allow-list and emits the token-removed
    /// event when it was present; removal of an absent token succeeds as a
    /// silent no-op.  Runs the full guard sequence.
    pub fn remove_accepted_token(&mut self, caller: Address, token: Address, now: u64) -> (r:
        Result<(), ContractError>)
        ensures
            r == token_change_check(old(self)@, caller),
            final(self)@ == remove_token_step(old(self)@, caller, token, now),
            old(self)@.wf() ==> final(self)@.wf(),
    {
        if self.paused {
            return Err(ContractError::ContractPaused);
        }
        if let Err(e) = self.enter() {
            return Err(e);
        }
        if let Err(e) = self.assert_admin(caller) {
            self.exit();
            proof {
                assert(self@ =~= old(self)@);
            }
            return Err(e);
        }
        let n = self.accepted_tokens.len();
        let mut kept: Vec<Address> = Vec::new();
        let mut removed = false;
        let mut i: usize = 0;
        proof {
            assert(self.accepted_tokens@.take(0int) =~= Seq::<Address>::empty());
            reveal(Seq::filter);
        }
        while i < n
            invariant
                n == self.accepted_tokens.len(),
                0 <= i <= n,
                kept@ == without_token(self.accepted_tokens@.take(i as int), token),
                removed <==> exists|j: int| 0 <= j < i && self.accepted_tokens@[j] == token,
            decreases n - i,
        {
            let t = self.accepted_tokens[i];
            proof {
                assert(self.accepted_tokens@.take(i + 1int) =~= self.accepted_tokens@.take(
                    i as int,
                ).push(t));
                lemma_without_token_push(self.accepted_tokens@.take(i as int), token, t);
            }
            if t == token {
                removed = true;
            } else {
                kept.push(t);
            }
            i += 1;
        }
        proof {
            assert(self.accepted_tokens@.take(n as int) =~= self.accepted_tokens@);
            assert(removed == self@.is_accepted(token)) by {
                if removed {
                    let j = choose|j: int| 0 <= j < n && self.accepted_tokens@[j] == token;
                    assert(self.accepted_tokens@[j] == token);
                } else {
                    if self.accepted_tokens@.contains(token) {
                        let j = choose|j: int|
                            0 <= j < self.accepted_tokens@.len() && self.accepted_tokens@[j]
                                == token;
                    }
                }
            }
        }
        if removed {
            self.accepted_tokens = kept;
            publish_token_removed_event(&mut self.events, token, now);
        }
        self.exit();
        proof {
            assert(self@ =~= remove_token_step(old(self)@, caller, token, now));
            if old(self)@.wf() {
                crate::laws::lemma_remove_token_preserves_wf(old(self)@, caller, token, now);
            }
        }
        Ok(())
    }

    /// Whether `token` is on the allow-list; a pure read, with no guard.
    pub fn is_accepted_token(&self, token: Address) -> (r: bool)
        ensures
            r == self@.is_accepted(token),
    {
        contains_token(&self.accepted_tokens, token)
    }

    /// The allow-list in insertion order.
    pub fn get_accepted_tokens(&self) -> (r: &Vec<Address>)
        ensures
            r@ == self@.tokens,
    {
        &self.accepted_tokens
    }
}

} // verus!
