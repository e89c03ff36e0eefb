//! InvoiceLedger: invoice records keyed by a monotonically increasing id,
//! validated against the merchant registry.
//!
//! Invoice ids come from their own global counter, independent of merchant
//! id sequencing, and a rejected creation consumes no id.

use crate::errors::ContractError;
use crate::events::{invoice_created_event, publish_invoice_created_event};
use crate::model::{filtered_invoices, invoice_matches, lemma_filtered_invoices_push, State};
use crate::shade::Shade;
use crate::types::{Address, Invoice, InvoiceFilter, InvoiceStatus};
use vstd::prelude::*;

verus! {

/// The outcome of `create_invoice`: the pause gate, then
/// `MerchantNotFound` unless the caller is registered, then
/// `InvalidAmount` unless the amount is strictly positive; on success the
/// id the new invoice receives.
pub open spec fn create_invoice_check(s: State, merchant: Address, amount: i128) -> Result<
    u64,
    ContractError,
> {
    if s.paused {
        Err(ContractError::ContractPaused)
    } else if s.merchant_id_of(merchant) is None {
        Err(ContractError::MerchantNotFound)
    } else if amount <= 0 {
        Err(ContractError::InvalidAmount)
    } else {
        Ok((s.invoices.len() + 1) as u64)
    }
}

/// The state after `create_invoice`: the record appended with the next id,
/// the caller's merchant id and status `Pending`, and the created event;
/// unchanged on rejection.
pub open spec fn create_invoice_step(
    s: State,
    merchant: Address,
    description: String,
    amount: i128,
    token: Address,
) -> State {
    if create_invoice_check(s, merchant, amount) is Err {
        s
    } else {
        let id = (s.invoices.len() + 1) as u64;
        let merchant_id = match s.merchant_id_of(merchant) {
            Some(m) => m,
            None => 0,
        };
        State {
            invoices: s.invoices.push(
                Invoice {
                    id,
                    merchant_id,
                    amount,
                    token,
                    description,
                    status: InvoiceStatus::Pending,
                },
            ),
            events: s.events.push(invoice_created_event(id, merchant, amount, token)),
            ..s
        }
    }
}

/// The outcome of `get_invoice`: the stored record, or `InvoiceNotFound`
/// exactly when no invoice was ever created under the id.
pub open spec fn invoice_lookup(s: State, invoice_id: u64) -> Result<Invoice, ContractError> {
    if 1 <= invoice_id <= s.invoices.len() {
        Ok(s.invoices[invoice_id - 1])
    } else {
        Err(ContractError::InvoiceNotFound)
    }
}

impl Shade {
    /// Creates an invoice for the calling merchant: allocates the next
    /// invoice id, stores the record with status `Pending`, and emits the
    /// created event carrying id, merchant, amount and token.
    /// Self-authorized: the host has verified that `merchant` authorized
    /// the call.
    pub fn create_invoice(
        &mut self,
        merchant: Address,
        description: String,
        amount: i128,
        token: Address,
    ) -> (r: Result<u64, ContractError>)
        requires
            old(self)@.invoices.len() < u64::MAX,
        ensures
            r == create_invoice_check(old(self)@, merchant, amount),
            final(self)@ == create_invoice_step(old(self)@, merchant, description, amount, token),
            old(self)@.wf() ==> final(self)@.wf(),
    {
        if self.paused {
            return Err(ContractError::ContractPaused);
        }
        let merchant_id = match self.merchant_id_for(merchant) {
            Some(m) => m,
            None => {
                return Err(ContractError::MerchantNotFound);
            },
        };
        if amount <= 0 {
            return Err(ContractError::InvalidAmount);
        }
        let invoice_id: u64 = (self.invoices.len() as u64) + 1;
        self.invoices.push(
            Invoice {
                id: invoice_id,
                merchant_id,
                amount,
                token,
                description,
                status: InvoiceStatus::Pending,
            },
        );
        publish_invoice_created_event(&mut self.events, invoice_id, merchant, amount, token);
        proof {
            assert(self@ =~= create_invoice_step(old(self)@, merchant, description, amount, token));
            if old(self)@.wf() {
                crate::laws::lemma_create_invoice_preserves_wf(old(self)@, merchant, description, amount, token);
            }
        }
        Ok(invoice_id)
    }

    /// Returns the record stored under `invoice_id`; fails with
    /// `InvoiceNotFound` when the id is `0` or exceeds the current counter.
    pub fn get_invoice(&self, invoice_id: u64) -> (r: Result<Invoice, ContractError>)
        ensures
            r == invoice_lookup(self@, invoice_id),
    {
        if invoice_id == 0 || invoice_id > self.invoices.len() as u64 {
            return Err(ContractError::InvoiceNotFound);
        }
        let inv = &self.invoices[(invoice_id - 1) as usize];
        let out = Invoice {
            id: inv.id,
            merchant_id: inv.merchant_id,
            amount: inv.amount,
            token: inv.token,
            description: inv.description.clone(),
            status: inv.status,
        };
        proof {
            assert(out == self@.invoices[invoice_id - 1]);
        }
        Ok(out)
    }

    /// Scans ids `1..=count` in order and returns the records passing the
    /// conjunctive `filter`, in ascending id order.  A linear, unbounded
    /// read whose cost scales with the total invoice count.
    pub fn get_invoices(&self, filter: InvoiceFilter) -> (r: Vec<Invoice>)
        ensures
            r@ == filtered_invoices(self@.invoices, filter),
    {
        let n = self.invoices.len();
        let mut out: Vec<Invoice> = Vec::new();
        let mut i: usize = 0;
        proof {
            assert(self.invoices@.take(0int) =~= Seq::<Invoice>::empty());
            reveal(Seq::filter);
        }
        while i < n
            invariant
                n == self.invoices.len(),
                0 <= i <= n,
                out@ == filtered_invoices(self.invoices@.take(i as int), filter),
            decreases n - i,
        {
            let inv = &self.invoices[i];
            proof {
                assert(self.invoices@.take(i + 1int) =~= self.invoices@.take(i as int).push(
                    self.invoices@[i as int],
                ));
                lemma_filtered_invoices_push(
                    self.invoices@.take(i as int),
                    filter,
                    self.invoices@[i as int],
                );
            }
            let mut keep = true;
            if let Some(mid) = filter.merchant_id {
                if inv.merchant_id != mid {
                    keep = false;
                }
            }
            if let Some(status) = filter.status {
                if inv.status != status {
                    keep = false;
                }
            }
            proof {
                assert(keep == invoice_matches(self.invoices@[i as int], filter));
            }
            if keep {
                let copied = Invoice {
                    id: inv.id,
                    merchant_id: inv.merchant_id,
                    amount: inv.amount,
                    token: inv.token,
                    description: inv.description.clone(),
                    status: inv.status,
                };
                proof {
                    assert(copied == self.invoices@[i as int]);
                }
                out.push(copied);
            }
            i += 1;
        }
        proof {
            assert(self.invoices@.take(n as int) =~= self.invoices@);
        }
        out
    }
}

} // verus!
