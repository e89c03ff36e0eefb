//! The error taxonomy of the contract: numeric, stable, and externally
//! observable.  Every failure aborts the whole call with no partial state
//! change, and components propagate another component's failure verbatim.

use vstd::prelude::*;

verus! {

/// A contract-declared failure.  Authorization failures of the host (a
/// missing or invalid signature) abort before contract logic runs at all;
/// `NotAuthorized` here means the caller authorized the call but is not the
/// required principal.
#[derive(Clone, Copy, Debug, PartialEq, Eq, Structural, Hash)]
pub enum ContractError {
    NotAuthorized,
    AlreadyInitialized,
    NotInitialized,
    Reentrancy,
    MerchantAlreadyRegistered,
    MerchantNotFound,
    InvalidAmount,
    InvoiceNotFound,
    ContractPaused,
    ContractNotPaused,
    MerchantKeyNotFound,
}

impl ContractError {
    /// The stable numeric code of this error, as callers observe it at the
    /// host boundary.
    pub open spec fn spec_code(self) -> u32 {
        match self {
            ContractError::NotAuthorized => 1,
            ContractError::AlreadyInitialized => 2,
            ContractError::NotInitialized => 3,
            ContractError::Reentrancy => 4,
            ContractError::MerchantAlreadyRegistered => 5,
            ContractError::MerchantNotFound => 6,
            ContractError::InvalidAmount => 7,
            ContractError::InvoiceNotFound => 8,
            ContractError::ContractPaused => 9,
            ContractError::ContractNotPaused => 10,
            ContractError::MerchantKeyNotFound => 11,
        }
    }

    /// The stable numeric code of this error.
    pub fn code(&self) -> (c: u32)
        ensures
            c == self.spec_code(),
    {
        match self {
            ContractError::NotAuthorized => 1,
            ContractError::AlreadyInitialized => 2,
            ContractError::NotInitialized => 3,
            ContractError::Reentrancy => 4,
            ContractError::MerchantAlreadyRegistered => 5,
            ContractError::MerchantNotFound => 6,
            ContractError::InvalidAmount => 7,
            ContractError::InvoiceNotFound => 8,
            ContractError::ContractPaused => 9,
            ContractError::ContractNotPaused => 10,
            ContractError::MerchantKeyNotFound => 11,
        }
    }
}

} // verus!
