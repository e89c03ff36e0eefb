//! The components of the contract core, leaves first: admin identity,
//! role-based access control, the reentrancy guard, the pause
//! circuit-breaker, the token allow-list, the merchant registry, the invoice
//! ledger, and the upgrade mechanism.
//!
//! Each component defines its entry points as methods on
//! [`crate::shade::Shade`], specified against transition functions over
//! [`crate::model::State`], and proves its laws beside them.

pub mod access_control;
pub mod admin;
pub mod contract_core;
pub mod invoice;
pub mod merchant;
pub mod pausable;
pub mod reentrancy;
pub mod upgrade;
