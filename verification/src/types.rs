//! Shared data model: principals, merchant and invoice records, filters,
//! role tags, and the storage-addressing keys of the persistent store.

use vstd::prelude::*;

verus! {

/// An opaque principal (a user or a contract) that can authorize calls.
///
/// The host resolves and cryptographically verifies principals; the core only
/// compares them for identity, so a principal is carried as a plain handle.
#[derive(Clone, Copy, Debug, PartialEq, Eq, Structural, Hash)]
pub struct Address {
    pub id: u64,
}

/// A capability tag, distinct from the single admin identity.  A user may
/// hold zero or more roles; roles are never hierarchical.
#[derive(Clone, Copy, Debug, PartialEq, Eq, Structural, Hash)]
pub enum Role {
    Operator,
    Manager,
}

/// An active role grant: the pair `(user, role)` being present means granted.
#[derive(Clone, Copy, Debug, PartialEq, Eq, Structural)]
pub struct RoleGrant {
    pub user: Address,
    pub role: Role,
}

/// The record written once at initialization; the admin field is immutable
/// thereafter (admin transfer is not an operation of this core).
#[derive(Clone, Copy, Debug, PartialEq, Eq, Structural)]
pub struct ContractInfo {
    pub admin: Address,
    pub created_at: u64,
}

/// A merchant record.  `id` is assigned by a global counter starting at 1;
/// one record exists per distinct address.
#[derive(Clone, Copy, Debug, PartialEq, Eq, Structural)]
pub struct Merchant {
    pub id: u64,
    pub address: Address,
    pub active: bool,
    pub verified: bool,
    pub registered_at: u64,
}

/// A conjunctive predicate over the merchant sequence; `None` fields are
/// wildcards.
#[derive(Clone, Copy, Debug)]
pub struct MerchantFilter {
    pub is_active: Option<bool>,
    pub is_verified: Option<bool>,
}

/// The 32-byte signing key a merchant associates with its address.
#[derive(Clone, Copy, Debug)]
pub struct MerchantKeyEntry {
    pub address: Address,
    pub key: [u8; 32],
}

/// The lifecycle state of an invoice.  Invoices are created `Pending`;
/// transitions into the other states are outside this core.
#[derive(Clone, Copy, Debug, PartialEq, Eq, Structural)]
pub enum InvoiceStatus {
    Pending,
    Paid,
    Cancelled,
}

/// An invoice record.  `id` is assigned by a global counter independent of
/// merchant id sequencing; `amount` is strictly positive at creation.
#[derive(Debug)]
pub struct Invoice {
    pub id: u64,
    pub merchant_id: u64,
    pub amount: i128,
    pub token: Address,
    pub description: String,
    pub status: InvoiceStatus,
}

/// A conjunctive predicate over the invoice sequence; `None` fields are
/// wildcards.
#[derive(Clone, Copy, Debug)]
pub struct InvoiceFilter {
    pub merchant_id: Option<u64>,
    pub status: Option<InvoiceStatus>,
}

/// The namespacing discriminator for every record in the persistent store:
/// one constructor per entity type, parameterized by id or address where the
/// entity is keyed, so that no two records share a storage address.  The
/// keying scheme is a stability contract across code upgrades.
#[derive(Clone, Copy, Debug, PartialEq, Eq, Structural, Hash)]
pub enum DataKey {
    Admin,
    ContractInfo,
    AcceptedTokens,
    Merchant(u64),
    MerchantId(Address),
    MerchantCount,
    MerchantKey(Address),
    Invoice(u64),
    InvoiceCount,
    Role(Address, Role),
    Paused,
    Reentrancy,
}

/// Storage addressing is collision-free: two record keys coincide only for
/// the same entity of the same kind, so no write under one key can clobber
/// a record of another.
pub proof fn lemma_data_keys_collision_free(i: u64, j: u64, a: Address, b: Address)
    ensures
        DataKey::Merchant(i) == DataKey::Merchant(j) ==> i == j,
        DataKey::Invoice(i) == DataKey::Invoice(j) ==> i == j,
        DataKey::MerchantId(a) == DataKey::MerchantId(b) ==> a == b,
        DataKey::MerchantKey(a) == DataKey::MerchantKey(b) ==> a == b,
        DataKey::Merchant(i) != DataKey::Invoice(j),
        DataKey::MerchantId(a) != DataKey::MerchantKey(b),
{
}

} // verus!
