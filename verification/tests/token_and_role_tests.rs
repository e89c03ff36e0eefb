use shade::errors::ContractError;
use shade::events::{Event, RoleGrantedEvent, RoleRevokedEvent, TokenAddedEvent, TokenRemovedEvent};
use shade::shade::Shade;
use shade::types::{Address, Role};

fn setup_test() -> (Shade, Address) {
    let mut s = Shade::new();
    let admin = Address { id: 1 };
    s.initialize(admin, 0).unwrap();
    (s, admin)
}

#[test]
fn test_add_token_twice_deduplicates_and_emits_once() {
    let (mut s, admin) = setup_test();
    let token = Address { id: 9 };

    let before = s.journal().len();
    s.add_accepted_token(admin, token, 1).unwrap();
    s.add_accepted_token(admin, token, 2).unwrap();

    assert!(s.is_accepted_token(token));
    assert_eq!(s.get_accepted_tokens().len(), 1);

    let journal = s.journal();
    assert_eq!(journal.len(), before + 1);
    assert_eq!(
        journal[before],
        Event::TokenAdded(TokenAddedEvent { token, timestamp: 1 })
    );
}

#[test]
fn test_remove_token_present_and_absent() {
    let (mut s, admin) = setup_test();
    let t1 = Address { id: 9 };
    let t2 = Address { id: 10 };
    s.add_accepted_token(admin, t1, 0).unwrap();
    s.add_accepted_token(admin, t2, 0).unwrap();

    // removal of an absent token is a silent no-op
    let before = s.journal().len();
    s.remove_accepted_token(admin, Address { id: 11 }, 1).unwrap();
    assert_eq!(s.journal().len(), before);
    assert_eq!(s.get_accepted_tokens().len(), 2);

    // removal of a present token rebuilds the list and emits
    s.remove_accepted_token(admin, t1, 2).unwrap();
    assert!(!s.is_accepted_token(t1));
    assert!(s.is_accepted_token(t2));
    assert_eq!(s.get_accepted_tokens().len(), 1);
    let journal = s.journal();
    assert_eq!(
        journal[journal.len() - 1],
        Event::TokenRemoved(TokenRemovedEvent { token: t1, timestamp: 2 })
    );
}

#[test]
fn test_token_operations_require_admin() {
    let (mut s, _admin) = setup_test();
    let non_admin = Address { id: 2 };
    let token = Address { id: 9 };
    assert_eq!(
        s.add_accepted_token(non_admin, token, 0),
        Err(ContractError::NotAuthorized)
    );
    assert_eq!(
        s.remove_accepted_token(non_admin, token, 0),
        Err(ContractError::NotAuthorized)
    );
    assert!(!s.is_accepted_token(token));
}

#[test]
fn test_reentrancy_guard_blocks_nested_entry() {
    let (mut s, admin) = setup_test();
    let token = Address { id: 9 };

    // a nested call finds the flag set and is rejected
    s.enter().unwrap();
    assert_eq!(
        s.add_accepted_token(admin, token, 0),
        Err(ContractError::Reentrancy)
    );
    assert_eq!(s.enter(), Err(ContractError::Reentrancy));

    // the guard never leaks across calls: after exit the operation runs
    s.exit();
    s.add_accepted_token(admin, token, 0).unwrap();
    assert!(s.is_accepted_token(token));
}

#[test]
fn test_grant_and_revoke_role() {
    let (mut s, admin) = setup_test();
    let user = Address { id: 2 };

    assert!(!s.has_role(user, Role::Operator));
    s.grant_role(admin, user, Role::Operator, 1).unwrap();
    assert!(s.has_role(user, Role::Operator));
    assert!(!s.has_role(user, Role::Manager));

    // granting is idempotent at the storage level but still emits
    let before = s.journal().len();
    s.grant_role(admin, user, Role::Operator, 2).unwrap();
    assert!(s.has_role(user, Role::Operator));
    let journal_len = s.journal().len();
    assert_eq!(journal_len, before + 1);
    assert_eq!(
        s.journal()[journal_len - 1],
        Event::RoleGranted(RoleGrantedEvent { user, role: Role::Operator, timestamp: 2 })
    );

    s.revoke_role(admin, user, Role::Operator, 3).unwrap();
    assert!(!s.has_role(user, Role::Operator));
    let journal_len = s.journal().len();
    assert_eq!(
        s.journal()[journal_len - 1],
        Event::RoleRevoked(RoleRevokedEvent { user, role: Role::Operator, timestamp: 3 })
    );

    // revoking an absent grant is a storage no-op but still emits
    s.revoke_role(admin, user, Role::Operator, 4).unwrap();
    assert_eq!(s.journal().len(), journal_len + 1);
}

#[test]
fn test_role_changes_require_admin() {
    let (mut s, _admin) = setup_test();
    let non_admin = Address { id: 2 };
    let user = Address { id: 3 };
    assert_eq!(
        s.grant_role(non_admin, user, Role::Operator, 0),
        Err(ContractError::NotAuthorized)
    );
    assert_eq!(
        s.revoke_role(non_admin, user, Role::Operator, 0),
        Err(ContractError::NotAuthorized)
    );
    assert!(!s.has_role(user, Role::Operator));
}

#[test]
fn test_end_to_end_flow() {
    let mut s = Shade::new();
    let admin = Address { id: 1 };
    let merchant = Address { id: 2 };
    let token = Address { id: 9 };

    s.initialize(admin, 0).unwrap();
    s.register_merchant(merchant, 0).unwrap();
    let invoice_id = s
        .create_invoice(merchant, String::from("desc"), 1000, token)
        .unwrap();
    assert_eq!(invoice_id, 1);

    let invoice = s.get_invoice(1).unwrap();
    assert_eq!(invoice.id, 1);
    assert_eq!(invoice.merchant_id, 1);
    assert_eq!(invoice.amount, 1000);
    assert_eq!(invoice.token, token);
    assert_eq!(invoice.status, shade::types::InvoiceStatus::Pending);

    s.verify_merchant(admin, 1, true, 0).unwrap();
    assert_eq!(s.is_merchant_verified(1), Ok(true));
}
