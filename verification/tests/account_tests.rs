use shade::account::events::AccountEvent;
use shade::account::{AccountError, MerchantAccount};
use shade::types::Address;

#[test]
fn test_test_initialize() {
    let mut a = MerchantAccount::new();
    let merchant = Address { id: 1 };
    let manager = Address { id: 2 };
    let merchant_id = 1;
    a.initialize(merchant, manager, merchant_id, 0).unwrap();
    assert_eq!(a.get_merchant().unwrap(), merchant);
}

#[should_panic]
#[test]
fn test_test_initialize_twice() {
    let mut a = MerchantAccount::new();
    let merchant = Address { id: 1 };
    let manager = Address { id: 2 };
    let merchant_id = 1;
    a.initialize(merchant, manager, merchant_id, 0).unwrap();
    a.initialize(merchant, manager, merchant_id, 0).unwrap();
}

#[should_panic]
#[test]
fn test_get_merchant_not_initialized() {
    let a = MerchantAccount::new();
    a.get_merchant().unwrap();
}

#[test]
fn test_verify_account() {
    let mut a = MerchantAccount::new();
    let merchant = Address { id: 1 };
    let manager = Address { id: 2 };
    let merchant_id = 1;
    a.initialize(merchant, manager, merchant_id, 0).unwrap();

    assert_eq!(a.is_verified_account(), false);

    a.verify_account(0).unwrap();

    assert_eq!(a.is_verified_account(), true);

    let journal = a.events.clone();
    assert!(
        journal.len() > 0,
        "No events captured immediately after verify_account!"
    );
    assert!(matches!(
        journal[journal.len() - 1],
        AccountEvent::Verified(_)
    ));
}

#[test]
fn test_account_operations_before_initialize_fail() {
    let mut a = MerchantAccount::new();
    assert_eq!(a.get_manager(), Err(AccountError::NotInitialized));
    assert_eq!(
        a.add_token(Address { id: 3 }, 0),
        Err(AccountError::NotInitialized)
    );
    assert_eq!(a.verify_account(0), Err(AccountError::NotInitialized));
    assert_eq!(AccountError::AlreadyInitialized.code(), 1);
    assert_eq!(AccountError::NotInitialized.code(), 2);
}

#[test]
fn test_account_add_token_deduplicates() {
    let mut a = MerchantAccount::new();
    a.initialize(Address { id: 1 }, Address { id: 2 }, 1, 0).unwrap();
    let token = Address { id: 9 };
    a.add_token(token, 1).unwrap();
    a.add_token(token, 2).unwrap();
    assert!(a.has_token(token));
    assert!(!a.has_token(Address { id: 10 }));
    assert_eq!(a.get_tracked_tokens().len(), 1);
    // the second addition was a silent no-op: one added event beside the
    // initialization event
    assert_eq!(a.events.len(), 2);
}
