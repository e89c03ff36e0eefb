use shade::errors::ContractError;
use shade::events::{Event, InitalizedEvent};
use shade::shade::Shade;
use shade::types::Address;

#[test]
fn test_initialize() {
    let mut s = Shade::new();
    let admin = Address { id: 1 };
    s.initialize(admin, 0).unwrap();
    assert_eq!(s.get_admin().unwrap(), admin);
}

#[should_panic]
#[test]
fn test_initialize_twice() {
    let mut s = Shade::new();
    let admin = Address { id: 1 };
    s.initialize(admin, 0).unwrap();
    s.initialize(admin, 0).unwrap();
}

#[should_panic]
#[test]
fn test_get_admin_not_initialized() {
    let s = Shade::new();
    s.get_admin().unwrap();
}

#[test]
fn test_initialize_emits_event_with_admin_and_timestamp() {
    let mut s = Shade::new();
    let admin = Address { id: 7 };
    s.initialize(admin, 42).unwrap();
    let journal = s.journal();
    assert_eq!(journal.len(), 1);
    assert_eq!(
        journal[0],
        Event::Initalized(InitalizedEvent { admin, timestamp: 42 })
    );
}

#[test]
fn test_initialize_twice_reports_already_initialized() {
    let mut s = Shade::new();
    let admin = Address { id: 1 };
    s.initialize(admin, 0).unwrap();
    let r = s.initialize(Address { id: 2 }, 1);
    assert_eq!(r, Err(ContractError::AlreadyInitialized));
    // the failed call stored nothing and emitted nothing
    assert_eq!(s.get_admin().unwrap(), admin);
    assert_eq!(s.journal().len(), 1);
}

#[test]
fn test_error_codes_are_stable() {
    assert_eq!(ContractError::NotAuthorized.code(), 1);
    assert_eq!(ContractError::AlreadyInitialized.code(), 2);
    assert_eq!(ContractError::NotInitialized.code(), 3);
    assert_eq!(ContractError::Reentrancy.code(), 4);
    assert_eq!(ContractError::MerchantAlreadyRegistered.code(), 5);
    assert_eq!(ContractError::MerchantNotFound.code(), 6);
    assert_eq!(ContractError::InvalidAmount.code(), 7);
    assert_eq!(ContractError::InvoiceNotFound.code(), 8);
    assert_eq!(ContractError::ContractPaused.code(), 9);
    assert_eq!(ContractError::ContractNotPaused.code(), 10);
    assert_eq!(ContractError::MerchantKeyNotFound.code(), 11);
}
