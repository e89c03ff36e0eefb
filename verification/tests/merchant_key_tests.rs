use shade::errors::ContractError;
use shade::events::{Event, MerchantKeySetEvent};
use shade::shade::Shade;
use shade::types::Address;

fn setup_test() -> (Shade, Address) {
    let mut s = Shade::new();
    let admin = Address { id: 1 };
    s.initialize(admin, 0).unwrap();
    (s, admin)
}

#[test]
fn test_set_merchant_key_success() {
    let (mut s, _admin) = setup_test();

    let merchant = Address { id: 2 };
    s.register_merchant(merchant, 0).unwrap();

    let key = [0u8; 32];
    s.set_merchant_key(merchant, key, 0).unwrap();

    assert_eq!(s.get_merchant_key(merchant).unwrap(), key);

    let journal = s.journal();
    assert!(
        !journal.is_empty(),
        "No events captured immediately after key set!"
    );
    assert_eq!(
        journal[journal.len() - 1],
        Event::MerchantKeySet(MerchantKeySetEvent { merchant, key, timestamp: 0 })
    );
}

#[test]
fn test_update_merchant_key() {
    let (mut s, _admin) = setup_test();

    let merchant = Address { id: 2 };
    s.register_merchant(merchant, 0).unwrap();

    let key1 = [0u8; 32];
    s.set_merchant_key(merchant, key1, 0).unwrap();
    assert_eq!(s.get_merchant_key(merchant).unwrap(), key1);

    let key2 = [1u8; 32];
    s.set_merchant_key(merchant, key2, 1).unwrap();
    assert_eq!(s.get_merchant_key(merchant).unwrap(), key2);
}

#[should_panic]
#[test]
fn test_get_non_existent_key() {
    let (mut s, _admin) = setup_test();

    let merchant = Address { id: 2 };
    s.register_merchant(merchant, 0).unwrap();

    s.get_merchant_key(merchant).unwrap();
}

#[test]
fn test_set_key_unregistered_merchant_fails() {
    let (mut s, _admin) = setup_test();
    let stranger = Address { id: 8 };
    let r = s.set_merchant_key(stranger, [2u8; 32], 0);
    assert_eq!(r, Err(ContractError::MerchantNotFound));
    assert_eq!(
        s.get_merchant_key(stranger),
        Err(ContractError::MerchantKeyNotFound)
    );
}
