use shade::errors::ContractError;
use shade::events::{Event, MerchantRegisteredEvent, MerchantVerifiedEvent};
use shade::shade::Shade;
use shade::types::{Address, MerchantFilter};

fn setup_test() -> (Shade, Address) {
    let mut s = Shade::new();
    let admin = Address { id: 1 };
    s.initialize(admin, 0).unwrap();
    (s, admin)
}

#[test]
fn test_merchant_ids_sequential_and_reregister_rejected() {
    let (mut s, _admin) = setup_test();
    let m1 = Address { id: 2 };
    let m2 = Address { id: 3 };
    let m3 = Address { id: 4 };

    s.register_merchant(m1, 10).unwrap();
    s.register_merchant(m2, 11).unwrap();
    s.register_merchant(m3, 12).unwrap();

    assert_eq!(s.get_merchant(1).unwrap().address, m1);
    assert_eq!(s.get_merchant(2).unwrap().address, m2);
    assert_eq!(s.get_merchant(3).unwrap().address, m3);

    // a second registration of the same address fails and consumes no id
    let r = s.register_merchant(m2, 13);
    assert_eq!(r, Err(ContractError::MerchantAlreadyRegistered));
    let m4 = Address { id: 5 };
    s.register_merchant(m4, 14).unwrap();
    assert_eq!(s.get_merchant(4).unwrap().address, m4);
}

#[test]
fn test_register_emits_event_and_sets_record() {
    let (mut s, _admin) = setup_test();
    let m = Address { id: 2 };
    s.register_merchant(m, 77).unwrap();

    let record = s.get_merchant(1).unwrap();
    assert_eq!(record.id, 1);
    assert_eq!(record.address, m);
    assert!(record.active);
    assert!(!record.verified);
    assert_eq!(record.registered_at, 77);
    assert!(s.is_merchant(m));
    assert!(!s.is_merchant(Address { id: 3 }));

    let journal = s.journal();
    assert_eq!(
        journal[journal.len() - 1],
        Event::MerchantRegistered(MerchantRegisteredEvent {
            merchant: m,
            merchant_id: 1,
            timestamp: 77,
        })
    );
}

#[test]
fn test_get_merchant_zero_and_count_plus_one_fail() {
    let (mut s, _admin) = setup_test();
    s.register_merchant(Address { id: 2 }, 0).unwrap();

    assert_eq!(s.get_merchant(0), Err(ContractError::MerchantNotFound));
    assert_eq!(s.get_merchant(2), Err(ContractError::MerchantNotFound));
    assert!(s.get_merchant(1).is_ok());
}

#[test]
fn test_verify_merchant_flips_flag_and_emits() {
    let (mut s, admin) = setup_test();
    let m = Address { id: 2 };
    s.register_merchant(m, 0).unwrap();

    assert_eq!(s.is_merchant_verified(1), Ok(false));
    s.verify_merchant(admin, 1, true, 50).unwrap();
    assert_eq!(s.is_merchant_verified(1), Ok(true));
    {
        let journal = s.journal();
        assert_eq!(
            journal[journal.len() - 1],
            Event::MerchantVerified(MerchantVerifiedEvent {
                merchant_id: 1,
                status: true,
                timestamp: 50,
            })
        );
    }

    s.verify_merchant(admin, 1, false, 51).unwrap();
    assert_eq!(s.is_merchant_verified(1), Ok(false));
}

#[test]
fn test_verify_merchant_errors() {
    let (mut s, admin) = setup_test();
    let non_admin = Address { id: 6 };
    s.register_merchant(Address { id: 2 }, 0).unwrap();

    assert_eq!(
        s.verify_merchant(non_admin, 1, true, 0),
        Err(ContractError::NotAuthorized)
    );
    assert_eq!(
        s.verify_merchant(admin, 9, true, 0),
        Err(ContractError::MerchantNotFound)
    );
    assert_eq!(s.is_merchant_verified(9), Err(ContractError::MerchantNotFound));
}

#[test]
fn test_get_merchants_filtering() {
    let (mut s, admin) = setup_test();
    let m1 = Address { id: 2 };
    let m2 = Address { id: 3 };
    let m3 = Address { id: 4 };
    s.register_merchant(m1, 0).unwrap();
    s.register_merchant(m2, 0).unwrap();
    s.register_merchant(m3, 0).unwrap();
    s.verify_merchant(admin, 2, true, 0).unwrap();

    let everyone = s.get_merchants(MerchantFilter { is_active: None, is_verified: None });
    assert_eq!(everyone.len(), 3);
    assert_eq!(everyone[0].id, 1);
    assert_eq!(everyone[1].id, 2);
    assert_eq!(everyone[2].id, 3);

    let verified = s.get_merchants(MerchantFilter { is_active: None, is_verified: Some(true) });
    assert_eq!(verified.len(), 1);
    assert_eq!(verified[0].address, m2);

    let unverified_active = s.get_merchants(MerchantFilter {
        is_active: Some(true),
        is_verified: Some(false),
    });
    assert_eq!(unverified_active.len(), 2);
    assert_eq!(unverified_active[0].address, m1);
    assert_eq!(unverified_active[1].address, m3);

    let inactive = s.get_merchants(MerchantFilter { is_active: Some(false), is_verified: None });
    assert_eq!(inactive.len(), 0);
}
