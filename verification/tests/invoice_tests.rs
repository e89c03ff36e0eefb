use shade::errors::ContractError;
use shade::events::{Event, InvoiceCreatedEvent};
use shade::shade::Shade;
use shade::types::{Address, InvoiceFilter, InvoiceStatus};

fn setup_test() -> (Shade, Address) {
    let mut s = Shade::new();
    let admin = Address { id: 1 };
    s.initialize(admin, 0).unwrap();
    (s, admin)
}

fn assert_latest_invoice_event(
    s: &Shade,
    expected_invoice_id: u64,
    expected_merchant: &Address,
    expected_amount: i128,
    expected_token: &Address,
) {
    let journal = s.journal();
    assert!(journal.len() > 0, "No events captured for invoice!");
    assert_eq!(
        journal[journal.len() - 1],
        Event::InvoiceCreated(InvoiceCreatedEvent {
            invoice_id: expected_invoice_id,
            merchant: *expected_merchant,
            amount: expected_amount,
            token: *expected_token,
        })
    );
}

#[test]
fn test_create_and_get_invoice_success() {
    let (mut s, _admin) = setup_test();

    let merchant = Address { id: 2 };
    s.register_merchant(merchant, 0).unwrap();

    let token = Address { id: 3 };
    let description = String::from("Test Invoice");
    let amount: i128 = 1000;

    let invoice_id = s.create_invoice(merchant, description.clone(), amount, token).unwrap();
    assert_eq!(invoice_id, 1);

    assert_latest_invoice_event(&s, invoice_id, &merchant, amount, &token);

    let invoice = s.get_invoice(invoice_id).unwrap();

    assert_eq!(invoice.id, 1);
    assert_eq!(invoice.merchant_id, 1);
    assert_eq!(invoice.amount, amount);
    assert_eq!(invoice.token, token);
    assert_eq!(invoice.description, description);
    assert_eq!(invoice.status, InvoiceStatus::Pending);
}

#[test]
fn test_create_multiple_invoices() {
    let (mut s, _admin) = setup_test();

    let merchant = Address { id: 2 };
    s.register_merchant(merchant, 0).unwrap();

    let token1 = Address { id: 3 };
    let token2 = Address { id: 4 };

    let id1 = s
        .create_invoice(merchant, String::from("Invoice 1"), 1000, token1)
        .unwrap();
    let id2 = s
        .create_invoice(merchant, String::from("Invoice 2"), 2000, token2)
        .unwrap();
    let id3 = s
        .create_invoice(merchant, String::from("Invoice 3"), 500, token1)
        .unwrap();

    assert_eq!(id1, 1);
    assert_eq!(id2, 2);
    assert_eq!(id3, 3);
}

#[should_panic]
#[test]
fn test_get_invoice_not_found() {
    let (s, _admin) = setup_test();
    s.get_invoice(999).unwrap();
}

#[should_panic]
#[test]
fn test_create_invoice_unregistered_merchant() {
    let (mut s, _admin) = setup_test();

    let unregistered_merchant = Address { id: 5 };
    let token = Address { id: 3 };
    let description = String::from("Test Invoice");
    let amount: i128 = 1000;

    s.create_invoice(unregistered_merchant, description, amount, token)
        .unwrap();
}

#[should_panic]
#[test]
fn test_create_invoice_invalid_amount() {
    let (mut s, _admin) = setup_test();

    let merchant = Address { id: 2 };
    s.register_merchant(merchant, 0).unwrap();

    let token = Address { id: 3 };
    let description = String::from("Test Invoice");
    let amount: i128 = 0;

    s.create_invoice(merchant, description, amount, token).unwrap();
}

#[test]
fn test_invalid_amount_consumes_no_id() {
    let (mut s, _admin) = setup_test();
    let merchant = Address { id: 2 };
    s.register_merchant(merchant, 0).unwrap();
    let token = Address { id: 3 };

    let r = s.create_invoice(merchant, String::from("zero"), 0, token);
    assert_eq!(r, Err(ContractError::InvalidAmount));
    let r = s.create_invoice(merchant, String::from("negative"), -5, token);
    assert_eq!(r, Err(ContractError::InvalidAmount));

    // the next successful creation still receives id 1
    let id = s.create_invoice(merchant, String::from("ok"), 1, token).unwrap();
    assert_eq!(id, 1);
}

#[test]
fn test_get_invoices_filtering() {
    let (mut s, _admin) = setup_test();
    let m1 = Address { id: 2 };
    let m2 = Address { id: 3 };
    s.register_merchant(m1, 0).unwrap();
    s.register_merchant(m2, 0).unwrap();
    let token = Address { id: 9 };
    s.create_invoice(m1, String::from("a"), 10, token).unwrap();
    s.create_invoice(m2, String::from("b"), 20, token).unwrap();
    s.create_invoice(m1, String::from("c"), 30, token).unwrap();

    let all = s.get_invoices(InvoiceFilter { merchant_id: None, status: None });
    assert_eq!(all.len(), 3);
    assert_eq!(all[0].id, 1);
    assert_eq!(all[1].id, 2);
    assert_eq!(all[2].id, 3);

    let of_m1 = s.get_invoices(InvoiceFilter { merchant_id: Some(1), status: None });
    assert_eq!(of_m1.len(), 2);
    assert_eq!(of_m1[0].description, String::from("a"));
    assert_eq!(of_m1[1].description, String::from("c"));

    let paid = s.get_invoices(InvoiceFilter { merchant_id: None, status: Some(InvoiceStatus::Paid) });
    assert_eq!(paid.len(), 0);
}
