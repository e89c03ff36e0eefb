use shade::errors::ContractError;
use shade::events::{ContractPausedEvent, ContractUnpausedEvent, Event};
use shade::shade::Shade;
use shade::types::Address;

fn setup_test() -> (Shade, Address) {
    let mut s = Shade::new();
    let admin = Address { id: 1 };
    s.initialize(admin, 0).unwrap();
    (s, admin)
}

#[test]
fn test_admin_can_pause_and_unpause() {
    let (mut s, admin) = setup_test();

    assert!(!s.is_paused());

    s.pause(admin, 0).unwrap();
    assert!(s.is_paused());

    s.unpause(admin, 0).unwrap();
    assert!(!s.is_paused());
}

#[test]
fn test_non_admin_cannot_pause_or_unpause() {
    let (mut s, admin) = setup_test();
    let non_admin = Address { id: 2 };

    let expected_error = ContractError::NotAuthorized;

    let pause_result = s.pause(non_admin, 0);
    assert!(matches!(pause_result, Err(err) if err == expected_error));

    s.pause(admin, 0).unwrap();

    let unpause_result = s.unpause(non_admin, 0);
    assert!(matches!(unpause_result, Err(err) if err == expected_error));

    assert!(s.is_paused());
}

#[test]
fn test_is_paused_state_transitions_are_accurate() {
    let (mut s, admin) = setup_test();

    assert!(!s.is_paused());

    s.pause(admin, 0).unwrap();
    assert!(s.is_paused());

    s.unpause(admin, 0).unwrap();
    assert!(!s.is_paused());
}

#[test]
fn test_pause_and_unpause_emit_expected_events() {
    let (mut s, admin) = setup_test();

    let paused_timestamp = 5;
    s.pause(admin, paused_timestamp).unwrap();
    {
        let journal = s.journal();
        assert_eq!(
            journal[journal.len() - 1],
            Event::ContractPaused(ContractPausedEvent { admin, timestamp: paused_timestamp })
        );
    }

    let unpaused_timestamp = 6;
    s.unpause(admin, unpaused_timestamp).unwrap();
    {
        let journal = s.journal();
        assert_eq!(
            journal[journal.len() - 1],
            Event::ContractUnpaused(ContractUnpausedEvent { admin, timestamp: unpaused_timestamp })
        );
    }
}

#[test]
#[should_panic]
fn test_assert_paused_panics_when_not_paused() {
    let (s, _admin) = setup_test();
    s.assert_paused().unwrap();
}

#[test]
#[should_panic]
fn test_assert_not_paused_panics_when_paused() {
    let (mut s, admin) = setup_test();
    s.pause(admin, 0).unwrap();
    s.assert_not_paused().unwrap();
}

#[test]
fn test_double_pause_fails_with_contract_paused_error() {
    let (mut s, admin) = setup_test();

    s.pause(admin, 0).unwrap();

    let expected_error = ContractError::ContractPaused;
    let pause_again_result = s.pause(admin, 0);

    assert!(matches!(pause_again_result, Err(err) if err == expected_error));
    assert!(s.is_paused());
}

#[test]
fn test_double_unpause_fails_with_contract_not_paused_error() {
    let (mut s, admin) = setup_test();

    let expected_error = ContractError::ContractNotPaused;
    let unpause_result = s.unpause(admin, 0);

    assert!(matches!(unpause_result, Err(err) if err == expected_error));
    assert!(!s.is_paused());
}

#[test]
fn test_pause_then_unpause_emits_exactly_one_event_each() {
    let (mut s, admin) = setup_test();
    let before = s.journal().len();
    s.pause(admin, 3).unwrap();
    s.unpause(admin, 4).unwrap();
    let journal = s.journal();
    assert_eq!(journal.len(), before + 2);
    assert_eq!(
        journal[before],
        Event::ContractPaused(ContractPausedEvent { admin, timestamp: 3 })
    );
    assert_eq!(
        journal[before + 1],
        Event::ContractUnpaused(ContractUnpausedEvent { admin, timestamp: 4 })
    );
    assert!(!s.is_paused());
}

#[test]
fn test_paused_blocks_mutating_entry_points() {
    let (mut s, admin) = setup_test();
    s.pause(admin, 0).unwrap();

    assert_eq!(
        s.register_merchant(Address { id: 2 }, 0),
        Err(ContractError::ContractPaused)
    );
    assert_eq!(
        s.add_accepted_token(admin, Address { id: 9 }, 0),
        Err(ContractError::ContractPaused)
    );
    assert_eq!(
        s.remove_accepted_token(admin, Address { id: 9 }, 0),
        Err(ContractError::ContractPaused)
    );
    assert_eq!(
        s.create_invoice(Address { id: 2 }, String::from("x"), 1, Address { id: 9 }),
        Err(ContractError::ContractPaused)
    );
}
