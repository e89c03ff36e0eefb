use shade::errors::ContractError;
use shade::events::{ContractUpgradedEvent, Event};
use shade::shade::Shade;
use shade::types::Address;

#[test]
fn test_admin_can_upgrade_successfully() {
    let mut s = Shade::new();
    let admin = Address { id: 1 };
    s.initialize(admin, 0).unwrap();

    let v2_hash = [7u8; 32];
    s.upgrade(admin, v2_hash, 0).unwrap();
}

#[test]
fn test_non_admin_cannot_upgrade() {
    let mut s = Shade::new();
    let admin = Address { id: 1 };
    let non_admin = Address { id: 2 };
    s.initialize(admin, 0).unwrap();

    let v2_hash = [7u8; 32];
    let expected_error = ContractError::NotAuthorized;

    let upgrade_result = s.upgrade(non_admin, v2_hash, 0);
    assert!(matches!(upgrade_result, Err(err) if err == expected_error));
}

#[test]
fn test_state_persists_after_upgrade() {
    let mut s = Shade::new();
    let admin = Address { id: 1 };
    s.initialize(admin, 0).unwrap();

    let token = Address { id: 9 };
    s.add_accepted_token(admin, token, 0).unwrap();

    let v2_hash = [7u8; 32];
    s.upgrade(admin, v2_hash, 0).unwrap();

    let stored_admin = s.get_admin().unwrap();
    assert_eq!(stored_admin, admin);

    let accepted_tokens = s.get_accepted_tokens();
    let mut token_found = false;
    for accepted_token in accepted_tokens.iter() {
        if *accepted_token == token {
            token_found = true;
            break;
        }
    }
    assert!(token_found);
}

#[test]
fn test_upgrade_emits_contract_upgraded_event() {
    let mut s = Shade::new();
    let admin = Address { id: 1 };
    s.initialize(admin, 0).unwrap();

    let v2_hash = [7u8; 32];
    let expected_timestamp = 11;

    s.upgrade(admin, v2_hash, expected_timestamp).unwrap();
    let journal = s.journal();
    assert!(journal.len() > 0);
    assert_eq!(
        journal[journal.len() - 1],
        Event::ContractUpgraded(ContractUpgradedEvent {
            new_wasm_hash: v2_hash,
            timestamp: expected_timestamp,
        })
    );
}
