use statechain_entity::identifier::Identifier;
use statechain_entity::storage::{KeyShareRecord, Session, SessionStore, WriteOutcome};

fn session(bits: u128, auth: &str) -> Session {
    Session {
        id: Identifier(bits),
        auth: auth.to_string(),
        proof_key: "02ab".to_string(),
        challenge: "00112233445566778899aabbccddeeff".to_string(),
        created_at: 1,
    }
}

#[test]
fn a_new_store_holds_nothing() {
    let db = SessionStore::new();
    assert_eq!(db.len(), 0);
    assert!(!db.contains(Identifier(1)));
    assert_eq!(db.session(Identifier(1)), None);
    assert_eq!(db.key_share(Identifier(1)), None);
}

#[test]
fn provision_writes_both_records() {
    let mut db = SessionStore::new();
    let written = session(1, "alice");
    assert_eq!(db.provision(&written), WriteOutcome::Committed);
    assert_eq!(db.len(), 1);
    assert!(db.contains(Identifier(1)));
    assert_eq!(db.session(Identifier(1)), Some(&written));
    assert_eq!(db.key_share(Identifier(1)), Some(KeyShareRecord { id: Identifier(1) }));
    assert_eq!(db.session(Identifier(2)), None);
    assert_eq!(db.key_share(Identifier(2)), None);
}

#[test]
fn provision_refuses_a_taken_identifier_and_overwrites_nothing() {
    let mut db = SessionStore::new();
    let first = session(1, "alice");
    let second = session(1, "bob");
    assert_eq!(db.provision(&first), WriteOutcome::Committed);
    assert_eq!(db.provision(&second), WriteOutcome::Conflict);
    assert_eq!(db.len(), 1);
    assert_eq!(db.session(Identifier(1)), Some(&first));
}

#[test]
fn provision_keeps_sessions_apart() {
    let mut db = SessionStore::new();
    let one = session(1, "alice");
    let other = session(u128::MAX, "bob");
    assert_eq!(db.provision(&one), WriteOutcome::Committed);
    assert_eq!(db.provision(&other), WriteOutcome::Committed);
    assert_eq!(db.len(), 2);
    assert_eq!(db.session(Identifier(1)), Some(&one));
    assert_eq!(db.session(Identifier(u128::MAX)), Some(&other));
    assert_eq!(db.key_share(Identifier(u128::MAX)), Some(KeyShareRecord { id: Identifier(u128::MAX) }));
}

#[test]
fn a_session_clones_to_an_equal_session() {
    let kept = session(9, "carol");
    assert_eq!(kept.clone(), kept);
}
