use statechain_entity::challenge::challenge_text;
use statechain_entity::endpoints::deposit::{
    after_write, attempt, check_request, deposit_init, draw_session, open_session, reply, Step,
    MAX_ATTEMPTS,
};
use statechain_entity::error::{RequestField, SEError};
use statechain_entity::identifier::Identifier;
use statechain_entity::server::StateChainEntity;
use statechain_entity::shared::{DepositMsg1, StateEntityFeeInfoAPI, UserID, UuidDef};
use statechain_entity::storage::{KeyShareRecord, SessionStore, WriteOutcome};

fn entity() -> StateChainEntity {
    StateChainEntity::load(Some(StateEntityFeeInfoAPI::example())).unwrap()
}

fn request(auth: &str, proof_key: &str) -> DepositMsg1 {
    DepositMsg1 { auth: auth.to_string(), proof_key: proof_key.to_string() }
}

const PROOF_KEY: &str = "02ab3c4d5e6f708192a3b4c5d6e7f8091a2b3c4d5e6f708192a3b4c5d6e7f809cd";

fn is_lower_hex(text: &str) -> bool {
    text.chars().all(|c| c.is_ascii_digit() || ('a'..='f').contains(&c))
}

#[test]
fn answer_has_identifier_and_challenge() {
    let sc_entity = entity();
    let mut db = SessionStore::new();
    let user = deposit_init(&sc_entity, &mut db, request("token-123", PROOF_KEY), 1_700_000_000)
        .unwrap();
    let id_text = UuidDef::of(user.id);
    assert_eq!(id_text.as_str().len(), 36);
    let challenge = user.challenge.unwrap();
    assert_eq!(challenge.len(), 32);
    assert!(is_lower_hex(&challenge));
}

#[test]
fn repeating_a_request_gives_another_identifier_and_challenge() {
    let sc_entity = entity();
    let mut db = SessionStore::new();
    let first = deposit_init(&sc_entity, &mut db, request("token-123", PROOF_KEY), 1).unwrap();
    let second = deposit_init(&sc_entity, &mut db, request("token-123", PROOF_KEY), 1).unwrap();
    assert_ne!(first.id, second.id);
    assert_ne!(first.challenge, second.challenge);
    assert_eq!(db.len(), 2);
}

#[test]
fn two_deposits_give_two_key_share_records() {
    let sc_entity = entity();
    let mut db = SessionStore::new();
    let one = deposit_init(&sc_entity, &mut db, request("alice", "02aa"), 10).unwrap();
    let other = deposit_init(&sc_entity, &mut db, request("bob", "03bb"), 10).unwrap();
    assert_eq!(db.key_share(one.id), Some(KeyShareRecord { id: one.id }));
    assert_eq!(db.key_share(other.id), Some(KeyShareRecord { id: other.id }));
    assert_ne!(one.id, other.id);
    assert_eq!(db.len(), 2);
    assert_eq!(db.session(one.id).unwrap().auth, "alice");
    assert_eq!(db.session(other.id).unwrap().auth, "bob");
}

#[test]
fn empty_auth_is_refused_and_nothing_is_written() {
    let sc_entity = entity();
    let mut db = SessionStore::new();
    let answer = deposit_init(&sc_entity, &mut db, request("", PROOF_KEY), 5);
    assert_eq!(answer, Err(SEError::ValidationError(RequestField::Auth)));
    assert_eq!(db.len(), 0);
}

#[test]
fn empty_proof_key_is_refused_and_nothing_is_written() {
    let sc_entity = entity();
    let mut db = SessionStore::new();
    let answer = deposit_init(&sc_entity, &mut db, request("token-123", ""), 5);
    assert_eq!(answer, Err(SEError::ValidationError(RequestField::ProofKey)));
    assert_eq!(db.len(), 0);
}

#[test]
fn check_request_names_the_first_empty_field() {
    assert_eq!(check_request(&request("a", "b")), Ok(()));
    assert_eq!(
        check_request(&request("", "b")),
        Err(SEError::ValidationError(RequestField::Auth))
    );
    assert_eq!(
        check_request(&request("a", "")),
        Err(SEError::ValidationError(RequestField::ProofKey))
    );
    assert_eq!(check_request(&request("", "")), Err(SEError::ValidationError(RequestField::Auth)));
}

#[test]
fn a_refused_request_leaves_earlier_sessions_alone() {
    let sc_entity = entity();
    let mut db = SessionStore::new();
    let user = deposit_init(&sc_entity, &mut db, request("token-123", PROOF_KEY), 5).unwrap();
    let before = db.session(user.id).unwrap().clone();
    assert!(deposit_init(&sc_entity, &mut db, request("", ""), 6).is_err());
    assert_eq!(db.len(), 1);
    assert_eq!(db.session(user.id), Some(&before));
}

#[test]
fn success_writes_the_session_and_its_key_share_record() {
    let sc_entity = entity();
    let mut db = SessionStore::new();
    let user = deposit_init(&sc_entity, &mut db, request("token-123", PROOF_KEY), 42).unwrap();
    let session = db.session(user.id).unwrap();
    assert_eq!(session.id, user.id);
    assert_eq!(session.auth, "token-123");
    assert_eq!(session.proof_key, PROOF_KEY);
    assert_eq!(session.created_at, 42);
    assert_eq!(Some(session.challenge.clone()), user.challenge);
    assert_eq!(db.key_share(user.id), Some(KeyShareRecord { id: user.id }));
    assert!(db.contains(user.id));
}

#[test]
fn many_deposits_get_as_many_identifiers() {
    let sc_entity = entity();
    let mut db = SessionStore::new();
    let mut seen: Vec<Identifier> = Vec::new();
    for round in 0..200u64 {
        let user = deposit_init(&sc_entity, &mut db, request("token-123", PROOF_KEY), round)
            .unwrap();
        assert!(!seen.contains(&user.id));
        seen.push(user.id);
    }
    assert_eq!(db.len(), 200);
    for id in seen {
        assert!(db.contains(id));
        assert!(db.key_share(id).is_some());
    }
}

#[test]
fn answers_of_different_sessions_share_no_challenge() {
    let sc_entity = entity();
    let mut db = SessionStore::new();
    let mut challenges: Vec<String> = Vec::new();
    for round in 0..50u64 {
        let user = deposit_init(&sc_entity, &mut db, request("token-123", PROOF_KEY), round)
            .unwrap();
        let challenge = user.challenge.unwrap();
        assert!(!challenges.contains(&challenge));
        assert_eq!(db.session(user.id).unwrap().challenge, challenge);
        challenges.push(challenge);
    }
}

#[test]
fn identifiers_of_answers_are_random_uuids() {
    let sc_entity = entity();
    let mut db = SessionStore::new();
    let user = deposit_init(&sc_entity, &mut db, request("token-123", PROOF_KEY), 1).unwrap();
    let id = uuid::Uuid::from_u128(user.id.0);
    assert_eq!(id.get_version_num(), 4);
    assert_eq!(id.get_variant(), uuid::Variant::RFC4122);
}

#[test]
fn open_session_keeps_what_the_client_declared() {
    let msg = request("token-123", PROOF_KEY);
    let id = Identifier(0x0123_4567_89ab_4def_8123_4567_89ab_cdef);
    let session = open_session(&msg, id, 0xdead_beef, 99);
    assert_eq!(session.id, id);
    assert_eq!(session.auth, "token-123");
    assert_eq!(session.proof_key, PROOF_KEY);
    assert_eq!(session.challenge, "000000000000000000000000deadbeef");
    assert_eq!(session.challenge, challenge_text(0xdead_beef));
    assert_eq!(session.created_at, 99);
}

#[test]
fn draw_session_draws_anew_each_time() {
    let msg = request("token-123", PROOF_KEY);
    let one = draw_session(&msg, 3);
    let other = draw_session(&msg, 3);
    assert_ne!(one.id, other.id);
    assert_ne!(one.challenge, other.challenge);
    assert_eq!(one.auth, "token-123");
    assert_eq!(one.proof_key, PROOF_KEY);
    assert_eq!(one.created_at, 3);
    assert_eq!(one.challenge.len(), 32);
    assert!(is_lower_hex(&one.challenge));
    assert_eq!(uuid::Uuid::from_u128(one.id.0).get_version_num(), 4);
}

#[test]
fn reply_carries_identifier_and_challenge_of_its_session() {
    let session = open_session(&request("a", "b"), Identifier(7), 0xabc, 0);
    let user = reply(&session);
    assert_eq!(
        user,
        UserID { id: Identifier(7), challenge: Some(format!("{:032x}", 0xabcu128)) }
    );
}

#[test]
fn after_write_answers_a_committed_session() {
    let session = open_session(&request("a", "b"), Identifier(7), 0xabc, 0);
    let step = after_write(WriteOutcome::Committed, 1, &session);
    assert_eq!(step, Step::Respond(reply(&session)));
    let late = after_write(WriteOutcome::Committed, MAX_ATTEMPTS, &session);
    assert_eq!(late, Step::Respond(reply(&session)));
}

#[test]
fn after_write_retries_a_conflict_up_to_the_bound() {
    let session = open_session(&request("a", "b"), Identifier(7), 0xabc, 0);
    assert_eq!(MAX_ATTEMPTS, 3);
    assert_eq!(after_write(WriteOutcome::Conflict, 1, &session), Step::Retry);
    assert_eq!(after_write(WriteOutcome::Conflict, 2, &session), Step::Retry);
    assert_eq!(
        after_write(WriteOutcome::Conflict, 3, &session),
        Step::Fail(SEError::ConflictError)
    );
    assert_eq!(
        after_write(WriteOutcome::Conflict, 4, &session),
        Step::Fail(SEError::ConflictError)
    );
}

#[test]
fn after_write_gives_up_on_an_unreachable_store() {
    let session = open_session(&request("a", "b"), Identifier(7), 0xabc, 0);
    assert_eq!(
        after_write(WriteOutcome::Unavailable, 1, &session),
        Step::Fail(SEError::StorageUnavailable)
    );
    assert_eq!(
        after_write(WriteOutcome::Unavailable, 3, &session),
        Step::Fail(SEError::StorageUnavailable)
    );
}

#[test]
fn attempt_with_a_free_identifier_commits() {
    let mut db = SessionStore::new();
    let session = open_session(&request("a", "b"), Identifier(7), 0xabc, 11);
    let step = attempt(&mut db, &session, 1);
    assert_eq!(step, Step::Respond(reply(&session)));
    assert_eq!(db.session(Identifier(7)), Some(&session));
    assert_eq!(db.key_share(Identifier(7)), Some(KeyShareRecord { id: Identifier(7) }));
}

#[test]
fn attempt_with_a_taken_identifier_writes_nothing() {
    let mut db = SessionStore::new();
    let first = open_session(&request("a", "b"), Identifier(7), 0xabc, 11);
    assert_eq!(attempt(&mut db, &first, 1), Step::Respond(reply(&first)));
    let second = open_session(&request("c", "d"), Identifier(7), 0xdef, 12);
    assert_eq!(attempt(&mut db, &second, 1), Step::Retry);
    assert_eq!(attempt(&mut db, &second, 2), Step::Retry);
    assert_eq!(attempt(&mut db, &second, 3), Step::Fail(SEError::ConflictError));
    assert_eq!(db.len(), 1);
    assert_eq!(db.session(Identifier(7)), Some(&first));
}
