//! Opening a deposit.

use crate::challenge::{
    challenge_text, hex_text, is_challenge_text, lemma_hex_text_injective,
    lemma_hex_text_is_challenge,
};
use crate::error::{RequestField, SEError};
use crate::identifier::{is_random_layout, random_uuid_bits, Identifier};
use crate::server::StateChainEntity;
use crate::shared::{DepositMsg1, UserID, UserIDView};
use crate::storage::{Session, SessionStore, SessionView, WriteOutcome};
use vstd::prelude::*;

verus! {

/// How often, at most, an identifier is drawn for one request.
pub const MAX_ATTEMPTS: u32 = 3;

/// The field of `msg` that makes it unacceptable, if there is one: both
/// fields must hold something, and `auth` is looked at first.
pub open spec fn request_fault(msg: DepositMsg1) -> Option<RequestField> {
    if msg.auth@.len() == 0 {
        Some(RequestField::Auth)
    } else if msg.proof_key@.len() == 0 {
        Some(RequestField::ProofKey)
    } else {
        None
    }
}

/// The session that `msg` opens at the time `now`, when `id` and `entropy`
/// are what was drawn for it.
pub open spec fn session_for(msg: DepositMsg1, id: Identifier, entropy: u128, now: u64) -> SessionView {
    SessionView {
        id,
        auth: msg.auth@,
        proof_key: msg.proof_key@,
        challenge: hex_text(entropy),
        created_at: now,
    }
}

/// What the client of `session` is told: the identifier and the challenge of
/// that session, and nothing of any other.
pub open spec fn reply_to(session: SessionView) -> UserIDView {
    UserIDView { id: session.id, challenge: Some(session.challenge) }
}

/// Checks a request before anything is drawn or written for it.
pub fn check_request(msg: &DepositMsg1) -> (checked: Result<(), SEError>)
    ensures
        checked == match request_fault(*msg) {
            Some(field) => Err::<(), SEError>(SEError::ValidationError(field)),
            None => Ok(()),
        },
{
    if msg.auth.as_str().is_empty() {
        Err(SEError::ValidationError(RequestField::Auth))
    } else if msg.proof_key.as_str().is_empty() {
        Err(SEError::ValidationError(RequestField::ProofKey))
    } else {
        Ok(())
    }
}

/// Makes the session that `msg` opens from what was drawn for it.
pub fn open_session(msg: &DepositMsg1, id: Identifier, entropy: u128, now: u64) -> (session: Session)
    ensures
        session@ == session_for(*msg, id, entropy, now),
        is_challenge_text(session.challenge@),
{
    proof {
        lemma_hex_text_is_challenge(entropy);
    }
    Session {
        id,
        auth: msg.auth.clone(),
        proof_key: msg.proof_key.clone(),
        challenge: challenge_text(entropy),
        created_at: now,
    }
}

/// Draws an identifier and a challenge, and makes the session that `msg`
/// opens from them.
pub fn draw_session(msg: &DepositMsg1, now: u64) -> (session: Session)
    ensures
        session.auth@ == msg.auth@,
        session.proof_key@ == msg.proof_key@,
        session.created_at == now,
        is_random_layout(session.id.0),
        is_challenge_text(session.challenge@),
{
    let id = Identifier::generate();
    let entropy: u128 = random_uuid_bits();
    open_session(msg, id, entropy, now)
}

/// The answer that goes to the client of `session`.
pub fn reply(session: &Session) -> (user: UserID)
    ensures
        user@ == reply_to(session@),
{
    UserID { id: session.id, challenge: Some(session.challenge.clone()) }
}

/// What the entity does after an attempt to write a session.
#[derive(Debug, PartialEq, Eq)]
pub enum Step {
    /// Answer the client.
    Respond(UserID),
    /// Draw again and write again.
    Retry,
    /// Give up and report.
    Fail(SEError),
}

/// Decides how to go on after the write of `session` ended in `outcome`, the
/// `attempts_made`-th write for this request.
///
/// A committed session is answered. A taken identifier is drawn again until
/// `MAX_ATTEMPTS` writes were made, and is a failure from then on. A store
/// that cannot be reached is a failure at once.
pub fn after_write(outcome: WriteOutcome, attempts_made: u32, session: &Session) -> (step: Step)
    ensures
        match step {
            Step::Respond(user) => outcome == WriteOutcome::Committed && user@ == reply_to(
                session@,
            ),
            Step::Retry => outcome == WriteOutcome::Conflict && attempts_made < MAX_ATTEMPTS,
            Step::Fail(error) => match outcome {
                WriteOutcome::Committed => false,
                WriteOutcome::Conflict => attempts_made >= MAX_ATTEMPTS && error
                    == SEError::ConflictError,
                WriteOutcome::Unavailable => error == SEError::StorageUnavailable,
            },
        },
{
    match outcome {
        WriteOutcome::Committed => Step::Respond(reply(session)),
        WriteOutcome::Conflict => {
            if attempts_made < MAX_ATTEMPTS {
                Step::Retry
            } else {
                Step::Fail(SEError::ConflictError)
            }
        },
        WriteOutcome::Unavailable => Step::Fail(SEError::StorageUnavailable),
    }
}

/// Writes `session` to `db` and decides how to go on, as the
/// `attempts_made`-th attempt for its request.
pub fn attempt(db: &mut SessionStore, session: &Session, attempts_made: u32) -> (step: Step)
    ensures
        final(db).wf(),
        match step {
            Step::Respond(user) => {
                &&& final(db).grown_by(old(db), session@)
                &&& user@ == reply_to(session@)
            },
            Step::Retry => {
                &&& old(db).sessions().contains_key(session.id.0)
                &&& attempts_made < MAX_ATTEMPTS
                &&& final(db).same_as(old(db))
            },
            Step::Fail(error) => {
                &&& old(db).sessions().contains_key(session.id.0)
                &&& attempts_made >= MAX_ATTEMPTS
                &&& error == SEError::ConflictError
                &&& final(db).same_as(old(db))
            },
        },
{
    let outcome = db.provision(session);
    after_write(outcome, attempts_made, session)
}

/// Whether a request `msg`, made at the time `now` and answered with `user`,
/// took the store from `before` to `after`: the session that the answer names
/// is new, it holds what the client declared and the challenge that the
/// client was given, and it came with its key-share record.
pub open spec fn opened(
    before: &SessionStore,
    after: &SessionStore,
    msg: DepositMsg1,
    now: u64,
    user: UserIDView,
) -> bool {
    &&& request_fault(msg) is None
    &&& user.challenge matches Some(challenge)
    &&& is_challenge_text(challenge)
    &&& after.grown_by(
        before,
        SessionView {
            id: user.id,
            auth: msg.auth@,
            proof_key: msg.proof_key@,
            challenge,
            created_at: now,
        },
    )
}

/// Opens a deposit: registers a session for the client that sent
/// `deposit_msg1`, together with the session's key-share record, and answers
/// with the session's identifier and challenge.
///
/// `sc_entity` is the entity that serves the request: that there is one shows
/// that a policy is loaded. `db` is its store and `now` the time of the
/// request, in seconds since the Unix epoch.
///
/// An unacceptable request is refused before anything is drawn. For an
/// acceptable one an identifier and a challenge are drawn, up to
/// `MAX_ATTEMPTS` times if the identifier turns out to be taken. Whenever the
/// request fails, the store is left as it was.
#[allow(unused_variables)]
pub fn deposit_init(
    sc_entity: &StateChainEntity,
    db: &mut SessionStore,
    deposit_msg1: DepositMsg1,
    now: u64,
) -> (answer: Result<UserID, SEError>)
    ensures
        final(db).wf(),
        match answer {
            Ok(user) => {
                &&& opened(old(db), final(db), deposit_msg1, now, user@)
                &&& is_random_layout(user.id.0)
            },
            Err(error) => {
                &&& final(db).same_as(old(db))
                &&& match request_fault(deposit_msg1) {
                    Some(field) => error == SEError::ValidationError(field),
                    None => error == SEError::ConflictError && old(db).sessions().len() > 0,
                }
            },
        },
        request_fault(deposit_msg1) is Some ==> answer is Err,
        request_fault(deposit_msg1) is None && old(db).sessions().len() == 0 ==> answer is Ok,
{
    proof {
        use_type_invariant(&*db);
    }
    match check_request(&deposit_msg1) {
        Err(error) => {
            return Err(error);
        },
        Ok(()) => {},
    }
    let mut attempts_made: u32 = 0;
    loop
        invariant
            attempts_made < MAX_ATTEMPTS,
            request_fault(deposit_msg1) is None,
            db.wf(),
            db.same_as(old(db)),
        decreases MAX_ATTEMPTS - attempts_made,
    {
        let session = draw_session(&deposit_msg1, now);
        attempts_made = attempts_made + 1;
        match attempt(db, &session, attempts_made) {
            Step::Respond(user) => {
                return Ok(user);
            },
            Step::Fail(error) => {
                proof {
                    lemma_holds_some(old(db), session.id);
                }
                return Err(error);
            },
            Step::Retry => {},
        }
    }
}

/// A store that keeps a session keeps at least one.
proof fn lemma_holds_some(db: &SessionStore, id: Identifier)
    requires
        db.wf(),
        db.sessions().contains_key(id.0),
    ensures
        db.sessions().len() > 0,
{
    let ids = db.sessions().dom();
    if ids.len() == 0 {
        ids.lemma_len0_is_empty();
        assert(ids.contains(id.0));
    }
}

/// A session that was opened stays: every later store of the run keeps a
/// session under the identifier that was answered.
proof fn lemma_answered_identifier_stays(
    stores: Seq<SessionStore>,
    msgs: Seq<DepositMsg1>,
    times: Seq<u64>,
    users: Seq<UserIDView>,
    earlier: int,
    later: int,
)
    requires
        stores.len() == users.len() + 1,
        msgs.len() == users.len(),
        times.len() == users.len(),
        forall|k: int|
            0 <= k < users.len() ==> opened(
                &stores[k],
                &stores[k + 1],
                msgs[k],
                times[k],
                #[trigger] users[k],
            ),
        0 <= earlier < later <= users.len(),
    ensures
        stores[later].sessions().contains_key(users[earlier].id.0),
    decreases later,
{
    let last = users[later - 1];
    assert(opened(&stores[later - 1], &stores[later], msgs[later - 1], times[later - 1], last));
    if earlier < later - 1 {
        lemma_answered_identifier_stays(stores, msgs, times, users, earlier, later - 1);
    }
}

/// However many deposits are opened on a store, one after the other, no two
/// of them are answered with the same identifier.
///
/// `stores` are the states of the store before the first request, between
/// the requests and after the last; `msgs`, `times` and `users` are the
/// requests, their times and their answers.
pub proof fn lemma_identifiers_never_repeat(
    stores: Seq<SessionStore>,
    msgs: Seq<DepositMsg1>,
    times: Seq<u64>,
    users: Seq<UserIDView>,
)
    requires
        stores.len() == users.len() + 1,
        msgs.len() == users.len(),
        times.len() == users.len(),
        forall|k: int|
            0 <= k < users.len() ==> opened(
                &stores[k],
                &stores[k + 1],
                msgs[k],
                times[k],
                #[trigger] users[k],
            ),
    ensures
        forall|first: int, second: int|
            0 <= first < second < users.len() ==> (#[trigger] users[first]).id
                != (#[trigger] users[second]).id,
{
    assert forall|first: int, second: int| 0 <= first < second < users.len() implies (
    #[trigger] users[first]).id != (#[trigger] users[second]).id by {
        lemma_answered_identifier_stays(stores, msgs, times, users, first, second);
        assert(opened(
            &stores[second],
            &stores[second + 1],
            msgs[second],
            times[second],
            users[second],
        ));
    }
}

/// Sessions that were opened from different draws of entropy are answered
/// with different challenges: the challenge in an answer is the one of its
/// own session, and of no other.
pub proof fn lemma_challenges_differ(
    msg: DepositMsg1,
    id: Identifier,
    entropy: u128,
    now: u64,
    other_msg: DepositMsg1,
    other_id: Identifier,
    other_entropy: u128,
    other_now: u64,
)
    requires
        entropy != other_entropy,
    ensures
        reply_to(session_for(msg, id, entropy, now)).challenge != reply_to(
            session_for(other_msg, other_id, other_entropy, other_now),
        ).challenge,
{
    if hex_text(entropy) == hex_text(other_entropy) {
        lemma_hex_text_injective(entropy, other_entropy);
    }
}

} // verus!
