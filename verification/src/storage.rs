//! The session registry and the key-share custody ledger, kept as one store
//! with one way of writing to it.

use crate::identifier::Identifier;
use std::collections::HashMap;
use std::collections::HashSet;
use vstd::prelude::*;

verus! {

broadcast use vstd::std_specs::hash::group_hash_axioms;

/// A session: what a client declared when it opened a deposit, and the
/// challenge that the entity answered with.
#[derive(Debug, PartialEq, Eq)]
pub struct Session {
    pub id: Identifier,
    /// The client's authentication token, as it came.
    pub auth: String,
    /// The client's proof-of-ownership public key, as it came.
    pub proof_key: String,
    /// The session's current challenge, in its transport form.
    pub challenge: String,
    /// When the session was opened, in seconds since the Unix epoch.
    pub created_at: u64,
}

/// What a `Session` holds.
pub struct SessionView {
    pub id: Identifier,
    pub auth: Seq<char>,
    pub proof_key: Seq<char>,
    pub challenge: Seq<char>,
    pub created_at: u64,
}

impl View for Session {
    type V = SessionView;

    open spec fn view(&self) -> SessionView {
        SessionView {
            id: self.id,
            auth: self.auth@,
            proof_key: self.proof_key@,
            challenge: self.challenge@,
            created_at: self.created_at,
        }
    }
}

impl Clone for Session {
    fn clone(&self) -> (copy: Session)
        ensures
            copy@ == self@,
    {
        Session {
            id: self.id,
            auth: self.auth.clone(),
            proof_key: self.proof_key.clone(),
            challenge: self.challenge.clone(),
            created_at: self.created_at,
        }
    }
}

/// The entry of the custody ledger that says: for this session a key share is
/// reserved. The share itself belongs to the signing subsystem.
#[derive(Debug, Clone, Copy, PartialEq, Eq, Structural)]
pub struct KeyShareRecord {
    pub id: Identifier,
}

/// How an attempt to write a session and its key-share record ended.
#[derive(Debug, Clone, Copy, PartialEq, Eq, Structural)]
pub enum WriteOutcome {
    /// Both records are written.
    Committed,
    /// The identifier is taken. Nothing was written.
    Conflict,
    /// The store could not be reached. Nothing was written.
    Unavailable,
}

/// The sessions and the key-share records of an entity, held in memory.
///
/// Records are only ever added, and only in pairs: see `provision`.
pub struct SessionStore {
    sessions: HashMap<u128, Session>,
    key_shares: HashSet<u128>,
}

impl SessionStore {
    /// The session registry: each session under the bits of its identifier.
    pub closed spec fn sessions(&self) -> Map<u128, SessionView> {
        self.sessions@.map_values(|session: Session| session@)
    }

    /// The custody ledger: the identifiers for which a key share is reserved.
    pub closed spec fn key_shares(&self) -> Set<u128> {
        self.key_shares@
    }

    /// What holds of every store: each session has its key-share record and
    /// each record its session, and a session is kept under its own
    /// identifier.
    #[verifier::type_invariant]
    pub open spec fn wf(&self) -> bool {
        &&& self.sessions().dom().finite()
        &&& self.sessions().dom() == self.key_shares()
        &&& forall|bits: u128| #[trigger]
            self.sessions().contains_key(bits) ==> self.sessions()[bits].id == Identifier(bits)
    }

    /// Whether the store holds what `before` holds, and nothing else.
    pub open spec fn same_as(&self, before: &SessionStore) -> bool {
        &&& self.sessions() == before.sessions()
        &&& self.key_shares() == before.key_shares()
    }

    /// Whether the store holds what `before` holds and, new under an
    /// identifier that `before` did not know, `session` and its key-share
    /// record.
    pub open spec fn grown_by(&self, before: &SessionStore, session: SessionView) -> bool {
        &&& !before.sessions().contains_key(session.id.0)
        &&& !before.key_shares().contains(session.id.0)
        &&& self.sessions() == before.sessions().insert(session.id.0, session)
        &&& self.key_shares() == before.key_shares().insert(session.id.0)
    }

    /// A store that holds nothing.
    pub fn new() -> (store: SessionStore)
        ensures
            store.wf(),
            store.sessions() == Map::<u128, SessionView>::empty(),
            store.key_shares() == Set::<u128>::empty(),
    {
        let sessions: HashMap<u128, Session> = HashMap::new();
        let key_shares: HashSet<u128> = HashSet::new();
        proof {
            let registry = sessions@.map_values(|session: Session| session@);
            assert(registry =~= Map::<u128, SessionView>::empty());
            assert(registry.dom() =~= key_shares@);
        }
        SessionStore { sessions, key_shares }
    }

    /// Writes `session` and its key-share record, both or neither.
    ///
    /// The write is refused, and nothing changes, where a session is already
    /// kept under the identifier: no record is ever overwritten. Otherwise the
    /// two tables are taken out of the store, written, and put back as one
    /// value, so that the store never stands with one record of a pair.
    pub fn provision(&mut self, session: &Session) -> (outcome: WriteOutcome)
        ensures
            final(self).wf(),
            outcome == if old(self).sessions().contains_key(session.id.0) {
                WriteOutcome::Conflict
            } else {
                WriteOutcome::Committed
            },
            outcome == WriteOutcome::Committed ==> final(self).grown_by(old(self), session@),
            outcome != WriteOutcome::Committed ==> final(self).same_as(old(self)),
    {
        proof {
            use_type_invariant(&*self);
        }
        let bits: u128 = session.id.0;
        if self.sessions.contains_key(&bits) {
            return WriteOutcome::Conflict;
        }
        let record = session.clone();
        let mut held = SessionStore::new();
        std::mem::swap(self, &mut held);
        let SessionStore { mut sessions, mut key_shares } = held;
        sessions.insert(bits, record);
        key_shares.insert(bits);
        proof {
            assert(sessions@.map_values(|session: Session| session@) =~= old(self).sessions().insert(
                bits,
                session@,
            ));
        }
        *self = SessionStore { sessions, key_shares };
        WriteOutcome::Committed
    }

    /// Tells whether a session is kept under `id`.
    pub fn contains(&self, id: Identifier) -> (found: bool)
        ensures
            found == self.sessions().contains_key(id.0),
    {
        self.sessions.contains_key(&id.0)
    }

    /// The session that is kept under `id`.
    pub fn session(&self, id: Identifier) -> (found: Option<&Session>)
        ensures
            match found {
                Some(session) => self.sessions().contains_key(id.0) && session@
                    == self.sessions()[id.0],
                None => !self.sessions().contains_key(id.0),
            },
    {
        self.sessions.get(&id.0)
    }

    /// The key-share record that is kept under `id`.
    pub fn key_share(&self, id: Identifier) -> (found: Option<KeyShareRecord>)
        ensures
            found == if self.key_shares().contains(id.0) {
                Some(KeyShareRecord { id })
            } else {
                None
            },
    {
        if self.key_shares.contains(&id.0) {
            Some(KeyShareRecord { id })
        } else {
            None
        }
    }

    /// The number of sessions, which is also the number of key-share records.
    pub fn len(&self) -> (count: usize)
        ensures
            count == self.sessions().len(),
            count == self.key_shares().len(),
    {
        proof {
            use_type_invariant(self);
            assert(self.sessions().dom() =~= self.sessions@.dom());
        }
        self.sessions.len()
    }
}

/// In every store a session is kept under an identifier exactly when a
/// key-share record is: there is no session without its record and no record
/// without its session.
pub proof fn lemma_session_iff_key_share(store: &SessionStore, id: Identifier)
    requires
        store.wf(),
    ensures
        store.sessions().contains_key(id.0) <==> store.key_shares().contains(id.0),
{
}

/// A write takes no record away and changes none: what a store held before
/// the write, it holds after it, whether the write went through or not.
pub proof fn lemma_records_stay(
    before: &SessionStore,
    after: &SessionStore,
    written: SessionView,
    id: Identifier,
)
    requires
        after.grown_by(before, written) || after.same_as(before),
        before.sessions().contains_key(id.0),
    ensures
        after.sessions().contains_key(id.0),
        after.sessions()[id.0] == before.sessions()[id.0],
        before.key_shares().contains(id.0) ==> after.key_shares().contains(id.0),
{
}

} // verus!
