//! The session registry and the state that the handlers share.

use vstd::prelude::*;
use crate::agent::types::{is_version_7, Uuid};
use crate::utils::crypto::{public_key_of, PublicKey, SecretKey};

verus! {

#[verifier::external_type_specification]
#[verifier::external_body]
#[verifier::reject_recursive_types(K)]
#[verifier::reject_recursive_types(V)]
#[verifier::reject_recursive_types(S)]
pub struct ExDashMap<K, V, S>(dashmap::DashMap<K, V, S>);

/// The concurrent map that the sessions are held in.
pub type SessionMap = dashmap::DashMap<[u8; 33], Session>;

/// A session: its signing key and its id.
pub struct Session {
    pub signing_key: SecretKey,
    pub session_id: Uuid,
}

/// What a session holds: the scalar of the signing key and the session id.
pub struct SessionView {
    pub signing_key: Seq<u8>,
    pub session_id: Seq<u8>,
}

/// What a session map holds: for the compressed encoding of a user's key,
/// the session of that user.
pub uninterp spec fn session_entries(map: SessionMap) -> Map<Seq<u8>, SessionView>;

/// The mapping without sessions.
pub open spec fn no_sessions() -> Map<Seq<u8>, SessionView> {
    Map::empty()
}

/// Calls `DashMap::new`. Trusted: the map holds nothing.
#[verifier::external_body]
fn new_session_map() -> (sessions: SessionMap)
    ensures
        session_entries(sessions) == no_sessions(),
{
    dashmap::DashMap::new()
}

/// Calls `DashMap::insert`. Trusted: the map then holds the session under
/// the key, in place of what it held there, and everything else as before.
#[verifier::external_body]
fn put_session(map: &mut SessionMap, key: [u8; 33], signing_key: SecretKey, session_id: Uuid)
    ensures
        session_entries(*final(map)) == session_entries(*old(map)).insert(
            key@,
            SessionView { signing_key: signing_key@, session_id: session_id@ },
        ),
{
    map.insert(key, Session { signing_key, session_id });
}

/// Calls `DashMap::get` and copies what it finds. Trusted: the result is
/// the session that the map holds under the key, and nothing where it holds
/// none.
#[verifier::external_body]
fn find_session(map: &SessionMap, key: &[u8; 33]) -> (r: Option<(SecretKey, Uuid)>)
    ensures
        match r {
            Some((sk, id)) => session_entries(*map).contains_key(key@) && session_entries(
                *map,
            )[key@] == (SessionView { signing_key: sk@, session_id: id@ }),
            None => !session_entries(*map).contains_key(key@),
        },
{
    map.get(key).map(|session| (session.signing_key.duplicate(), session.session_id))
}

/// The session registry: a mapping from the user's verifying key to the
/// session's signing key and id. A user has at most one session: a new one
/// takes the place of the old. The registry is changed through exclusive
/// access; whoever shares it between threads guards it.
pub struct SessionKeyPairs {
    sessions: SessionMap,
}

impl View for SessionKeyPairs {
    type V = Map<Seq<u8>, SessionView>;

    closed spec fn view(&self) -> Map<Seq<u8>, SessionView> {
        session_entries(self.sessions)
    }
}

impl SessionKeyPairs {
    /// The registry without sessions.
    pub fn new() -> (registry: Self)
        ensures
            registry@ == no_sessions(),
    {
        SessionKeyPairs { sessions: new_session_map() }
    }

    /// Puts a session under `user`, in place of the one that was there.
    pub fn insert(&mut self, user: PublicKey, signing_key: SecretKey, session_id: Uuid)
        ensures
            final(self)@ == old(self)@.insert(
                user@,
                SessionView { signing_key: signing_key@, session_id: session_id@ },
            ),
    {
        put_session(&mut self.sessions, *user.as_bytes(), signing_key, session_id);
    }

    /// Creates the session of `pubkey`: a fresh signing key and a fresh
    /// session id, put under `pubkey` in place of any earlier session. Gives
    /// the verifying key of the session and its id.
    pub fn create(&mut self, pubkey: &PublicKey) -> (r: (PublicKey, Uuid))
        ensures
            final(self)@.contains_key(pubkey@),
            final(self)@[pubkey@].session_id == r.1@,
            is_version_7(r.1@),
            public_key_of(final(self)@[pubkey@].signing_key) == Some(r.0@),
            final(self)@ == old(self)@.insert(pubkey@, final(self)@[pubkey@]),
    {
        let (sk, pk) = fresh_keypair();
        let uuid = Uuid::now_v7();
        self.insert(*pubkey, sk, uuid);
        (pk, uuid)
    }

    /// The session of `pubkey`, if it has one: a copy of the signing key,
    /// and the session id.
    pub fn get(&self, pubkey: &PublicKey) -> (r: Option<(SecretKey, Uuid)>)
        ensures
            match r {
                Some((sk, id)) => self@.contains_key(pubkey@) && self@[pubkey@].signing_key == sk@
                    && self@[pubkey@].session_id == id@,
                None => !self@.contains_key(pubkey@),
            },
    {
        find_session(&self.sessions, pubkey.as_bytes())
    }
}

/// A fresh signing key with its verifying key.
pub fn fresh_keypair() -> (r: (SecretKey, PublicKey))
    ensures
        public_key_of(r.0@) == Some(r.1@),
{
    let sk = SecretKey::random();
    match sk.verifying_key() {
        Some(pk) => (sk, pk),
        None => vstd::pervasive::unreached(),
    }
}

/// The state that the request handlers share.
pub struct HypervisorState {
    session_key_pairs: SessionKeyPairs,
}

impl HypervisorState {
    /// The sessions of the state.
    pub closed spec fn spec_sessions(&self) -> Map<Seq<u8>, SessionView> {
        self.session_key_pairs@
    }

    /// A state without sessions.
    pub fn new() -> (state: Self)
        ensures
            state.spec_sessions() == no_sessions(),
    {
        HypervisorState { session_key_pairs: SessionKeyPairs::new() }
    }

    /// Puts a session registry in place of the one of the state.
    pub fn set_session_key_pairs(&mut self, session_key_pairs: SessionKeyPairs)
        ensures
            final(self).spec_sessions() == session_key_pairs@,
    {
        self.session_key_pairs = session_key_pairs;
    }

    /// Creates the session of `pubkey`; see `SessionKeyPairs::create`.
    pub fn create_session_keypair(&mut self, pubkey: &PublicKey) -> (r: (PublicKey, Uuid))
        ensures
            final(self).spec_sessions().contains_key(pubkey@),
            final(self).spec_sessions()[pubkey@].session_id == r.1@,
            is_version_7(r.1@),
            public_key_of(final(self).spec_sessions()[pubkey@].signing_key) == Some(r.0@),
            final(self).spec_sessions() == old(self).spec_sessions().insert(
                pubkey@,
                final(self).spec_sessions()[pubkey@],
            ),
    {
        self.session_key_pairs.create(pubkey)
    }

    /// The session of `pubkey`, if it has one.
    pub fn get_session_keypair(&self, pubkey: &PublicKey) -> (r: Option<(SecretKey, Uuid)>)
        ensures
            match r {
                Some((sk, id)) => self.spec_sessions().contains_key(pubkey@)
                    && self.spec_sessions()[pubkey@].signing_key == sk@
                    && self.spec_sessions()[pubkey@].session_id == id@,
                None => !self.spec_sessions().contains_key(pubkey@),
            },
    {
        self.session_key_pairs.get(pubkey)
    }
}

} // verus!
