//! The storage of keys, sessions, peers and the account

use vstd::prelude::*;
use vstd::string::StringExecFns;

use crate::e2e::{
    client::{session::E2ESession, Account, AccountView},
    keys::{EphemeralSecretKey, IdentityKeyPair, PublicIdentityKeys, SymetricKey, X25519Secret},
    peer::{Peer, PeerView},
};

verus! {

/// Error that can occur in a key storage backend (ex I/O errors), described in words
#[derive(Debug, Clone)]
pub struct KeyStorageError {
    pub description: String,
}

impl KeyStorageError {
    /// An error with the given description
    pub fn new(description: String) -> (r: Self)
        ensures
            r.description@ == description@,
    {
        KeyStorageError { description }
    }
}

/// The result of a storage operation
pub type Result<T> = core::result::Result<T, KeyStorageError>;

/// The error of a storage handle shared between threads whose lock was poisoned
#[derive(Debug, Clone, Copy)]
pub struct PoisonedE2EBackendError;

impl PoisonedE2EBackendError {
    /// The description of the error
    pub fn to_key_storage_error(&self) -> (r: KeyStorageError)
        ensures
            r.description@ == "storage backend mutex poisoned"@,
    {
        KeyStorageError::new(String::from_str("storage backend mutex poisoned"))
    }
}

/// What a storage holds
pub struct StorageModel {
    pub account: Option<AccountView>,
    pub peers: Map<u128, PeerView>,
    pub identity_keypair: Option<IdentityKeyPair>,
    pub midterm_key: Option<X25519Secret>,
    pub ephemeral_keys: Map<u128, X25519Secret>,
    /// Session keys, by user and key id
    pub session_keys: Map<(u128, u128), SymetricKey>,
    /// Sessions, by correspondant
    pub sessions: Map<u128, E2ESession>,
    /// The public identity keys of other users, by user
    pub user_public_keys: Map<u128, PublicIdentityKeys>,
}

/// The view of an optional account
pub open spec fn account_opt_view(a: Option<Account>) -> Option<AccountView> {
    match a {
        Some(a) => Some(a@),
        None => None,
    }
}

/// The view of an optional peer
pub open spec fn peer_opt_view(p: Option<Peer>) -> Option<PeerView> {
    match p {
        Some(p) => Some(p@),
        None => None,
    }
}

/// The ephemeral keys `m` once the keys of `keys` are saved in order
pub open spec fn insert_ephemeral_keys(m: Map<u128, X25519Secret>, keys: Seq<EphemeralSecretKey>) -> Map<
    u128,
    X25519Secret,
>
    decreases keys.len(),
{
    if keys.len() == 0 {
        m
    } else {
        insert_ephemeral_keys(m, keys.drop_last()).insert(keys.last().id, keys.last().secret)
    }
}

/// Whether the keys of `keys`, saved in order into `m`, each have an id not taken yet
pub open spec fn fresh_ephemeral_ids(m: Map<u128, X25519Secret>, keys: Seq<EphemeralSecretKey>) -> bool
    decreases keys.len(),
{
    if keys.len() == 0 {
        true
    } else {
        fresh_ephemeral_ids(m, keys.drop_last()) && !insert_ephemeral_keys(
            m,
            keys.drop_last(),
        ).contains_key(keys.last().id)
    }
}

/// The session keys `m` once those of `user` other than `keep_a` and `keep_b` are deleted
pub open spec fn cleanup_keys(
    m: Map<(u128, u128), SymetricKey>,
    user: u128,
    keep_a: u128,
    keep_b: u128,
) -> Map<(u128, u128), SymetricKey> {
    m.remove_keys(Set::new(|k: (u128, u128)| k.0 == user && k.1 != keep_a && k.1 != keep_b))
}

/// The session keys `m` once the two keys of `session` are added
pub open spec fn add_session_keys(m: Map<(u128, u128), SymetricKey>, session: E2ESession) -> Map<
    (u128, u128),
    SymetricKey,
> {
    m.insert((session.correspondant_id, session.sending_key_id), session.sending_key).insert(
        (session.correspondant_id, session.receiving_key_id),
        session.receiving_key,
    )
}

/// Whether two models agree on everything but the session keys and the sessions
pub open spec fn same_keys_and_peers(a: StorageModel, b: StorageModel) -> bool {
    &&& a.account == b.account
    &&& a.peers == b.peers
    &&& a.identity_keypair == b.identity_keypair
    &&& a.midterm_key == b.midterm_key
    &&& a.ephemeral_keys == b.ephemeral_keys
    &&& a.user_public_keys == b.user_public_keys
}

/// Saving keys one after the other makes each of them readable, when their ids are distinct
pub proof fn law_saved_ephemeral_keys_are_readable(
    m: Map<u128, X25519Secret>,
    keys: Seq<EphemeralSecretKey>,
    i: int,
)
    requires
        0 <= i < keys.len(),
        forall|a: int, b: int| 0 <= a < b < keys.len() ==> keys[a].id != keys[b].id,
    ensures
        insert_ephemeral_keys(m, keys).get(keys[i].id) == Some(keys[i].secret),
    decreases keys.len(),
{
    if i < keys.len() - 1 {
        law_saved_ephemeral_keys_are_readable(m, keys.drop_last(), i);
    }
}

/// Saving keys one after the other adds exactly their ids to the available ones
pub proof fn law_saved_ephemeral_keys_domain(m: Map<u128, X25519Secret>, keys: Seq<EphemeralSecretKey>)
    ensures
        insert_ephemeral_keys(m, keys).dom() == m.dom() + keys.map_values(
            |k: EphemeralSecretKey| k.id,
        ).to_set(),
    decreases keys.len(),
{
    let ids = keys.map_values(|k: EphemeralSecretKey| k.id);
    if keys.len() > 0 {
        law_saved_ephemeral_keys_domain(m, keys.drop_last());
        assert(ids =~= keys.drop_last().map_values(|k: EphemeralSecretKey| k.id).push(keys.last().id));
        keys.drop_last().map_values(|k: EphemeralSecretKey| k.id).lemma_push_to_set_commute(
            keys.last().id,
        );
        assert(insert_ephemeral_keys(m, keys).dom() =~= m.dom() + ids.to_set());
    } else {
        assert(ids.to_set() =~= Set::empty());
        assert(m.dom() + ids.to_set() =~= m.dom());
    }
}

/// After a deletion of many ephemeral keys none of them is readable, and every other key is
/// unchanged
pub proof fn law_deleted_ephemeral_keys(m: Map<u128, X25519Secret>, ids: Seq<u128>, id: u128)
    ensures
        ids.contains(id) ==> m.remove_keys(ids.to_set()).get(id) is None,
        !ids.contains(id) ==> m.remove_keys(ids.to_set()).get(id) == m.get(id),
{
}

/// Once the keys of a session are cleaned up, the two current keys of that session are kept,
/// its other keys are gone and the keys of every other correspondant are unchanged
pub proof fn law_cleanup_keeps_current_keys(
    m: Map<(u128, u128), SymetricKey>,
    user: u128,
    sending: u128,
    receiving: u128,
    other: u128,
    key_id: u128,
)
    ensures
        cleanup_keys(m, user, sending, receiving).get((user, sending)) == m.get((user, sending)),
        cleanup_keys(m, user, sending, receiving).get((user, receiving)) == m.get(
            (user, receiving),
        ),
        key_id != sending && key_id != receiving ==> cleanup_keys(m, user, sending, receiving).get(
            (user, key_id),
        ) is None,
        other != user ==> cleanup_keys(m, user, sending, receiving).get((other, key_id)) == m.get(
            (other, key_id),
        ),
{
}

/// A saved session can be loaded back, and its receiving key, as well as its sending key when
/// the two ids differ, can be read
pub proof fn law_saved_session_is_readable(before: StorageModel, session: E2ESession)
    ensures
        ({
            let after = StorageModel {
                session_keys: add_session_keys(before.session_keys, session),
                sessions: before.sessions.insert(session.correspondant_id, session),
                ..before
            };
            &&& after.sessions.get(session.correspondant_id) == Some(session)
            &&& after.session_keys.get((session.correspondant_id, session.receiving_key_id)) == Some(
                session.receiving_key,
            )
            &&& session.sending_key_id != session.receiving_key_id ==> after.session_keys.get(
                (session.correspondant_id, session.sending_key_id),
            ) == Some(session.sending_key)
        }),
{
}

/// Clearing a storage removes every key and keeps the account, the peers and the sessions
pub proof fn law_clear_removes_every_key(before: StorageModel, id: u128, user: u128)
    ensures
        ({
            let after = StorageModel {
                identity_keypair: None,
                midterm_key: None,
                ephemeral_keys: Map::empty(),
                session_keys: Map::empty(),
                ..before
            };
            &&& after.ephemeral_keys.get(id) is None
            &&& after.session_keys.get((user, id)) is None
            &&& after.account == before.account
            &&& after.peers == before.peers
            &&& after.sessions == before.sessions
        }),
{
}

/// A trait for anything that can store keys
///
/// Each operation that returns `Ok` has done exactly what its contract says to the
/// [`StorageModel`] of the storage; an operation that fails may have done anything.
pub trait E2EStorageBackend {
    /// What the storage holds
    spec fn model(&self) -> StorageModel;

    /// Whether operations of this storage never fail but where their contract says so:
    /// a storage held in memory, for instance, has no I/O to fail
    spec fn never_fails() -> bool;

    // Account

    /// Load the account
    fn load_account(&self) -> (r: Result<Option<Account>>)
        ensures
            Self::never_fails() ==> r is Ok,
            r matches Ok(a) ==> account_opt_view(a) == self.model().account,
    ;

    /// Update account information
    fn set_account(&mut self, account: &Account) -> (r: Result<()>)
        ensures
            Self::never_fails() ==> r is Ok,
            r is Ok ==> final(self).model() == (StorageModel {
                account: Some(account@),
                ..old(self).model()
            }),
    ;

    /// Update the account token; there must be an account
    fn set_account_token(&mut self, token: String) -> (r: Result<()>)
        ensures
            Self::never_fails() ==> (r is Ok <==> old(self).model().account is Some),
            r is Ok ==> (old(self).model().account matches Some(a) && final(self).model() == (
            StorageModel { account: Some(AccountView { token: token@, ..a }), ..old(self).model() })),
    ;

    // Peers

    /// Get information about a known peer
    fn peer(&self, id: u128) -> (r: Result<Option<Peer>>)
        ensures
            Self::never_fails() ==> r is Ok,
            r matches Ok(p) ==> peer_opt_view(p) == self.model().peers.get(id),
    ;

    /// Find a known peer by username
    fn find_peer_by_username(&self, username: &str) -> (r: Result<Option<Peer>>)
        ensures
            Self::never_fails() ==> r is Ok,
            r matches Ok(Some(p)) ==> p@.username == Some(username@) && exists|id: u128|
                #[trigger] self.model().peers.contains_key(id) && self.model().peers[id] == p@,
            r matches Ok(None) ==> forall|id: u128|
                #[trigger] self.model().peers.contains_key(id) ==> self.model().peers[id].username
                    != Some(username@),
    ;

    /// Save or update information about a peer
    fn save_peer(&mut self, peer: &Peer) -> (r: Result<()>)
        ensures
            Self::never_fails() ==> r is Ok,
            r is Ok ==> final(self).model() == (StorageModel {
                peers: old(self).model().peers.insert(peer.id, peer@),
                ..old(self).model()
            }),
    ;

    /// Delete a known peer
    fn delete_peer(&mut self, id: u128) -> (r: Result<()>)
        ensures
            Self::never_fails() ==> r is Ok,
            r is Ok ==> final(self).model() == (StorageModel {
                peers: old(self).model().peers.remove(id),
                ..old(self).model()
            }),
    ;

    // Identity and mid-term keys

    /// Get the identity keypair, which must be set
    fn identity_keypair(&self) -> (r: Result<IdentityKeyPair>)
        ensures
            Self::never_fails() ==> (r is Ok <==> self.model().identity_keypair is Some),
            r matches Ok(k) ==> self.model().identity_keypair == Some(k),
            self.model().identity_keypair is None ==> r is Err,
    ;

    /// Get the identity keypair if set
    fn identity_keypair_opt(&self) -> (r: Result<Option<IdentityKeyPair>>)
        ensures
            Self::never_fails() ==> r is Ok,
            r matches Ok(k) ==> self.model().identity_keypair == k,
    ;

    /// Set the identity keypair
    fn set_identity_keypair(&mut self, identity_keypair: IdentityKeyPair) -> (r: Result<()>)
        ensures
            Self::never_fails() ==> r is Ok,
            r is Ok ==> final(self).model() == (StorageModel {
                identity_keypair: Some(identity_keypair),
                ..old(self).model()
            }),
    ;

    /// Get the midterm key, which must be set
    fn midterm_key(&self) -> (r: Result<X25519Secret>)
        ensures
            Self::never_fails() ==> (r is Ok <==> self.model().midterm_key is Some),
            r matches Ok(k) ==> self.model().midterm_key == Some(k),
            self.model().midterm_key is None ==> r is Err,
    ;

    /// Get the midterm key if set
    fn midterm_key_opt(&self) -> (r: Result<Option<X25519Secret>>)
        ensures
            Self::never_fails() ==> r is Ok,
            r matches Ok(k) ==> self.model().midterm_key == k,
    ;

    /// Set the midterm key
    fn set_midterm_key(&mut self, midterm_key: X25519Secret) -> (r: Result<()>)
        ensures
            Self::never_fails() ==> r is Ok,
            r is Ok ==> final(self).model() == (StorageModel {
                midterm_key: Some(midterm_key),
                ..old(self).model()
            }),
    ;

    // Ephemeral keys

    /// Retrieve an ephemeral key by its id
    fn ephemeral_key(&self, id: u128) -> (r: Result<Option<X25519Secret>>)
        ensures
            Self::never_fails() ==> r is Ok,
            r matches Ok(k) ==> k == self.model().ephemeral_keys.get(id),
    ;

    /// Retrieve and delete an ephemeral key by its id
    fn pop_ephemeral_key(&mut self, id: u128) -> (r: Result<Option<X25519Secret>>)
        ensures
            Self::never_fails() ==> r is Ok,
            r matches Ok(k) ==> k == old(self).model().ephemeral_keys.get(id) && final(self).model()
                == (StorageModel {
                ephemeral_keys: old(self).model().ephemeral_keys.remove(id),
                ..old(self).model()
            }),
    ;

    /// Get a list of all available ephemeral keys
    fn available_ephemeral_keys(&self) -> (r: Result<Vec<u128>>)
        ensures
            Self::never_fails() ==> r is Ok,
            r matches Ok(ids) ==> ids@.to_set() == self.model().ephemeral_keys.dom()
                && ids@.no_duplicates(),
    ;

    /// Save a new ephemeral key
    fn save_ephemeral_key(&mut self, keypair: EphemeralSecretKey) -> (r: Result<()>)
        ensures
            Self::never_fails() ==> (r is Ok <==> !old(self).model().ephemeral_keys.contains_key(keypair.id)),
            r is Ok ==> final(self).model() == (StorageModel {
                ephemeral_keys: old(self).model().ephemeral_keys.insert(keypair.id, keypair.secret),
                ..old(self).model()
            }),
    ;

    /// Save many new ephemeral keys, in order
    fn save_many_ephemeral_keys(&mut self, keypairs: Vec<EphemeralSecretKey>) -> (r: Result<()>)
        ensures
            Self::never_fails() ==> (r is Ok <==> fresh_ephemeral_ids(old(self).model().ephemeral_keys, keypairs@)),
            r is Ok ==> final(self).model() == (StorageModel {
                ephemeral_keys: insert_ephemeral_keys(old(self).model().ephemeral_keys, keypairs@),
                ..old(self).model()
            }),
    ;

    /// Delete an ephemeral key
    fn delete_ephemeral_key(&mut self, id: u128) -> (r: Result<()>)
        ensures
            Self::never_fails() ==> r is Ok,
            r is Ok ==> final(self).model() == (StorageModel {
                ephemeral_keys: old(self).model().ephemeral_keys.remove(id),
                ..old(self).model()
            }),
    ;

    /// Delete many ephemeral keys
    fn delete_many_ephemeral_key(&mut self, ids: Vec<u128>) -> (r: Result<()>)
        ensures
            Self::never_fails() ==> r is Ok,
            r is Ok ==> final(self).model() == (StorageModel {
                ephemeral_keys: old(self).model().ephemeral_keys.remove_keys(ids@.to_set()),
                ..old(self).model()
            }),
    ;

    // Clear

    /// Delete the identity keypair
    fn clear_identity_keypair(&mut self) -> (r: Result<()>)
        ensures
            Self::never_fails() ==> r is Ok,
            r is Ok ==> final(self).model() == (StorageModel {
                identity_keypair: None,
                ..old(self).model()
            }),
    ;

    /// Delete the midterm key
    fn clear_midterm_key(&mut self) -> (r: Result<()>)
        ensures
            Self::never_fails() ==> r is Ok,
            r is Ok ==> final(self).model() == (StorageModel { midterm_key: None, ..old(self).model() }),
    ;

    /// Delete all ephemeral keys
    fn clear_ephemeral_keys(&mut self) -> (r: Result<()>)
        ensures
            Self::never_fails() ==> r is Ok,
            r is Ok ==> final(self).model() == (StorageModel {
                ephemeral_keys: Map::empty(),
                ..old(self).model()
            }),
    ;

    /// Delete all session keys
    fn clear_session_keys(&mut self) -> (r: Result<()>)
        ensures
            Self::never_fails() ==> r is Ok,
            r is Ok ==> final(self).model() == (StorageModel {
                session_keys: Map::empty(),
                ..old(self).model()
            }),
    ;

    /// Delete all stored keys
    fn clear(&mut self) -> (r: Result<()>)
        ensures
            Self::never_fails() ==> r is Ok,
            r is Ok ==> final(self).model() == (StorageModel {
                identity_keypair: None,
                midterm_key: None,
                ephemeral_keys: Map::empty(),
                session_keys: Map::empty(),
                ..old(self).model()
            }),
    {
        self.clear_identity_keypair()?;
        self.clear_midterm_key()?;
        self.clear_ephemeral_keys()?;
        self.clear_session_keys()?;
        Ok(())
    }

    // Public keys of other users

    /// Get the public identity keys of a user
    fn user_public_keys(&self, user_id: u128) -> (r: Result<Option<PublicIdentityKeys>>)
        ensures
            Self::never_fails() ==> r is Ok,
            r matches Ok(k) ==> k == self.model().user_public_keys.get(user_id),
    ;

    /// Set the public identity keys of a user
    fn set_user_public_keys(&mut self, user_id: u128, keys: PublicIdentityKeys) -> (r: Result<()>)
        ensures
            Self::never_fails() ==> r is Ok,
            r is Ok ==> final(self).model() == (StorageModel {
                user_public_keys: old(self).model().user_public_keys.insert(user_id, keys),
                ..old(self).model()
            }),
    ;

    /// Delete the public identity keys of a user
    fn delete_user_public_keys(&mut self, user_id: u128) -> (r: Result<()>)
        ensures
            Self::never_fails() ==> r is Ok,
            r is Ok ==> final(self).model() == (StorageModel {
                user_public_keys: old(self).model().user_public_keys.remove(user_id),
                ..old(self).model()
            }),
    ;

    /// Delete the public identity keys of all users
    fn clear_user_public_keys(&mut self) -> (r: Result<()>)
        ensures
            Self::never_fails() ==> r is Ok,
            r is Ok ==> final(self).model() == (StorageModel {
                user_public_keys: Map::empty(),
                ..old(self).model()
            }),
    ;

    // Session keys

    /// Get a session key of a correspondant
    fn session_key(&self, user: u128, key_id: u128) -> (r: Result<Option<SymetricKey>>)
        ensures
            Self::never_fails() ==> r is Ok,
            r matches Ok(k) ==> k == self.model().session_keys.get((user, key_id)),
    ;

    /// Add a session key
    fn add_session_key(&mut self, user: u128, key_id: u128, key: SymetricKey) -> (r: Result<()>)
        ensures
            Self::never_fails() ==> r is Ok,
            r is Ok ==> final(self).model() == (StorageModel {
                session_keys: old(self).model().session_keys.insert((user, key_id), key),
                ..old(self).model()
            }),
    ;

    /// Delete a session key
    fn delete_session_key(&mut self, user: u128, key_id: u128) -> (r: Result<()>)
        ensures
            Self::never_fails() ==> r is Ok,
            r is Ok ==> final(self).model() == (StorageModel {
                session_keys: old(self).model().session_keys.remove((user, key_id)),
                ..old(self).model()
            }),
    ;

    /// Cleanup keys in a session, leaving only the current sending and receiving keys
    fn cleanup_session_keys(
        &mut self,
        user: u128,
        current_sending_key: u128,
        current_receiving_key: u128,
    ) -> (r: Result<()>)
        ensures
            Self::never_fails() ==> r is Ok,
            r is Ok ==> final(self).model() == (StorageModel {
                session_keys: cleanup_keys(
                    old(self).model().session_keys,
                    user,
                    current_sending_key,
                    current_receiving_key,
                ),
                ..old(self).model()
            }),
    ;

    // Session management

    /// Load the session with the given user
    ///
    /// Returns [`None`] if no session is currently open with the other user
    fn load_session(&mut self, user_id: u128) -> (r: Result<Option<E2ESession>>)
        ensures
            Self::never_fails() ==> r is Ok,
            r matches Ok(s) ==> s == old(self).model().sessions.get(user_id) && final(self).model()
                == old(self).model(),
    ;

    /// Load all known sessions
    fn load_all_sessions(&mut self) -> (r: Result<Vec<E2ESession>>)
        ensures
            Self::never_fails() ==> r is Ok,
            r matches Ok(v) ==> v@.to_set() == old(self).model().sessions.values() && v@.len()
                == old(self).model().sessions.dom().len() && final(self).model() == old(self).model(),
    ;

    /// Save a session, with its two current keys
    fn save_session(&mut self, session: &E2ESession) -> (r: Result<()>)
        ensures
            Self::never_fails() ==> r is Ok,
            r is Ok ==> final(self).model() == (StorageModel {
                session_keys: add_session_keys(old(self).model().session_keys, *session),
                sessions: old(self).model().sessions.insert(session.correspondant_id, *session),
                ..old(self).model()
            }),
    ;

    /// Delete a session from the storage; the session keys of other users are kept
    fn delete_session(&mut self, user_id: u128) -> (r: Result<()>)
        ensures
            Self::never_fails() ==> r is Ok,
            r is Ok ==> final(self).model().sessions == old(self).model().sessions.remove(user_id)
                && same_keys_and_peers(final(self).model(), old(self).model()) && forall|k: (
                u128,
                u128,
            )|
                k.0 != user_id ==> #[trigger] final(self).model().session_keys.get(k) == old(self).model().session_keys.get(k),
    ;
}

} // verus!
