//! Simple in-memory [`E2EStorageBackend`]
//!
//! # WARNING
//! This storage is NOT persistent !
//!
//! It is intended to be used in tests or other environments where losing
//! the keys is not a problem.

use std::collections::HashMap;

use vstd::prelude::*;
use vstd::string::StringExecFns;

use crate::primitives::os_random_32;
use crate::e2e::{
    client::{session::E2ESession, Account},
    keys::{
        storage_backend::{
            account_opt_view, cleanup_keys, fresh_ephemeral_ids, insert_ephemeral_keys, E2EStorageBackend,
            KeyStorageError, Result, StorageModel,
        },
        id_of_random, EphemeralSecretKey, IdentityKeyPair, PublicIdentityKeys, SymetricKey,
        X25519Secret,
    },
    peer::Peer,
};

verus! {

broadcast use vstd::std_specs::hash::group_hash_axioms;

/// A simple, non-persistent, in-memory [`E2EStorageBackend`]
#[derive(Clone)]
pub struct MemoryKeyStorage {
    account: Option<Account>,
    peers: HashMap<u128, Peer>,
    identity_keypair: Option<IdentityKeyPair>,
    midterm_key: Option<X25519Secret>,
    ephemeral_keys: HashMap<u128, X25519Secret>,
    session_keys: HashMap<u128, HashMap<u128, SymetricKey>>,
    sessions: HashMap<u128, E2ESession>,
    user_public_keys: HashMap<u128, PublicIdentityKeys>,
}

/// The errors of a [`MemoryKeyStorage`]
#[derive(Debug, Clone, Copy, PartialEq, Eq, Structural)]
pub enum Error {
    /// No key available
    NoKey,
    /// Duplicate id provided when adding a new ephemeral key
    DuplicateId,
}

impl Error {
    /// The words that describe this error
    pub open spec fn spec_description(self) -> Seq<char> {
        match self {
            Error::NoKey => "No key available"@,
            Error::DuplicateId => "Duplicate Id"@,
        }
    }

    /// The storage error describing this error
    pub fn to_key_storage_error(self) -> (r: KeyStorageError)
        ensures
            r.description@ == self.spec_description(),
    {
        match self {
            Error::NoKey => KeyStorageError::new(String::from_str("No key available")),
            Error::DuplicateId => KeyStorageError::new(String::from_str("Duplicate Id")),
        }
    }
}

/// The session keys held by nested maps, by user then key id
pub open spec fn flatten_session_keys(m: Map<u128, HashMap<u128, SymetricKey>>) -> Map<
    (u128, u128),
    SymetricKey,
> {
    Map::new(
        |k: (u128, u128)| m.contains_key(k.0) && m[k.0]@.contains_key(k.1),
        |k: (u128, u128)| m[k.0]@[k.1],
    )
}

impl MemoryKeyStorage {
    /// An empty storage
    pub fn new() -> (r: Self)
        ensures
            r.model() == (StorageModel {
                account: None,
                peers: Map::empty(),
                identity_keypair: None,
                midterm_key: None,
                ephemeral_keys: Map::empty(),
                session_keys: Map::empty(),
                sessions: Map::empty(),
                user_public_keys: Map::empty(),
            }),
    {
        let r = Self {
            account: None,
            peers: HashMap::new(),
            identity_keypair: None,
            midterm_key: None,
            ephemeral_keys: HashMap::new(),
            session_keys: HashMap::new(),
            sessions: HashMap::new(),
            user_public_keys: HashMap::new(),
        };
        assert(r.model().peers =~= Map::empty());
        assert(r.model().session_keys =~= Map::empty());
        assert(r.model().user_public_keys =~= Map::empty());
        r
    }

    /// Save an ephemeral secret under a new random id, drawn from the operating system's
    /// generator, and return the id
    ///
    /// Fails when the operating system gives no random bytes, or when the id is taken.
    pub fn add_ephemeral_key(&mut self, key: X25519Secret) -> (r: Result<u128>)
        ensures
            r matches Ok(id) ==> final(self).model() == (StorageModel {
                ephemeral_keys: old(self).model().ephemeral_keys.insert(id, key),
                ..old(self).model()
            }),
            r is Err ==> final(self).model() == old(self).model(),
    {
        let bytes = match os_random_32() {
            Some(b) => b,
            None => {
                return Err(KeyStorageError::new(String::from_str("No random bytes available")));
            },
        };
        let id = id_of_random(bytes);
        self.save_ephemeral_key(EphemeralSecretKey { id, secret: key })?;
        Ok(id)
    }

    /// Save ephemeral secrets, each under a new random id, and return the ids in order
    pub fn add_many_ephemeral_key(&mut self, keys: Vec<X25519Secret>) -> (r: Result<Vec<u128>>)
        ensures
            r matches Ok(ids) ==> ids@.len() == keys@.len() && final(self).model() == (StorageModel {
                ephemeral_keys: insert_ephemeral_keys(
                    old(self).model().ephemeral_keys,
                    keys_with_ids(ids@, keys@),
                ),
                ..old(self).model()
            }),
    {
        let mut ids: Vec<u128> = Vec::new();
        let mut i: usize = 0;
        while i < keys.len()
            invariant
                0 <= i <= keys@.len(),
                ids@.len() == i,
                self.model() == (StorageModel {
                    ephemeral_keys: insert_ephemeral_keys(
                        old(self).model().ephemeral_keys,
                        keys_with_ids(ids@, keys@.take(i as int)),
                    ),
                    ..old(self).model()
                }),
            decreases keys@.len() - i,
        {
            let id = self.add_ephemeral_key(keys[i])?;
            let ghost before = ids@;
            ids.push(id);
            proof {
                let k = keys_with_ids(ids@, keys@.take(i + 1));
                assert(k.drop_last() =~= keys_with_ids(before, keys@.take(i as int)));
                assert(k.last() == EphemeralSecretKey { id, secret: keys@[i as int] });
            }
            i = i + 1;
        }
        assert(keys@.take(keys@.len() as int) =~= keys@);
        Ok(ids)
    }
}

/// Keys saved in order have fresh ids only if those of each prefix do
proof fn lemma_fresh_prefix(m: Map<u128, X25519Secret>, keys: Seq<EphemeralSecretKey>, j: int)
    requires
        0 <= j <= keys.len(),
        fresh_ephemeral_ids(m, keys),
    ensures
        fresh_ephemeral_ids(m, keys.take(j)),
    decreases keys.len(),
{
    if j < keys.len() {
        assert(keys.drop_last().take(j) =~= keys.take(j));
        lemma_fresh_prefix(m, keys.drop_last(), j);
    } else {
        assert(keys.take(j) =~= keys);
    }
}

/// Ephemeral keys made of ids and secrets, pairwise
pub open spec fn keys_with_ids(ids: Seq<u128>, secrets: Seq<X25519Secret>) -> Seq<EphemeralSecretKey> {
    Seq::new(secrets.len(), |i: int| EphemeralSecretKey { id: ids[i], secret: secrets[i] })
}

impl E2EStorageBackend for MemoryKeyStorage {
    closed spec fn model(&self) -> StorageModel {
        StorageModel {
            account: account_opt_view(self.account),
            peers: self.peers@.map_values(|p: Peer| p@),
            identity_keypair: self.identity_keypair,
            midterm_key: self.midterm_key,
            ephemeral_keys: self.ephemeral_keys@,
            session_keys: flatten_session_keys(self.session_keys@),
            sessions: self.sessions@,
            user_public_keys: self.user_public_keys@,
        }
    }

    open spec fn never_fails() -> bool {
        true
    }

    fn load_account(&self) -> (r: Result<Option<Account>>) {
        match &self.account {
            Some(a) => Ok(Some(a.duplicate())),
            None => Ok(None),
        }
    }

    fn set_account(&mut self, account: &Account) -> (r: Result<()>) {
        self.account = Some(account.duplicate());
        Ok(())
    }

    fn set_account_token(&mut self, token: String) -> (r: Result<()>) {
        match self.account.take() {
            Some(mut account) => {
                account.token = token;
                self.account = Some(account);
                Ok(())
            },
            None => Err(
                KeyStorageError::new(String::from_str("cannot set account token: no account in storage")),
            ),
        }
    }

    fn peer(&self, id: u128) -> (r: Result<Option<Peer>>) {
        match self.peers.get(&id) {
            Some(p) => Ok(Some(p.duplicate())),
            None => Ok(None),
        }
    }

    fn find_peer_by_username(&self, username: &str) -> (r: Result<Option<Peer>>) {
        let wanted = String::from_str(username);
        for id in it: self.peers.keys()
            invariant
                wanted@ == username@,
                it.seq().unref().to_set() == self.peers@.dom(),
                forall|j: int|
                    0 <= j < it.index() ==> self.peers@[*#[trigger] it.seq()[j]]@.username
                        != Some(username@),
        {
            assert(it.seq().unref().to_set().contains(*id)) by {
                assert(it.seq().unref()[it.index() as int] == *id);
            }
            match self.peers.get(id) {
                Some(p) => {
                    match &p.username {
                        Some(name) => {
                            if *name == wanted {
                                let found = p.duplicate();
                                assert(self.model().peers.contains_key(*id));
                                return Ok(Some(found));
                            }
                        },
                        None => {},
                    }
                },
                None => {},
            }
        }
        proof {
            assert forall|id: u128| #[trigger] self.model().peers.contains_key(id) implies self.model().peers[id].username != Some(username@) by {
                assert(self.peers@.dom().contains(id));
            }
        }
        Ok(None)
    }

    fn save_peer(&mut self, peer: &Peer) -> (r: Result<()>) {
        self.peers.insert(peer.id, peer.duplicate());
        assert(self.model().peers =~= old(self).model().peers.insert(peer.id, peer@));
        Ok(())
    }

    fn delete_peer(&mut self, id: u128) -> (r: Result<()>) {
        self.peers.remove(&id);
        assert(self.model().peers =~= old(self).model().peers.remove(id));
        Ok(())
    }

    fn identity_keypair(&self) -> (r: Result<IdentityKeyPair>)
        ensures
            r matches Err(e) ==> e.description@ == Error::NoKey.spec_description(),
    {
        match self.identity_keypair {
            Some(k) => Ok(k),
            None => Err(Error::NoKey.to_key_storage_error()),
        }
    }

    fn identity_keypair_opt(&self) -> (r: Result<Option<IdentityKeyPair>>) {
        Ok(self.identity_keypair)
    }

    fn set_identity_keypair(&mut self, identity_keypair: IdentityKeyPair) -> (r: Result<()>) {
        self.identity_keypair = Some(identity_keypair);
        Ok(())
    }

    fn midterm_key(&self) -> (r: Result<X25519Secret>)
        ensures
            r matches Err(e) ==> e.description@ == Error::NoKey.spec_description(),
    {
        match self.midterm_key {
            Some(k) => Ok(k),
            None => Err(Error::NoKey.to_key_storage_error()),
        }
    }

    fn midterm_key_opt(&self) -> (r: Result<Option<X25519Secret>>) {
        Ok(self.midterm_key)
    }

    fn set_midterm_key(&mut self, midterm_key: X25519Secret) -> (r: Result<()>) {
        self.midterm_key = Some(midterm_key);
        Ok(())
    }

    fn ephemeral_key(&self, id: u128) -> (r: Result<Option<X25519Secret>>) {
        match self.ephemeral_keys.get(&id) {
            Some(k) => Ok(Some(*k)),
            None => Ok(None),
        }
    }

    fn pop_ephemeral_key(&mut self, id: u128) -> (r: Result<Option<X25519Secret>>) {
        Ok(self.ephemeral_keys.remove(&id))
    }

    fn available_ephemeral_keys(&self) -> (r: Result<Vec<u128>>) {
        let mut ids: Vec<u128> = Vec::new();
        for id in it: self.ephemeral_keys.keys()
            invariant
                it.seq().unref().to_set() == self.ephemeral_keys@.dom(),
                it.seq().unref().no_duplicates(),
                ids@ == it.seq().unref().take(it.index()),
                it.index() == it.seq().len() ==> ids@.to_set() == self.ephemeral_keys@.dom()
                    && ids@.no_duplicates(),
        {
            ids.push(*id);
            assert(ids@ =~= it.seq().unref().take(it.index() + 1));
            assert(it.seq().unref().take(it.seq().len() as int) =~= it.seq().unref());
        }
        Ok(ids)
    }

    /// Save a key; fails with [`Error::DuplicateId`] when a key with the same id is stored
    fn save_ephemeral_key(&mut self, keypair: EphemeralSecretKey) -> (r: Result<()>)
        ensures
            r matches Err(e) ==> e.description@ == Error::DuplicateId.spec_description()
                && final(self).model() == old(self).model(),
    {
        let id = keypair.id;
        if self.ephemeral_keys.contains_key(&id) {
            return Err(Error::DuplicateId.to_key_storage_error());
        }
        self.ephemeral_keys.insert(id, keypair.secret);
        Ok(())
    }

    fn save_many_ephemeral_keys(&mut self, keypairs: Vec<EphemeralSecretKey>) -> (r: Result<()>)
        ensures
            r matches Err(e) ==> e.description@ == Error::DuplicateId.spec_description(),
    {
        let mut i: usize = 0;
        while i < keypairs.len()
            invariant
                0 <= i <= keypairs@.len(),
                fresh_ephemeral_ids(old(self).model().ephemeral_keys, keypairs@.take(i as int)),
                self.model() == (StorageModel {
                    ephemeral_keys: insert_ephemeral_keys(
                        old(self).model().ephemeral_keys,
                        keypairs@.take(i as int),
                    ),
                    ..old(self).model()
                }),
            decreases keypairs@.len() - i,
        {
            match self.save_ephemeral_key(keypairs[i]) {
                Ok(()) => {},
                Err(e) => {
                    proof {
                        assert(keypairs@.take(i + 1).drop_last() =~= keypairs@.take(i as int));
                        if fresh_ephemeral_ids(old(self).model().ephemeral_keys, keypairs@) {
                            lemma_fresh_prefix(
                                old(self).model().ephemeral_keys,
                                keypairs@,
                                i + 1,
                            );
                        }
                    }
                    return Err(e);
                },
            }
            i = i + 1;
            assert(keypairs@.take(i as int).drop_last() =~= keypairs@.take(i - 1));
        }
        assert(keypairs@.take(keypairs@.len() as int) =~= keypairs@);
        Ok(())
    }

    fn delete_ephemeral_key(&mut self, id: u128) -> (r: Result<()>) {
        self.ephemeral_keys.remove(&id);
        Ok(())
    }

    fn delete_many_ephemeral_key(&mut self, ids: Vec<u128>) -> (r: Result<()>) {
        let mut i: usize = 0;
        assert(ids@.take(0).to_set() =~= Set::empty());
        assert(self.ephemeral_keys@ =~= old(self).model().ephemeral_keys.remove_keys(Set::empty()));
        while i < ids.len()
            invariant
                0 <= i <= ids@.len(),
                self.model() == (StorageModel {
                    ephemeral_keys: old(self).model().ephemeral_keys.remove_keys(
                        ids@.take(i as int).to_set(),
                    ),
                    ..old(self).model()
                }),
            decreases ids@.len() - i,
        {
            self.ephemeral_keys.remove(&ids[i]);
            i = i + 1;
            assert(ids@.take(i as int).to_set() =~= ids@.take(i - 1).to_set().insert(ids@[i - 1]))
                by {
                assert(ids@.take(i as int) =~= ids@.take(i - 1).push(ids@[i - 1]));
                ids@.take(i - 1).lemma_push_to_set_commute(ids@[i - 1]);
            }
            assert(self.ephemeral_keys@ =~= old(self).model().ephemeral_keys.remove_keys(
                ids@.take(i as int).to_set(),
            ));
        }
        assert(ids@.take(ids@.len() as int) =~= ids@);
        Ok(())
    }

    fn clear_identity_keypair(&mut self) -> (r: Result<()>) {
        self.identity_keypair = None;
        Ok(())
    }

    fn clear_midterm_key(&mut self) -> (r: Result<()>) {
        self.midterm_key = None;
        Ok(())
    }

    fn clear_ephemeral_keys(&mut self) -> (r: Result<()>) {
        self.ephemeral_keys.clear();
        Ok(())
    }

    fn clear_session_keys(&mut self) -> (r: Result<()>) {
        self.session_keys.clear();
        assert(self.model().session_keys =~= Map::empty());
        Ok(())
    }

    fn user_public_keys(&self, user_id: u128) -> (r: Result<Option<PublicIdentityKeys>>) {
        match self.user_public_keys.get(&user_id) {
            Some(k) => Ok(Some(*k)),
            None => Ok(None),
        }
    }

    fn set_user_public_keys(&mut self, user_id: u128, keys: PublicIdentityKeys) -> (r: Result<()>) {
        self.user_public_keys.insert(user_id, keys);
        Ok(())
    }

    fn delete_user_public_keys(&mut self, user_id: u128) -> (r: Result<()>) {
        self.user_public_keys.remove(&user_id);
        Ok(())
    }

    fn clear_user_public_keys(&mut self) -> (r: Result<()>) {
        self.user_public_keys.clear();
        Ok(())
    }

    fn session_key(&self, user: u128, key_id: u128) -> (r: Result<Option<SymetricKey>>) {
        match self.session_keys.get(&user) {
            Some(keys) => match keys.get(&key_id) {
                Some(k) => Ok(Some(*k)),
                None => Ok(None),
            },
            None => Ok(None),
        }
    }

    fn add_session_key(&mut self, user: u128, key_id: u128, key: SymetricKey) -> (r: Result<()>) {
        match self.session_keys.remove(&user) {
            Some(mut keys) => {
                keys.insert(key_id, key);
                self.session_keys.insert(user, keys);
            },
            None => {
                let mut keys = HashMap::new();
                keys.insert(key_id, key);
                self.session_keys.insert(user, keys);
            },
        }
        assert(self.model().session_keys =~= old(self).model().session_keys.insert(
            (user, key_id),
            key,
        ));
        Ok(())
    }

    fn delete_session_key(&mut self, user: u128, key_id: u128) -> (r: Result<()>) {
        match self.session_keys.remove(&user) {
            Some(mut keys) => {
                keys.remove(&key_id);
                self.session_keys.insert(user, keys);
            },
            None => {},
        }
        assert(self.model().session_keys =~= old(self).model().session_keys.remove(
            (user, key_id),
        ));
        Ok(())
    }

    fn cleanup_session_keys(
        &mut self,
        user: u128,
        current_sending_key: u128,
        current_receiving_key: u128,
    ) -> (r: Result<()>) {
        match self.session_keys.remove(&user) {
            Some(mut keys) => {
                // Get the current keys to insert them back
                let snd_key = keys.remove(&current_sending_key);
                let rcv_key = keys.remove(&current_receiving_key);
                keys.clear();
                // Insert back the current keys
                if let Some(key) = snd_key {
                    keys.insert(current_sending_key, key);
                }
                if let Some(key) = rcv_key {
                    keys.insert(current_receiving_key, key);
                }
                self.session_keys.insert(user, keys);
            },
            None => {},
        }
        assert(self.model().session_keys =~= cleanup_keys(
            old(self).model().session_keys,
            user,
            current_sending_key,
            current_receiving_key,
        ));
        Ok(())
    }

    fn load_session(&mut self, user_id: u128) -> (r: Result<Option<E2ESession>>) {
        match self.sessions.get(&user_id) {
            Some(s) => Ok(Some(*s)),
            None => Ok(None),
        }
    }

    fn load_all_sessions(&mut self) -> (r: Result<Vec<E2ESession>>) {
        let mut all: Vec<E2ESession> = Vec::new();
        for s in it: self.sessions.values()
            invariant
                it.seq().unref().to_set() == self.sessions@.values(),
                it.seq().len() == self.sessions@.dom().len(),
                all@ == it.seq().unref().take(it.index()),
                it.index() == it.seq().len() ==> all@.to_set() == self.sessions@.values()
                    && all@.len() == self.sessions@.dom().len(),
        {
            all.push(*s);
            assert(all@ =~= it.seq().unref().take(it.index() + 1));
            assert(it.seq().unref().take(it.seq().len() as int) =~= it.seq().unref());
        }
        Ok(all)
    }

    fn save_session(&mut self, session: &E2ESession) -> (r: Result<()>) {
        self.add_session_key(session.correspondant_id, session.sending_key_id, session.sending_key)?;
        self.add_session_key(
            session.correspondant_id,
            session.receiving_key_id,
            session.receiving_key,
        )?;
        self.sessions.insert(session.correspondant_id, *session);
        Ok(())
    }

    fn delete_session(&mut self, user_id: u128) -> (r: Result<()>) {
        self.sessions.remove(&user_id);
        Ok(())
    }
}

} // verus!
