//! The client of the end-to-end protocol: what it decides between the messages it exchanges
//! with the server
//!
//! The exchanges themselves go through a message stream, outside the library; each step
//! here takes the server's response and says what follows from it.

use std::collections::HashMap;

use vstd::prelude::*;
use vstd::utf8::encode_utf8;

use crate::{
    bytes::{bytes_to_vec, extend_bytes},
    e2e::{
        client::{
            error::{spec_error_of_code, Error, Result},
            session::E2ESession,
            state::E2EClientState,
            Account,
        },
        keys::{
            storage_backend::{fresh_ephemeral_ids, insert_ephemeral_keys, E2EStorageBackend, StorageModel},
            EphemeralSecretKey, IdentityKeyPair, X25519Secret,
        },
        message::{E2EMessage, EphemeralKey, ErrorCode, PreKeyBundle, SignedPreKey},
    },
    primitives::{
        ed25519_signature, rng_bytes_32, sha512, sha512_digest, std_rng_from_os, x25519_public,
        x25519_public_key,
    },
};

verus! {

broadcast use vstd::std_specs::hash::group_hash_axioms;

/// Number of prekeys to store on the server
pub const PREKEY_AMOUNT: usize = 100;

/// A client for the E2E protocol: its state, which the exchanges with the server update
pub struct E2EClient<S: E2EStorageBackend> {
    pub state: E2EClientState<S>,
}

/// The sessions of a list, by correspondant; a later session replaces an earlier one
pub open spec fn sessions_by_correspondant(sessions: Seq<E2ESession>) -> Map<u128, E2ESession>
    decreases sessions.len(),
{
    if sessions.len() == 0 {
        Map::empty()
    } else {
        sessions_by_correspondant(sessions.drop_last()).insert(
            sessions.last().correspondant_id,
            sessions.last(),
        )
    }
}

/// The sessions of a list, by correspondant
pub fn index_sessions(sessions: Vec<E2ESession>) -> (r: HashMap<u128, E2ESession>)
    ensures
        r@ == sessions_by_correspondant(sessions@),
{
    let mut r: HashMap<u128, E2ESession> = HashMap::new();
    let mut i: usize = 0;
    while i < sessions.len()
        invariant
            i <= sessions@.len(),
            r@ == sessions_by_correspondant(sessions@.take(i as int)),
        decreases sessions@.len() - i,
    {
        let s = sessions[i];
        r.insert(s.correspondant_id, s);
        i = i + 1;
        assert(sessions@.take(i as int).drop_last() =~= sessions@.take(i - 1));
    }
    assert(sessions@.take(sessions@.len() as int) =~= sessions@);
    r
}

/// The response to a request, with an error reported by the server turned into
/// [`Error::ProtocolError`]
pub open spec fn spec_check_response(resp: E2EMessage) -> Result<E2EMessage> {
    match resp {
        E2EMessage::Error { code } => Err(Error::ProtocolError(code)),
        m => Ok(m),
    }
}

/// The response to a request, with an error reported by the server turned into
/// [`Error::ProtocolError`]
pub fn check_response(resp: E2EMessage) -> (r: Result<E2EMessage>)
    ensures
        r == spec_check_response(resp),
{
    match resp {
        E2EMessage::Error { code } => Err(Error::ProtocolError(code)),
        m => Ok(m),
    }
}

/// The response to a request made through the asynchronous handle, with an error reported
/// by the server turned into the client error it stands for
pub fn check_handle_response(resp: E2EMessage) -> (r: Result<E2EMessage>)
    ensures
        resp matches E2EMessage::Error { code } ==> r == Err::<E2EMessage, Error>(
            spec_error_of_code(code),
        ),
        !(resp is Error) ==> r == Ok::<E2EMessage, Error>(resp),
{
    match resp {
        E2EMessage::Error { code } => Err(Error::from_code(code)),
        m => Ok(m),
    }
}

/// Whether the server refused a request for want of a valid token, so that the client must
/// authenticate again and retry the request once
pub fn needs_reauthentication(resp: &E2EMessage) -> (r: bool)
    ensures
        r == (resp matches E2EMessage::Error { code } && code == ErrorCode::InvalidAuthentication),
{
    match resp {
        E2EMessage::Error { code: ErrorCode::InvalidAuthentication } => true,
        _ => false,
    }
}

/// Whether the response acknowledges the request
pub fn expect_ok(resp: E2EMessage) -> (r: Result<()>)
    ensures
        resp is Okay ==> r is Ok,
        !(resp is Okay) ==> (r matches Err(Error::UnexpectedE2EMessage(m)) && m == resp),
{
    match resp {
        E2EMessage::Okay => Ok(()),
        m => Err(Error::UnexpectedE2EMessage(m)),
    }
}

/// The account that the server created, from its response to an account creation
pub fn account_from_response(username: String, resp: E2EMessage) -> (r: Result<Account>)
    ensures
        resp matches E2EMessage::AuthToken { id, token } ==> (r matches Ok(a) && a@.username
            == username@ && a@.id == id && a@.token == token@),
        resp matches E2EMessage::Error { code } ==> r == Err::<Account, Error>(
            spec_error_of_code(code),
        ),
        !(resp is AuthToken) && !(resp is Error) ==> (r matches Err(
            Error::UnexpectedE2EMessage(m),
        ) && m == resp),
{
    match resp {
        E2EMessage::AuthToken { id, token } => Ok(Account { username, id, token }),
        E2EMessage::Error { code } => Err(Error::from_code(code)),
        m => Err(Error::UnexpectedE2EMessage(m)),
    }
}

/// The prekey bundle of the server's response to a bundle request
pub fn bundle_from_response(resp: E2EMessage) -> (r: Result<PreKeyBundle>)
    ensures
        resp matches E2EMessage::PreKeyBundle(b) ==> r == Ok::<PreKeyBundle, Error>(b),
        resp matches E2EMessage::Error { code } ==> (code == ErrorCode::UserNotFound ==> r
            matches Err(Error::UserNotFound)) && (code != ErrorCode::UserNotFound ==> (r matches Err(
            Error::ProtocolError(c),
        ) && c == code)),
        !(resp is PreKeyBundle) && !(resp is Error) ==> (r matches Err(
            Error::UnexpectedE2EMessage(m),
        ) && m == resp),
{
    match resp {
        E2EMessage::PreKeyBundle(bundle) => Ok(bundle),
        E2EMessage::Error { code: ErrorCode::UserNotFound } => Err(Error::UserNotFound),
        E2EMessage::Error { code } => Err(Error::ProtocolError(code)),
        m => Err(Error::UnexpectedE2EMessage(m)),
    }
}

/// The ids of the keys on the server that the client does not hold, in the server's order
pub open spec fn spec_keys_to_remove(server_keys: Seq<u128>, stored_keys: Seq<u128>) -> Seq<u128> {
    server_keys.filter(|k: u128| !stored_keys.contains(k))
}

/// The ids of the keys on the server that the client does not hold, each once
pub fn keys_to_remove(server_keys: &Vec<u128>, stored_keys: &Vec<u128>) -> (r: Vec<u128>)
    ensures
        r@.to_set() == server_keys@.to_set().difference(stored_keys@.to_set()),
        r@.no_duplicates(),
{
    let mut r: Vec<u128> = Vec::new();
    let mut i: usize = 0;
    while i < server_keys.len()
        invariant
            i <= server_keys@.len(),
            r@.to_set() == server_keys@.take(i as int).to_set().difference(stored_keys@.to_set()),
            r@.no_duplicates(),
        decreases server_keys@.len() - i,
    {
        let k = server_keys[i];
        let mut stored = false;
        let mut seen = false;
        let mut j: usize = 0;
        while j < stored_keys.len()
            invariant
                j <= stored_keys@.len(),
                stored == exists|t: int| 0 <= t < j && stored_keys@[t] == k,
            decreases stored_keys@.len() - j,
        {
            if stored_keys[j] == k {
                stored = true;
            }
            j = j + 1;
        }
        assert(stored == stored_keys@.contains(k));
        let mut j: usize = 0;
        while j < r.len()
            invariant
                j <= r@.len(),
                seen == exists|t: int| 0 <= t < j && r@[t] == k,
            decreases r@.len() - j,
        {
            if r[j] == k {
                seen = true;
            }
            j = j + 1;
        }
        assert(seen == r@.contains(k));
        assert(server_keys@.take(i + 1) =~= server_keys@.take(i as int).push(k));
        proof {
            server_keys@.take(i as int).lemma_push_to_set_commute(k);
        }
        if !stored && !seen {
            proof {
                r@.lemma_push_to_set_commute(k);
            }
            r.push(k);
        }
        i = i + 1;
        assert(r@.to_set() =~= server_keys@.take(i as int).to_set().difference(
            stored_keys@.to_set(),
        ));
    }
    assert(server_keys@.take(server_keys@.len() as int) =~= server_keys@);
    r
}

/// How many prekeys to upload: as many as are missing for `min_prekeys` to be available on
/// the server, up to the server's limit
pub open spec fn spec_prekeys_to_upload(nb_available: nat, min_prekeys: nat, limit: nat) -> nat {
    if nb_available < min_prekeys {
        let missing = (min_prekeys - nb_available) as nat;
        if missing <= limit {
            missing
        } else {
            limit
        }
    } else {
        0
    }
}

/// How many prekeys to upload: as many as are missing for `min_prekeys` to be available on
/// the server, up to the server's limit
pub fn prekeys_to_upload(nb_available: usize, min_prekeys: usize, limit: u64) -> (r: usize)
    ensures
        r == spec_prekeys_to_upload(nb_available as nat, min_prekeys as nat, limit as nat),
{
    if nb_available < min_prekeys {
        let missing = min_prekeys - nb_available;
        if (missing as u64) <= limit {
            missing
        } else {
            limit as usize
        }
    } else {
        0
    }
}

/// How many of the server's keys the client also holds
pub open spec fn kept_count(server_keys: Seq<u128>, stored_keys: Seq<u128>) -> nat
    decreases server_keys.len(),
{
    if server_keys.len() == 0 {
        0
    } else {
        kept_count(server_keys.drop_last(), stored_keys) + if stored_keys.contains(
            server_keys.last(),
        ) {
            1nat
        } else {
            0nat
        }
    }
}

/// Plan a synchronization of the prekeys: the keys on the server that the client does not
/// hold are deleted, and as many keys are uploaded as are missing for `min_prekeys` to be
/// available once they are, up to the server's limit
///
/// Returns the ids to delete, the number of the server's keys that stay, and the number of
/// keys to upload.
pub fn plan_prekey_sync(
    server_keys: &Vec<u128>,
    stored_keys: &Vec<u128>,
    min_prekeys: usize,
    limit: u64,
) -> (r: (Vec<u128>, usize, usize))
    ensures
        r.0@.to_set() == server_keys@.to_set().difference(stored_keys@.to_set()),
        r.0@.no_duplicates(),
        r.1 == kept_count(server_keys@, stored_keys@),
        r.2 == spec_prekeys_to_upload(r.1 as nat, min_prekeys as nat, limit as nat),
{
    let to_remove = keys_to_remove(server_keys, stored_keys);
    let mut kept: usize = 0;
    let mut i: usize = 0;
    while i < server_keys.len()
        invariant
            i <= server_keys@.len(),
            kept == kept_count(server_keys@.take(i as int), stored_keys@),
            kept <= i,
        decreases server_keys@.len() - i,
    {
        let k = server_keys[i];
        let mut stored = false;
        let mut j: usize = 0;
        while j < stored_keys.len()
            invariant
                j <= stored_keys@.len(),
                stored == exists|t: int| 0 <= t < j && stored_keys@[t] == k,
            decreases stored_keys@.len() - j,
        {
            if stored_keys[j] == k {
                stored = true;
            }
            j = j + 1;
        }
        assert(stored == stored_keys@.contains(k));
        assert(server_keys@.take(i + 1).drop_last() =~= server_keys@.take(i as int));
        if stored {
            kept = kept + 1;
        }
        i = i + 1;
    }
    assert(server_keys@.take(server_keys@.len() as int) =~= server_keys@);
    let to_upload = prekeys_to_upload(kept, min_prekeys, limit);
    (to_remove, kept, to_upload)
}

/// How many prekeys the server holds once a synchronization uploaded the missing ones:
/// those available, and those uploaded
pub fn prekey_count_after_sync(nb_available: usize, min_prekeys: usize, limit: u64) -> (r: usize)
    ensures
        r == nb_available + spec_prekeys_to_upload(nb_available as nat, min_prekeys as nat, limit as nat),
{
    nb_available + prekeys_to_upload(nb_available, min_prekeys, limit)
}

/// The bytes an authentication challenge asks the client to sign: `SHA512(chall) || username`
pub open spec fn challenge_bytes(chall: Seq<u8>, username: Seq<char>) -> Seq<u8> {
    sha512(chall) + encode_utf8(username)
}

/// The answer to an authentication challenge: the challenge, and the signature of
/// `SHA512(chall) || username` with the identity key
pub fn solve_challenge(identity: &IdentityKeyPair, chall: Vec<u8>, username: &str) -> (r:
    E2EMessage)
    ensures
        r matches E2EMessage::AuthChallengeSolve { chall: c, solve } && c@ == chall@ && solve@
            == ed25519_signature(identity.ed25519_secret@, challenge_bytes(chall@, username@)),
{
    let mut bytes = sha512_digest(chall.as_slice());
    extend_bytes(&mut bytes, username.as_bytes());
    let solve = identity.sign(bytes.as_slice());
    E2EMessage::AuthChallengeSolve { chall, solve: bytes_to_vec(solve.as_slice()) }
}

/// The challenge of the server's response to a challenge request
pub fn challenge_from_response(resp: E2EMessage) -> (r: Result<Vec<u8>>)
    ensures
        resp matches E2EMessage::AuthChallenge { chall } ==> r matches Ok(c) && c@ == chall@,
        resp matches E2EMessage::Error { code } ==> r matches Err(Error::ProtocolError(c)) && c
            == code,
        !(resp is AuthChallenge) && !(resp is Error) ==> (r matches Err(
            Error::UnexpectedE2EMessage(m),
        ) && m == resp),
{
    match check_response(resp) {
        Ok(E2EMessage::AuthChallenge { chall }) => Ok(chall),
        Ok(m) => Err(Error::UnexpectedE2EMessage(m)),
        Err(e) => Err(e),
    }
}

impl<S: E2EStorageBackend> E2EClient<S> {
    /// Load a client with an existing account, with the sessions of its storage
    pub fn load(account: Account, storage: S) -> (r: Result<Self>)
        ensures
            r matches Ok(c) ==> c.state.inv() && c.state.account == account && c.state.storage.model()
                == storage.model(),
            r matches Ok(c) ==> exists|v: Seq<E2ESession>|
                #![trigger sessions_by_correspondant(v)]
                v.to_set() == storage.model().sessions.values() && v.len()
                    == storage.model().sessions.dom().len() && c.state.sessions@
                    == sessions_by_correspondant(v),
            r matches Err(e) ==> e is StorageBackendError || e is NoRandomness,
            S::never_fails() ==> !(r matches Err(Error::StorageBackendError(_))),
    {
        let mut storage = storage;
        let sessions = match storage.load_all_sessions() {
            Ok(s) => s,
            Err(e) => return Err(Error::StorageBackendError(e)),
        };
        let sessions = index_sessions(sessions);
        let rng = match std_rng_from_os() {
            Some(r) => r,
            None => return Err(Error::NoRandomness),
        };
        let state = E2EClientState::new(account, storage, rng, sessions);
        Ok(Self { state })
    }

    /// Get the underlying client account
    pub fn account(&self) -> (r: &Account)
        ensures
            *r == self.state.account,
    {
        &self.state.account
    }

    /// Update the account with the token of the server's response to a solved challenge
    pub fn apply_auth_token(&mut self, resp: E2EMessage) -> (r: Result<()>)
        requires
            old(self).state.inv(),
        ensures
            final(self).state.inv(),
            resp matches E2EMessage::AuthToken { id, token } ==> (r is Ok && final(
                self).state.account@.id == id && final(self).state.account@.token == token@
                && final(self).state.account@.username == old(self).state.account@.username),
            !(resp is AuthToken) ==> (r matches Err(Error::UnexpectedE2EMessage(m)) && m == resp
                && final(self).state.account == old(self).state.account),
            final(self).state.storage == old(self).state.storage,
            final(self).state.sessions@ == old(self).state.sessions@,
    {
        match resp {
            E2EMessage::AuthToken { id, token } => {
                self.state.account.id = id;
                self.state.account.token = token;
                Ok(())
            },
            m => Err(Error::UnexpectedE2EMessage(m)),
        }
    }
}

/// The public keys of ephemeral secret keys, in the same order
pub open spec fn public_prekeys(keys: Seq<EphemeralSecretKey>, public: Seq<EphemeralKey>) -> bool {
    &&& public.len() == keys.len()
    &&& forall|i: int|
        0 <= i < keys.len() ==> (#[trigger] public[i]).id == keys[i].id && public[i].key@
            == x25519_public(keys[i].secret@)
}

/// The limit and the available keys of the server's response to a status request
pub fn prekey_status_from_response(resp: E2EMessage) -> (r: Result<(u64, Vec<u128>)>)
    ensures
        resp matches E2EMessage::PreKeyStatus { limit, keys, .. } ==> (r matches Ok((l, k)) && l
            == limit && k@ == keys@),
        resp matches E2EMessage::Error { code } ==> (r matches Err(Error::ProtocolError(c)) && c
            == code),
        !(resp is PreKeyStatus) && !(resp is Error) ==> (r matches Err(
            Error::UnexpectedE2EMessage(m),
        ) && m == resp),
{
    match check_response(resp) {
        Ok(E2EMessage::PreKeyStatus { limit, keys, .. }) => Ok((limit, keys)),
        Ok(m) => Err(Error::UnexpectedE2EMessage(m)),
        Err(e) => Err(e),
    }
}

impl<S: E2EStorageBackend> E2EClient<S> {
    /// The message that registers an account under `username`, signed with the identity
    /// keypair of the storage, which is created first if there is none
    pub fn create_account_message(storage: &mut S, rng: &mut rand::rngs::StdRng, username: String) -> (r:
        Result<E2EMessage>)
        ensures
            r matches Ok(m) ==> (final(storage).model().identity_keypair matches Some(ik) && m
                matches E2EMessage::CreateAccount { identity_key, username: u, signature }
                && identity_key == ik.spec_public_keys() && u@ == username@ && signature@
                == ed25519_signature(ik.ed25519_secret@, encode_utf8(username@))),
            r is Ok && old(storage).model().identity_keypair is Some ==> final(storage).model()
                == old(storage).model(),
            r matches Err(e) ==> e is StorageBackendError,
            S::never_fails() ==> r is Ok,
    {
        let idk = match storage.identity_keypair_opt() {
            Ok(Some(keypair)) => keypair,
            Ok(None) => match E2EClientState::<S>::create_identity_keypair(storage, rng) {
                Ok(k) => k,
                Err(e) => return Err(e),
            },
            Err(e) => return Err(Error::StorageBackendError(e)),
        };
        Ok(E2EMessage::create_account(&idk, username))
    }

    /// Create `count` new prekeys, and a new signed mid-term prekey if `upload_midterm_key`,
    /// store their secrets, and return the message that uploads their public halves
    ///
    /// If `replace` is true, the keys on the server are replaced with the ones generated.
    /// The keys are drawn from the client's generator, and handed to
    /// [`prekey_upload_message`], which says what comes of them.
    pub fn prepare_prekey_upload(&mut self, count: usize, upload_midterm_key: bool, replace: bool) -> (r:
        Result<E2EMessage>)
        requires
            old(self).state.inv(),
        ensures
            final(self).state.inv(),
            final(self).state.account == old(self).state.account,
            final(self).state.sessions@ == old(self).state.sessions@,
            r matches Ok(m) ==> m matches E2EMessage::PreKeyUpload {
                token,
                replace: rep,
                signed_prekey,
                ephemeral_prekeys,
            } && token@ == Seq::<char>::empty() && rep == replace && ephemeral_prekeys@.len()
                == count && (signed_prekey is Some <==> upload_midterm_key) && (exists|
                keys: Seq<EphemeralSecretKey>,
            |
                public_prekeys(keys, ephemeral_prekeys@) && final(self).state.storage.model().ephemeral_keys
                    == insert_ephemeral_keys(old(self).state.storage.model().ephemeral_keys, keys))
                && (signed_prekey matches Some(spk) ==> (final(
                self).state.storage.model().midterm_key matches Some(mk) && spk.key@ == x25519_public(
                mk@,
            ) && (final(self).state.storage.model().identity_keypair matches Some(ik)
                && spk.signature@ == ed25519_signature(ik.ed25519_secret@, spk.key@))))
                && (signed_prekey is None ==> final(self).state.storage.model().midterm_key
                == old(self).state.storage.model().midterm_key),
            r matches Err(e) ==> e is StorageBackendError,
    {
        let mut keys: Vec<EphemeralSecretKey> = Vec::new();
        let mut i: usize = 0;
        while i < count
            invariant
                i <= count,
                keys@.len() == i,
                self.state.inv(),
                self.state.account == old(self).state.account,
                self.state.sessions@ == old(self).state.sessions@,
                self.state.storage == old(self).state.storage,
                self.state.next_request_id == old(self).state.next_request_id,
                self.state.waiting_requests@ == old(self).state.waiting_requests@,
            decreases count - i,
        {
            let key = EphemeralSecretKey::new_from_rng(&mut self.state.rng);
            keys.push(key);
            i = i + 1;
        }
        let midterm = if upload_midterm_key {
            Some(rng_bytes_32(&mut self.state.rng))
        } else {
            None
        };
        let r = prekey_upload_message(&mut self.state.storage, keys, midterm, replace);
        proof {
            assert(self.state.inv());
        }
        r
    }
}

/// Store the secrets of drawn prekeys, and of a drawn mid-term prekey if there is one, and
/// return the message that uploads their public halves, the mid-term one signed with the
/// identity key
///
/// The storage must hold the identity keypair when a mid-term prekey is given.
pub fn prekey_upload_message<S: E2EStorageBackend>(
    storage: &mut S,
    keys: Vec<EphemeralSecretKey>,
    midterm: Option<X25519Secret>,
    replace: bool,
) -> (r: Result<E2EMessage>)
    ensures
        S::never_fails() && fresh_ephemeral_ids(old(storage).model().ephemeral_keys, keys@) && (
        midterm is Some ==> old(storage).model().identity_keypair is Some) ==> r is Ok,
        r matches Err(e) ==> e is StorageBackendError,
        r matches Ok(m) ==> {
            &&& final(storage).model() == (StorageModel {
                ephemeral_keys: insert_ephemeral_keys(old(storage).model().ephemeral_keys, keys@),
                midterm_key: match midterm {
                    Some(k) => Some(k),
                    None => old(storage).model().midterm_key,
                },
                ..old(storage).model()
            })
            &&& m matches E2EMessage::PreKeyUpload {
                token,
                replace: rep,
                signed_prekey,
                ephemeral_prekeys,
            } && token@ == Seq::<char>::empty() && rep == replace && public_prekeys(
                keys@,
                ephemeral_prekeys@,
            ) && (signed_prekey is Some <==> midterm is Some) && (signed_prekey matches Some(spk)
                ==> (midterm matches Some(mk) && spk.key@ == x25519_public(mk@) && (old(
                storage,
            ).model().identity_keypair matches Some(ik) && spk.signature@ == ed25519_signature(
                ik.ed25519_secret@,
                spk.key@,
            ))))
        },
{
    let mut public_keys: Vec<EphemeralKey> = Vec::new();
    let mut i: usize = 0;
    while i < keys.len()
        invariant
            i <= keys@.len(),
            public_prekeys(keys@.take(i as int), public_keys@),
        decreases keys@.len() - i,
    {
        let p = EphemeralKey::from_secret(&keys[i]);
        public_keys.push(p);
        i = i + 1;
        assert(keys@.take(i as int).drop_last() =~= keys@.take(i - 1));
        assert(keys@.take(i as int)[i - 1] == keys@[i - 1]);
    }
    assert(keys@.take(keys@.len() as int) =~= keys@);
    let ghost generated = keys@;
    // Register all keys
    match storage.save_many_ephemeral_keys(keys) {
        Ok(()) => {},
        Err(e) => return Err(Error::StorageBackendError(e)),
    }
    let mut signed_prekey: Option<SignedPreKey> = None;
    match midterm {
        Some(key) => {
            let public_key = x25519_public_key(&key);
            let identity = match storage.identity_keypair() {
                Ok(k) => k,
                Err(e) => return Err(Error::StorageBackendError(e)),
            };
            let signature = identity.sign(public_key.as_slice());
            match storage.set_midterm_key(key) {
                Ok(()) => {},
                Err(e) => return Err(Error::StorageBackendError(e)),
            }
            signed_prekey = Some(SignedPreKey { key: public_key, signature });
        },
        None => {},
    }
    Ok(
        E2EMessage::PreKeyUpload {
            token: String::new(),
            replace,
            signed_prekey,
            ephemeral_prekeys: public_keys,
        },
    )
}

} // verus!
