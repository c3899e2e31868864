//! Shared client state
//!
//! The state holds what the synchronous and asynchronous modes of the client share: the
//! account, the storage, the random generator, the open sessions and the requests that
//! wait for a response.

use std::collections::{HashMap, HashSet};

use vstd::prelude::*;

use crate::{
    bytes::{array_of, extend_bytes, id_bytes, id_to_bytes, lemma_array_of_unique},
    e2e::{
        client::{
            error::{Error, Result},
            session::E2ESession,
            Account,
        },
        kdf::{kdf, spec_kdf},
        keys::{
            storage_backend::{add_session_keys, E2EStorageBackend, StorageModel},
            random_id, IdentityKeyPair, SymetricKey, X25519Secret,
        },
        message::{
            encrypted_payload::{
                self, decrypted_payload, payload_body, payload_bytes, payload_ciphertext, EncryptedPayload,
                EncryptedPayloadView, PayloadMessage, PayloadMessageView,
            },
            E2EMessage, E2EPacket, KeyExchangeData, PreKeyBundle,
        },
    },
    primitives::{
        rng_bytes_32, rng_nonce_24, rng_range_inclusive, x25519_diffie_hellman,
        x25519_public, x25519_public_key, x25519_shared, xchacha_decrypt, xchacha_encrypt,
        json_text, xchacha_open, xchacha_seal,
    },
};
use crate::e2e::client::x3dh::{
    initiator_sealed, lemma_sealed_under_responder_key, agrees, bundle_prekey, dh_concat, initiator_secret, prepared_open_session, public_opt,
    responder_secret, responder_session, session_aad,
};

verus! {

broadcast use vstd::std_specs::hash::group_hash_axioms;

// Maximum theorical limit should be around 1 billion (~2^30)
/// Maximum messages to encrypt with a key before key rotation
pub const MAX_MSGS_PER_KEY: u64 = 100_000;

/// Range around [`MAX_MSGS_PER_KEY`] where key rotation should occur
///
/// Each time a key rotation happens, a random number between `MAX_MSGS_PER_KEY` +- `MAX_MSGS_PER_KEY_DEVIATION`
/// is generated, and the next key derivation will happen at that time
pub const MAX_MSGS_PER_KEY_DEVIATION: u64 = 50;

/// The shared client state
pub struct E2EClientState<S: E2EStorageBackend> {
    /// User account on the server
    pub account: Account,
    pub storage: S,
    /// Cryptographically secure PRNG used to generate keys
    pub rng: rand::rngs::StdRng,
    /// Currently open sessions
    pub sessions: HashMap<u128, E2ESession>,
    /// Next request id to use for tagged messages
    pub next_request_id: u16,
    /// Ids of the tagged requests that wait for a response
    pub waiting_requests: HashSet<u16>,
}

// region:    Specifications

/// The session once a message was counted against its sending key
pub open spec fn counted_down(s: E2ESession) -> E2ESession {
    E2ESession {
        key_msg_count: if s.key_msg_count == 0 {
            0
        } else {
            (s.key_msg_count - 1) as u64
        },
        ..s
    }
}

/// The key derived from `key` and a nonce
pub open spec fn next_key(key: SymetricKey, nonce: Seq<u8>) -> SymetricKey {
    array_of(spec_kdf(key@ + nonce))
}

/// The session of a sender once its sending key moved on to `key_id`, derived with
/// `nonce`, for `count` messages
pub open spec fn sending_rotated(s: E2ESession, nonce: Seq<u8>, key_id: u128, count: u64) -> E2ESession {
    E2ESession {
        sending_key_id: key_id,
        sending_key: next_key(s.sending_key, nonce),
        key_msg_count: count,
        ..s
    }
}

/// The session of a receiver once its receiving key moved on to `key_id`, derived with
/// `nonce`
pub open spec fn receiving_rotated(s: E2ESession, nonce: Seq<u8>, key_id: u128) -> E2ESession {
    E2ESession { receiving_key: next_key(s.receiving_key, nonce), receiving_key_id: key_id, ..s }
}

/// A key rotation keeps two sessions in step: when the receiver decrypted with the key the
/// sender encrypted with, it decrypts with the sender's next key once both moved on with
/// the nonce and key id of the rotation message
pub proof fn law_rotation_keeps_sessions_in_step(
    sender: E2ESession,
    receiver: E2ESession,
    nonce: Seq<u8>,
    key_id: u128,
    count: u64,
)
    requires
        sender.sending_key == receiver.receiving_key,
    ensures
        sending_rotated(sender, nonce, key_id, count).sending_key == receiving_rotated(
            receiver,
            nonce,
            key_id,
        ).receiving_key,
        sending_rotated(sender, nonce, key_id, count).sending_key_id == receiving_rotated(
            receiver,
            nonce,
            key_id,
        ).receiving_key_id,
{
}

/// Whether `e` is `payload` encrypted under `key`, announced as the key `key_id`
pub open spec fn encrypted_under(
    e: EncryptedPayloadView,
    key: SymetricKey,
    key_id: u128,
    payload: PayloadMessageView,
) -> bool {
    &&& e.key_id == key_id
    &&& e.nonce.len() == 24
    &&& e.ciphertext == payload_ciphertext(key@, e.nonce, key_id, payload)
}

/// What a payload operation of the client gave, when it got as far as the payload
pub open spec fn payload_outcome(r: Result<PayloadMessage>) -> Option<
    core::result::Result<PayloadMessageView, encrypted_payload::Error>,
> {
    match r {
        Ok(p) => Some(Ok(p@)),
        Err(Error::EncryptedPayloadError(e)) => Some(Err(e)),
        _ => None,
    }
}

/// The bytes of an optional secret key
pub open spec fn secret_opt_view(k: Option<X25519Secret>) -> Option<Seq<u8>> {
    match k {
        Some(t) => Some(t@),
        None => None,
    }
}

/// The storage model once a session key is added
pub open spec fn with_session_key(m: StorageModel, user: u128, key_id: u128, key: SymetricKey) -> StorageModel {
    StorageModel { session_keys: m.session_keys.insert((user, key_id), key), ..m }
}

/// The number of messages a new key encrypts, drawn around [`MAX_MSGS_PER_KEY`]
pub open spec fn valid_key_msg_count(n: u64) -> bool {
    MAX_MSGS_PER_KEY - MAX_MSGS_PER_KEY_DEVIATION <= n <= MAX_MSGS_PER_KEY
        + MAX_MSGS_PER_KEY_DEVIATION
}

/// What preparing a message to `to` does: the message counts against the session's
/// sending key and is encrypted with it; when the count runs out, the sending key moves
/// on, and the key rotation message carries the encrypted message
pub open spec fn message_prepared<S: E2EStorageBackend>(
    s0: E2EClientState<S>,
    s1: E2EClientState<S>,
    to: u128,
    message: Seq<u8>,
    r: Result<E2EMessage>,
) -> bool {
    &&& !s0.sessions@.contains_key(to) ==> (r matches Err(Error::NoSession(id)) && id
        == to && s1.sessions@ == s0.sessions@ && s1.storage
        == s0.storage)
    &&& s0.sessions@.contains_key(to) ==> ({
        let s = s0.sessions@[to];
        let c = counted_down(s);
        let payload = PayloadMessageView::ChatMessage(message);
        let fits = payload_bytes(payload).len() < 64 * 0xffff_ffffnat;
        &&& !fits ==> (r matches Err(Error::EncryptedPayloadError(e)) && e
            == encrypted_payload::Error::DecryptionError && s1.sessions@
            == s0.sessions@.insert(to, c) && s1.storage
            == s0.storage)
        &&& fits && c.key_msg_count != 0 ==> (r matches Ok(
            E2EMessage::ConversationMessage { sender_id, msg_ciphertext },
        ) && sender_id == s0.account.id && encrypted_under(
            msg_ciphertext@,
            s.sending_key,
            s.sending_key_id,
            payload,
        ) && s1.sessions@ == s0.sessions@.insert(to, c) && s1.storage == s0.storage)
        &&& fits && c.key_msg_count == 0 ==> (match r {
            Ok(E2EMessage::KeyRotation { nonce, key_id, message: Some(e), padding: None }) => {
                &&& nonce@.len() == 32
                &&& encrypted_under(e@, s.sending_key, s.sending_key_id, payload)
                &&& s1.sessions@.contains_key(to)
                &&& valid_key_msg_count(s1.sessions@[to].key_msg_count)
                &&& s1.sessions@ == s0.sessions@.insert(
                    to,
                    sending_rotated(c, nonce@, key_id, s1.sessions@[to].key_msg_count),
                )
                &&& s1.storage.model() == with_session_key(
                    s0.storage.model(),
                    to,
                    key_id,
                    next_key(s.sending_key, nonce@),
                )
            },
            Err(Error::StorageBackendError(_)) => s1.sessions@
                == s0.sessions@.insert(to, c) && !S::never_fails(),
            _ => false,
        })
    })
}

// endregion: Specifications

/// The key material of the shared secret: the Diffie-Hellman outputs, one after the other
fn concat_dh(dh1: &[u8; 32], dh2: &[u8; 32], dh3: &[u8; 32], dh4: Option<[u8; 32]>) -> (r: Vec<u8>)
    ensures
        r@ == dh_concat(
            dh1@,
            dh2@,
            dh3@,
            match dh4 {
                Some(d) => Some(d@),
                None => None,
            },
        ),
{
    let mut r: Vec<u8> = Vec::new();
    extend_bytes(&mut r, dh1.as_slice());
    extend_bytes(&mut r, dh2.as_slice());
    extend_bytes(&mut r, dh3.as_slice());
    match dh4 {
        Some(d) => {
            extend_bytes(&mut r, d.as_slice());
        },
        None => {},
    }
    r
}

/// The key derived from a shared secret and a public identity key
fn derive_key(secret: &[u8; 32], identity: &[u8; 32]) -> (r: [u8; 32])
    ensures
        r@ == spec_kdf(secret@ + identity@),
{
    let mut material: Vec<u8> = Vec::new();
    extend_bytes(&mut material, secret.as_slice());
    extend_bytes(&mut material, identity.as_slice());
    kdf(material.as_slice())
}

/// The associated data of the first message of a session
fn build_session_aad(ik_a: &[u8; 32], ik_b: &[u8; 32], i: u128, j: u128) -> (r: Vec<u8>)
    ensures
        r@ == session_aad(ik_a@, ik_b@, i, j),
{
    let mut r: Vec<u8> = Vec::new();
    extend_bytes(&mut r, ik_a.as_slice());
    extend_bytes(&mut r, ik_b.as_slice());
    let ib = id_to_bytes(i);
    let jb = id_to_bytes(j);
    extend_bytes(&mut r, ib.as_slice());
    extend_bytes(&mut r, jb.as_slice());
    r
}

/// A number of messages for a new key, drawn around [`MAX_MSGS_PER_KEY`]
fn draw_key_msg_count(rng: &mut rand::rngs::StdRng) -> (r: u64)
    ensures
        valid_key_msg_count(r),
{
    MAX_MSGS_PER_KEY - MAX_MSGS_PER_KEY_DEVIATION + rng_range_inclusive(
        rng,
        0,
        2 * MAX_MSGS_PER_KEY_DEVIATION,
    )
}

/// Build the first message of a session and the session itself, from the initiator's
/// identity keypair, the drawn ephemeral secret `ek`, nonce, key ids and message budget,
/// and the recipient's prekey bundle
///
/// The message carries `message` encrypted with the new sending key; it fails with
/// [`encrypted_payload::Error::DecryptionError`] only when the payload is too long to encrypt.
pub fn seal_initial_message(
    identity_keypair: &IdentityKeyPair,
    ek: &X25519Secret,
    nonce: &[u8; 24],
    send_key_id: u128,
    receive_key_id: u128,
    key_msg_count: u64,
    recipient_id: u128,
    token: String,
    bundle: &PreKeyBundle,
    message: Vec<u8>,
) -> (r: Result<(E2EMessage, E2ESession)>)
    ensures
        (payload_bytes(PayloadMessageView::ChatMessage(message@)).len() < 64 * 0xffff_ffffnat)
            == r is Ok,
        r is Err ==> r == Err::<(E2EMessage, E2ESession), Error>(
            Error::EncryptedPayloadError(encrypted_payload::Error::DecryptionError),
        ),
        r matches Ok((msg, sess)) ==> {
            let ik_a = x25519_public(identity_keypair.x25519_secret@);
            let secret = initiator_secret(
                identity_keypair.x25519_secret@,
                ek@,
                bundle.identity_keys.x25519@,
                bundle.midterm_prekey@,
                bundle_prekey(*bundle),
            );
            &&& prepared_open_session(
                *identity_keypair,
                *bundle,
                recipient_id,
                token@,
                message@,
                msg,
                sess,
            )
            &&& msg matches E2EMessage::SendInitialMessage { data, .. }
            &&& data.ephemeral_prekey@ == x25519_public(ek@)
            &&& data.msg_ciphertext.nonce@ == nonce@
            &&& sess.sending_key_id == send_key_id
            &&& sess.receiving_key_id == receive_key_id
            &&& sess.key_msg_count == key_msg_count
            &&& sess.sending_key@ == spec_kdf(secret + ik_a)
            &&& sess.receiving_key@ == spec_kdf(secret + bundle.identity_keys.x25519@)
        },
{
    let idk = identity_keypair.x25519_secret;
    // DH1 = X25519(i_A, P_B)
    let dh1 = x25519_diffie_hellman(&idk, &bundle.midterm_prekey);
    // DH2 = X25519(e_A, I_B)
    let dh2 = x25519_diffie_hellman(ek, &bundle.identity_keys.x25519);
    // DH3 = X25519(e_A, P_B)
    let dh3 = x25519_diffie_hellman(ek, &bundle.midterm_prekey);

    // Use DH4 if an ephemeral prekey is available
    let (prekey_id, dh4) = match bundle.ephemeral_prekey {
        Some(tk) => {
            // DH4 = X25519(e_A, T_Bi)
            (Some(tk.id), Some(x25519_diffie_hellman(ek, &tk.key)))
        },
        None => (None, None),
    };
    let material = concat_dh(&dh1, &dh2, &dh3, dh4);
    let shared_secret = kdf(material.as_slice());

    let public_ek = x25519_public_key(ek);
    // Our public key, from the secret
    let public_identity_key = x25519_public_key(&idk);

    // Our sending key KDF(S || I_A)
    let send_key = derive_key(&shared_secret, &public_identity_key);
    // Our receiving key KDF(S || I_B)
    let recv_key = derive_key(&shared_secret, &bundle.identity_keys.x25519);

    // Encrypt the payload, authenticated with I_A, I_B, i and j
    let aad = build_session_aad(
        &public_identity_key,
        &bundle.identity_keys.x25519,
        send_key_id,
        receive_key_id,
    );
    let plaintext = PayloadMessage::ChatMessage(message).to_bytes();
    let ciphertext = match xchacha_encrypt(&send_key, nonce, aad.as_slice(), plaintext.as_slice()) {
        Some(c) => c,
        None => {
            return Err(Error::EncryptedPayloadError(encrypted_payload::Error::DecryptionError))
        },
    };
    let encrypted_payload = EncryptedPayload { nonce: *nonce, key_id: send_key_id, ciphertext };

    // Construct the message and the session
    let kex_data = KeyExchangeData {
        identity_key: identity_keypair.public_keys(),
        ephemeral_prekey: public_ek,
        recipient_prekey_id: prekey_id,
        send_key_id,
        receive_key_id,
        msg_ciphertext: encrypted_payload,
    };
    let msg = E2EMessage::SendInitialMessage { token, recipient_id, data: kex_data };
    let session = E2ESession {
        correspondant_id: recipient_id,
        sending_key_id: send_key_id,
        sending_key: send_key,
        key_msg_count,
        receiving_key_id: receive_key_id,
        receiving_key: recv_key,
    };
    proof {
        let s = initiator_secret(
            idk@,
            ek@,
            bundle.identity_keys.x25519@,
            bundle.midterm_prekey@,
            bundle_prekey(*bundle),
        );
        assert(shared_secret@ == s);
        assert(x25519_public(ek@) == public_ek@);
    }
    Ok((msg, session))
}

/// Derive the keys of the session a key exchange opens, from the responder's identity,
/// midterm and optional ephemeral secret, and decrypt the first message with them
///
/// Returns the payload, the receiving key and the sending key. The shared secret is the
/// initiator's, whatever secrets stand behind its public keys.
pub fn open_initial_message(
    identity_key: &X25519Secret,
    midterm_key: &X25519Secret,
    prekey: Option<X25519Secret>,
    kex_data: &KeyExchangeData,
) -> (r: Result<(PayloadMessage, SymetricKey, SymetricKey)>)
    ensures
        ({
            let opk = secret_opt_view(prekey);
            let ik_a = kex_data.identity_key.x25519@;
            let ek_a = kex_data.ephemeral_prekey@;
            let secret = responder_secret(identity_key@, midterm_key@, opk, ik_a, ek_a);
            let recv = spec_kdf(secret + ik_a);
            let send = spec_kdf(secret + x25519_public(identity_key@));
            let aad = session_aad(
                ik_a,
                x25519_public(identity_key@),
                kex_data.send_key_id,
                kex_data.receive_key_id,
            );
            let ct = kex_data.msg_ciphertext;
            &&& agrees(identity_key@, midterm_key@, opk, ik_a, ek_a)
            &&& match xchacha_open(recv, ct.nonce@, aad, ct.ciphertext@) {
                None => r == Err::<(PayloadMessage, SymetricKey, SymetricKey), Error>(
                    Error::EncryptedPayloadError(encrypted_payload::Error::DecryptionError),
                ),
                Some(b) => match crate::e2e::message::encrypted_payload::parse_payload(b) {
                    Ok(p) => (r matches Ok((q, rk, sk)) && q@ == p && rk@ == recv && sk@ == send),
                    Err(e) => r == Err::<(PayloadMessage, SymetricKey, SymetricKey), Error>(
                        Error::EncryptedPayloadError(e),
                    ),
                },
            }
            &&& forall|p: PayloadMessageView|
                ct.ciphertext@ == #[trigger] xchacha_seal(recv, ct.nonce@, aad, payload_bytes(p))
                    && json_text(payload_body(p)) && payload_bytes(p).len() < 64 * 0xffff_ffffnat
                    ==> (r matches Ok((q, _, _)) && q@ == p)
        }),
{
    // DH1 = X25519(p_B, I_A)
    let dh1 = x25519_diffie_hellman(midterm_key, &kex_data.identity_key.x25519);
    // DH2 = X25519(i_B, E_A)
    let dh2 = x25519_diffie_hellman(identity_key, &kex_data.ephemeral_prekey);
    // DH3 = X25519(p_B, E_A)
    let dh3 = x25519_diffie_hellman(midterm_key, &kex_data.ephemeral_prekey);
    // DH4 = X25519(t_Bi, E_A), if an ephemeral prekey was used
    let dh4 = match prekey {
        Some(t) => Some(x25519_diffie_hellman(&t, &kex_data.ephemeral_prekey)),
        None => None,
    };
    let material = concat_dh(&dh1, &dh2, &dh3, dh4);
    let shared_secret = kdf(material.as_slice());
    let ghost opk = secret_opt_view(prekey);
    proof {
        let ik_a = kex_data.identity_key.x25519@;
        let ek_a = kex_data.ephemeral_prekey@;
        assert(shared_secret@ == responder_secret(identity_key@, midterm_key@, opk, ik_a, ek_a));
        assert forall|sik: Seq<u8>, sek: Seq<u8>|
            #![trigger x25519_public(sik), x25519_public(sek)]
            sik.len() == 32 && sek.len() == 32 && ik_a == x25519_public(sik) && ek_a
                == x25519_public(sek) implies responder_secret(
            identity_key@,
            midterm_key@,
            opk,
            ik_a,
            ek_a,
        ) == initiator_secret(
            sik,
            sek,
            x25519_public(identity_key@),
            x25519_public(midterm_key@),
            public_opt(opk),
        ) by {
            assert(dh1@ == x25519_shared(sik, x25519_public(midterm_key@)));
            assert(dh2@ == x25519_shared(sek, x25519_public(identity_key@)));
            assert(dh3@ == x25519_shared(sek, x25519_public(midterm_key@)));
        }
    }

    // Our public key, from the secret
    let public_identity_key = x25519_public_key(identity_key);
    // Our receiving key, which corresponds to the sender's sending key (i)
    let recv_key = derive_key(&shared_secret, &kex_data.identity_key.x25519);
    // Our sending key, which corresponds to the sender's receiving key (j)
    let send_key = derive_key(&shared_secret, &public_identity_key);

    // Try to decrypt the message, authenticated with I_A, I_B, i and j
    let aad = build_session_aad(
        &kex_data.identity_key.x25519,
        &public_identity_key,
        kex_data.send_key_id,
        kex_data.receive_key_id,
    );
    let bytes = match xchacha_decrypt(
        &recv_key,
        &kex_data.msg_ciphertext.nonce,
        aad.as_slice(),
        kex_data.msg_ciphertext.ciphertext.as_slice(),
    ) {
        Some(b) => b,
        None => {
            return Err(Error::EncryptedPayloadError(encrypted_payload::Error::DecryptionError))
        },
    };
    proof {
        assert forall|p: PayloadMessageView|
            kex_data.msg_ciphertext.ciphertext@ == #[trigger] xchacha_seal(
                recv_key@,
                kex_data.msg_ciphertext.nonce@,
                aad@,
                payload_bytes(p),
            ) && json_text(payload_body(p)) && payload_bytes(p).len() < 64 * 0xffff_ffffnat
                implies crate::e2e::message::encrypted_payload::parse_payload(bytes@) == Ok::<
            PayloadMessageView,
            encrypted_payload::Error,
        >(p) by {
            crate::e2e::message::encrypted_payload::law_payload_roundtrip(p);
        }
    }
    let payload = match PayloadMessage::try_from_bytes(bytes.as_slice()) {
        Ok(p) => p,
        Err(e) => return Err(Error::EncryptedPayloadError(e)),
    };

    proof {
        lemma_array_of_unique(send_key, spec_kdf(shared_secret@ + public_identity_key@));
        lemma_array_of_unique(recv_key, spec_kdf(shared_secret@ + kex_data.identity_key.x25519@));
    }
    Ok((payload, recv_key, send_key))
}

impl<S: E2EStorageBackend> E2EClientState<S> {
    /// The id the next tagged request gets
    pub open spec fn next_request_id(&self) -> u16 {
        self.next_request_id
    }

    /// The ids of the requests that wait for a response
    pub open spec fn waiting_requests(&self) -> Set<u16> {
        self.waiting_requests@
    }

    /// What every state keeps: no request gets the id `0`, which marks untagged messages
    pub open spec fn inv(&self) -> bool {
        &&& self.next_request_id() != 0
        &&& !self.waiting_requests().contains(0)
    }

    /// A state for an account, with its storage, generator and open sessions
    pub fn new(
        account: Account,
        storage: S,
        rng: rand::rngs::StdRng,
        sessions: HashMap<u128, E2ESession>,
    ) -> (r: Self)
        ensures
            r.inv(),
            r.account == account,
            r.storage == storage,
            r.sessions@ == sessions@,
            r.next_request_id() == 1,
            r.waiting_requests() == Set::<u16>::empty(),
    {
        Self {
            account,
            storage,
            rng,
            sessions,
            next_request_id: 1,
            waiting_requests: HashSet::new(),
        }
    }

    /// Get the authentication token
    pub fn token(&self) -> (r: &String)
        ensures
            r@ == self.account.token@,
    {
        &self.account.token
    }

    /// Get the current sessions of the client
    pub fn sessions(&self) -> (r: &HashMap<u128, E2ESession>)
        ensures
            r@ == self.sessions@,
    {
        &self.sessions
    }

    /// Tag a message with the next request id, which then waits for its response
    ///
    /// Ids count up from `1`, and after `65535` start again from `1`: `0` marks untagged
    /// messages.
    pub fn tag_message(&mut self, message: E2EMessage) -> (r: E2EPacket)
        requires
            old(self).inv(),
        ensures
            final(self).inv(),
            r.request_id == old(self).next_request_id(),
            r.request_id != 0,
            r.message == message,
            final(self).next_request_id() == if old(self).next_request_id() == 0xffff {
                1
            } else {
                (old(self).next_request_id() + 1) as u16
            },
            final(self).waiting_requests() == old(self).waiting_requests().insert(r.request_id),
            final(self).account == old(self).account,
            final(self).storage == old(self).storage,
            final(self).sessions@ == old(self).sessions@,
    {
        let request_id = self.next_request_id;
        // Increment the next request id, skipping 0 in case of an overflow
        self.next_request_id = if request_id == 0xffff {
            1
        } else {
            request_id + 1
        };
        self.waiting_requests.insert(request_id);
        E2EPacket { request_id, message }
    }

    /// Take the request that waits for a response with this id; whether one waited
    pub fn take_waiting_request(&mut self, request_id: u16) -> (r: bool)
        requires
            old(self).inv(),
        ensures
            final(self).inv(),
            r == old(self).waiting_requests().contains(request_id),
            final(self).waiting_requests() == old(self).waiting_requests().remove(request_id),
            final(self).next_request_id() == old(self).next_request_id(),
            final(self).account == old(self).account,
            final(self).storage == old(self).storage,
            final(self).sessions@ == old(self).sessions@,
    {
        self.waiting_requests.remove(&request_id)
    }

    /// Create an identity keypair and store it in the key storage
    pub fn create_identity_keypair(storage: &mut S, rng: &mut rand::rngs::StdRng) -> (r: Result<
        IdentityKeyPair,
    >)
        ensures
            r matches Ok(k) ==> k.x25519_secret == k.ed25519_secret && final(storage).model()
                == (StorageModel { identity_keypair: Some(k), ..old(storage).model() }),
            r matches Err(e) ==> e is StorageBackendError,
            S::never_fails() ==> r is Ok,
    {
        let idk = IdentityKeyPair::new_from_rng(rng);
        match storage.set_identity_keypair(idk) {
            Ok(()) => {},
            Err(e) => return Err(Error::StorageBackendError(e)),
        }
        match storage.identity_keypair() {
            Ok(k) => Ok(k),
            Err(e) => Err(Error::StorageBackendError(e)),
        }
    }

    /// Update a session state
    ///
    /// This does not delete the old session keys, but registers the new ones if necessary
    pub fn update_session(&mut self, session: E2ESession) -> (r: Result<()>)
        requires
            old(self).inv(),
        ensures
            final(self).inv(),
            final(self).account == old(self).account,
            final(self).next_request_id() == old(self).next_request_id(),
            final(self).waiting_requests() == old(self).waiting_requests(),
            r is Ok ==> final(self).sessions@ == old(self).sessions@.insert(
                session.correspondant_id,
                session,
            ),
            r is Ok ==> final(self).storage.model().sessions == old(self).storage.model().sessions.insert(
                session.correspondant_id,
                session,
            ),
            r is Ok ==> final(self).storage.model().session_keys.get(
                (session.correspondant_id, session.receiving_key_id),
            ) == Some(session.receiving_key),
            r is Ok && session.sending_key_id != session.receiving_key_id ==> final(self).storage.model().session_keys.get((session.correspondant_id, session.sending_key_id))
                == Some(session.sending_key),
            r is Err ==> final(self).sessions@ == old(self).sessions@,
            r matches Err(e) ==> e is StorageBackendError,
            S::never_fails() ==> r is Ok,
    {
        match self.storage.add_session_key(
            session.correspondant_id,
            session.sending_key_id,
            session.sending_key,
        ) {
            Ok(()) => {},
            Err(e) => return Err(Error::StorageBackendError(e)),
        }
        match self.storage.add_session_key(
            session.correspondant_id,
            session.receiving_key_id,
            session.receiving_key,
        ) {
            Ok(()) => {},
            Err(e) => return Err(Error::StorageBackendError(e)),
        }
        match self.storage.save_session(&session) {
            Ok(()) => {},
            Err(e) => return Err(Error::StorageBackendError(e)),
        }
        self.sessions.insert(session.correspondant_id, session);
        Ok(())
    }

    /// Remove old session keys for a user
    pub fn clean_session_keys(&mut self, user_id: u128) -> (r: Result<()>)
        requires
            old(self).inv(),
        ensures
            final(self).inv(),
            final(self).account == old(self).account,
            final(self).sessions@ == old(self).sessions@,
            final(self).next_request_id() == old(self).next_request_id(),
            final(self).waiting_requests() == old(self).waiting_requests(),
            !old(self).sessions@.contains_key(user_id) ==> r is Ok && final(self).storage
                == old(self).storage,
            old(self).sessions@.contains_key(user_id) && r is Ok ==> final(self).storage.model()
                == (StorageModel {
                session_keys: crate::e2e::keys::storage_backend::cleanup_keys(
                    old(self).storage.model().session_keys,
                    user_id,
                    old(self).sessions@[user_id].sending_key_id,
                    old(self).sessions@[user_id].receiving_key_id,
                ),
                ..old(self).storage.model()
            }),
            r matches Err(e) ==> e is StorageBackendError,
            S::never_fails() ==> r is Ok,
    {
        match self.sessions.get(&user_id) {
            Some(sess) => {
                let snd = sess.sending_key_id;
                let rcv = sess.receiving_key_id;
                match self.storage.cleanup_session_keys(user_id, snd, rcv) {
                    Ok(()) => Ok(()),
                    Err(e) => Err(Error::StorageBackendError(e)),
                }
            },
            None => Ok(()),
        }
    }

    /// Process a key rotation message for a user: the next receiving key is derived from
    /// the current one and the nonce, and stored under its id
    pub fn process_key_rotation(&mut self, sender_id: u128, nonce: &[u8], next_key_id: u128) -> (r:
        Result<()>)
        requires
            old(self).inv(),
        ensures
            final(self).inv(),
            final(self).account == old(self).account,
            final(self).next_request_id() == old(self).next_request_id(),
            final(self).waiting_requests() == old(self).waiting_requests(),
            !old(self).sessions@.contains_key(sender_id) ==> (r matches Err(Error::NoSession(id))
                && id == sender_id && final(self).sessions@ == old(self).sessions@ && final(self).storage == old(self).storage),
            old(self).sessions@.contains_key(sender_id) ==> ({
                let s = old(self).sessions@[sender_id];
                let k = next_key(s.receiving_key, nonce@);
                &&& final(self).sessions@ == old(self).sessions@.insert(
                    sender_id,
                    receiving_rotated(s, nonce@, next_key_id),
                )
                &&& r is Ok ==> final(self).storage.model() == with_session_key(
                    old(self).storage.model(),
                    sender_id,
                    next_key_id,
                    k,
                )
                &&& r matches Err(e) ==> e is StorageBackendError
                &&& S::never_fails() ==> r is Ok
            }),
    {
        let session = match self.sessions.get(&sender_id) {
            Some(s) => *s,
            None => return Err(Error::NoSession(sender_id)),
        };
        // Compute the next key
        let mut material: Vec<u8> = Vec::new();
        extend_bytes(&mut material, session.receiving_key.as_slice());
        extend_bytes(&mut material, nonce);
        let next_key = kdf(material.as_slice());
        proof {
            lemma_array_of_unique(next_key, spec_kdf(session.receiving_key@ + nonce@));
        }
        // Update the session and store the key
        let updated = E2ESession {
            receiving_key: next_key,
            receiving_key_id: next_key_id,
            ..session
        };
        self.sessions.insert(sender_id, updated);
        match self.storage.add_session_key(sender_id, next_key_id, next_key) {
            Ok(()) => Ok(()),
            Err(e) => Err(Error::StorageBackendError(e)),
        }
    }

    /// Encrypt a serialized chat message for another user, with the session open with them
    ///
    /// Each message counts against the sending key; when the count reaches zero, the next
    /// key is derived from the current one and a random nonce, stored, and announced in a
    /// key rotation message that carries the encrypted message; the next key then encrypts
    /// a newly drawn number of messages.
    #[verifier::rlimit(80)]
    pub fn prepare_message(&mut self, to: u128, message: Vec<u8>) -> (r: Result<E2EMessage>)
        requires
            old(self).inv(),
        ensures
            final(self).inv(),
            final(self).account == old(self).account,
            final(self).next_request_id() == old(self).next_request_id(),
            final(self).waiting_requests() == old(self).waiting_requests(),
            message_prepared(*old(self), *final(self), to, message@, r),
    {
        // Get the existing session
        let sess = match self.sessions.get(&to) {
            Some(s) => *s,
            None => return Err(Error::NoSession(to)),
        };
        let count = if sess.key_msg_count == 0 {
            0
        } else {
            sess.key_msg_count - 1
        };
        let sess = E2ESession { key_msg_count: count, ..sess };
        self.sessions.insert(to, sess);

        // Encrypt the message
        let nonce = rng_nonce_24(&mut self.rng);
        let msg_ciphertext = match EncryptedPayload::encrypt_chat(
            sess.sending_key_id,
            nonce,
            &sess.sending_key,
            message,
        ) {
            Ok(c) => c,
            Err(e) => return Err(Error::EncryptedPayloadError(e)),
        };

        // Perform key rotation if necessary
        if sess.key_msg_count == 0 {
            let rotation_nonce = rng_bytes_32(&mut self.rng);
            let mut material: Vec<u8> = Vec::new();
            extend_bytes(&mut material, sess.sending_key.as_slice());
            extend_bytes(&mut material, rotation_nonce.as_slice());
            let next = kdf(material.as_slice());
            proof {
                lemma_array_of_unique(next, spec_kdf(sess.sending_key@ + rotation_nonce@));
            }
            let next_key_id = random_id(&mut self.rng);

            // Save the session key and update the session
            match self.storage.add_session_key(to, next_key_id, next) {
                Ok(()) => {},
                Err(e) => return Err(Error::StorageBackendError(e)),
            }
            // The next key encrypts a newly drawn number of messages
            let key_msg_count = draw_key_msg_count(&mut self.rng);
            let rotated = E2ESession {
                sending_key_id: next_key_id,
                sending_key: next,
                key_msg_count,
                ..sess
            };
            self.sessions.insert(to, rotated);
            let nonce_bytes = crate::bytes::bytes_to_vec(rotation_nonce.as_slice());
            proof {
                let s0 = *old(self);
                let s = s0.sessions@[to];
                let c = counted_down(s);
                let payload = PayloadMessageView::ChatMessage(message@);
                assert(nonce_bytes@.len() == 32);
                assert(encrypted_under(msg_ciphertext@, s.sending_key, s.sending_key_id, payload));
                assert(self.sessions@.contains_key(to));
                assert(valid_key_msg_count(self.sessions@[to].key_msg_count));
                assert(self.sessions@ == s0.sessions@.insert(to, sending_rotated(c, nonce_bytes@, next_key_id, self.sessions@[to].key_msg_count)));
                assert(self.storage.model() == with_session_key(s0.storage.model(), to, next_key_id, next_key(s.sending_key, nonce_bytes@)));
            }
            return Ok(
                E2EMessage::KeyRotation {
                    nonce: nonce_bytes,
                    key_id: next_key_id,
                    message: Some(msg_ciphertext),
                    padding: None,
                },
            );
        }
        Ok(E2EMessage::ConversationMessage { sender_id: self.account.id, msg_ciphertext })
    }

    /// Decrypt an [`EncryptedPayload`] from another user, with the receiving key of the
    /// session, or an older key of it from the storage
    ///
    /// This returns the raw [`PayloadMessage`] and does not handle control messages.
    pub fn decrypt_payload(&mut self, sender_id: u128, ciphertext: &EncryptedPayload) -> (r:
        Result<PayloadMessage>)
        requires
            old(self).inv(),
        ensures
            *final(self) == *old(self),
            !old(self).sessions@.contains_key(sender_id) ==> (r matches Err(Error::NoSession(id))
                && id == sender_id),
            old(self).sessions@.contains_key(sender_id) && ciphertext.key_id
                == old(self).sessions@[sender_id].receiving_key_id ==> payload_outcome(r) == Some(
                decrypted_payload(old(self).sessions@[sender_id].receiving_key@, ciphertext@),
            ),
            old(self).sessions@.contains_key(sender_id) && ciphertext.key_id
                != old(self).sessions@[sender_id].receiving_key_id ==> match old(
                self).storage.model().session_keys.get((sender_id, ciphertext.key_id)) {
                Some(k) => r is Err ==> r matches Err(Error::StorageBackendError(_)) || payload_outcome(r)
                    == Some(decrypted_payload(k@, ciphertext@)),
                None => r matches Err(Error::StorageBackendError(_)) || (r matches Err(
                    Error::NoSessionKey(u, k),
                ) && u == sender_id && k == ciphertext.key_id),
            },
            old(self).sessions@.contains_key(sender_id) && ciphertext.key_id
                != old(self).sessions@[sender_id].receiving_key_id ==> (r is Ok ==> (old(
                self).storage.model().session_keys.get((sender_id, ciphertext.key_id)) matches Some(k)
                && payload_outcome(r) == Some(decrypted_payload(k@, ciphertext@)))),
    {
        // Try to get the session
        let session = match self.sessions.get(&sender_id) {
            Some(s) => *s,
            None => return Err(Error::NoSession(sender_id)),
        };
        // Try to get the key
        let key = if ciphertext.key_id == session.receiving_key_id {
            session.receiving_key
        } else {
            // Try to get the key from the storage if its not the most recent one
            match self.storage.session_key(sender_id, ciphertext.key_id) {
                Ok(Some(key)) => key,
                Ok(None) => return Err(Error::NoSessionKey(sender_id, ciphertext.key_id)),
                Err(e) => return Err(Error::StorageBackendError(e)),
            }
        };
        // Decrypt the message
        match ciphertext.decrypt(&key) {
            Ok(p) => Ok(p),
            Err(e) => Err(Error::EncryptedPayloadError(e)),
        }
    }

    /// Prepare a message to open a new session with a user, with an initial serialized chat
    /// message
    ///
    /// Returns the [`E2EMessage`] to send to the server, and the corresponding [`E2ESession`]
    /// that should be stored to persist the session.
    #[verifier::rlimit(40)]
    pub fn prepare_open_new_session(
        &mut self,
        recipient_id: u128,
        bundle: PreKeyBundle,
        message: Vec<u8>,
    ) -> (r: Result<(E2EMessage, E2ESession)>)
        requires
            old(self).inv(),
        ensures
            final(self).inv(),
            final(self).account == old(self).account,
            final(self).storage == old(self).storage,
            final(self).sessions@ == old(self).sessions@,
            final(self).next_request_id() == old(self).next_request_id(),
            final(self).waiting_requests() == old(self).waiting_requests(),
            r matches Ok((msg, sess)) ==> (old(self).storage.model().identity_keypair matches Some(
                ik,
            ) && prepared_open_session(
                ik,
                bundle,
                recipient_id,
                old(self).account.token@,
                message@,
                msg,
                sess,
            ) && valid_key_msg_count(sess.key_msg_count)),
            old(self).storage.model().identity_keypair is None ==> r matches Err(
                Error::StorageBackendError(_),
            ),
            S::never_fails() && old(self).storage.model().identity_keypair is Some
                && payload_bytes(PayloadMessageView::ChatMessage(message@)).len() < 64
                * 0xffff_ffffnat ==> r is Ok,
            r matches Err(e) ==> e is StorageBackendError || (e == Error::EncryptedPayloadError(
                encrypted_payload::Error::DecryptionError,
            ) && payload_bytes(PayloadMessageView::ChatMessage(message@)).len() >= 64
                * 0xffff_ffffnat),
    {
        // Get the required keys
        let identity_keypair = match self.storage.identity_keypair() {
            Ok(k) => k,
            Err(e) => return Err(Error::StorageBackendError(e)),
        };
        let ek = rng_bytes_32(&mut self.rng);
        // Generate some ids for the keys
        let send_key_id = random_id(&mut self.rng);
        let receive_key_id = random_id(&mut self.rng);
        let nonce = rng_nonce_24(&mut self.rng);
        let key_msg_count = draw_key_msg_count(&mut self.rng);
        seal_initial_message(
            &identity_keypair,
            &ek,
            &nonce,
            send_key_id,
            receive_key_id,
            key_msg_count,
            recipient_id,
            self.account.token.clone(),
            &bundle,
            message,
        )
    }

    /// Open a new session with a user from the key exchange data of their first message,
    /// and return the decrypted payload
    ///
    /// The ephemeral prekey the message names is used once: it leaves the storage. The
    /// shared secret is the initiator's, whatever secrets stand behind its public keys, so
    /// that the payload the initiator encrypted is what comes out.
    #[verifier::rlimit(60)]
    pub fn handle_open_session(&mut self, sender_id: u128, kex_data: &KeyExchangeData) -> (r:
        Result<PayloadMessage>)
        requires
            old(self).inv(),
        ensures
            final(self).inv(),
            final(self).account == old(self).account,
            final(self).next_request_id() == old(self).next_request_id(),
            final(self).waiting_requests() == old(self).waiting_requests(),
            r is Err ==> final(self).sessions@ == old(self).sessions@,
            r matches Err(e) ==> e is StorageBackendError || e is NoSuchPrekey
                || e is EncryptedPayloadError,
            S::never_fails() && (kex_data.recipient_prekey_id matches Some(id) && !old(
                self,
            ).storage.model().ephemeral_keys.contains_key(id)) ==> (r matches Err(
                Error::NoSuchPrekey(i),
            ) && kex_data.recipient_prekey_id == Some(i)),
            r matches Err(Error::NoSuchPrekey(i)) ==> kex_data.recipient_prekey_id == Some(i)
                && !old(self).storage.model().ephemeral_keys.contains_key(i)
                && final(self).storage.model() == old(self).storage.model(),
            r is Ok ==> final(self).sessions@.contains_key(sender_id)
                && final(self).storage.model() == (StorageModel {
                ephemeral_keys: match kex_data.recipient_prekey_id {
                    Some(id) => old(self).storage.model().ephemeral_keys.remove(id),
                    None => old(self).storage.model().ephemeral_keys,
                },
                session_keys: add_session_keys(
                    old(self).storage.model().session_keys,
                    final(self).sessions@[sender_id],
                ),
                sessions: old(self).storage.model().sessions.insert(
                    sender_id,
                    final(self).sessions@[sender_id],
                ),
                user_public_keys: old(self).storage.model().user_public_keys.insert(
                    sender_id,
                    kex_data.identity_key,
                ),
                ..old(self).storage.model()
            }),
            (kex_data.recipient_prekey_id matches Some(id) && !old(
                self,
            ).storage.model().ephemeral_keys.contains_key(id)) ==> r is Err,
            old(self).storage.model().identity_keypair is None ==> r is Err,
            old(self).storage.model().midterm_key is None ==> r is Err,
            ({
                let m = old(self).storage.model();
                let opk = match kex_data.recipient_prekey_id {
                    Some(id) => Some(m.ephemeral_keys[id]@),
                    None => None::<Seq<u8>>,
                };
                let ik_b = m.identity_keypair->0.x25519_secret@;
                let spk = m.midterm_key->0@;
                let ik_a = kex_data.identity_key.x25519@;
                let secret = responder_secret(ik_b, spk, opk, ik_a, kex_data.ephemeral_prekey@);
                let recv = spec_kdf(secret + ik_a);
                let aad = session_aad(
                    ik_a,
                    x25519_public(ik_b),
                    kex_data.send_key_id,
                    kex_data.receive_key_id,
                );
                let ct = kex_data.msg_ciphertext;
                &&& S::never_fails() && m.identity_keypair is Some && m.midterm_key is Some && (
                kex_data.recipient_prekey_id matches Some(id) ==> m.ephemeral_keys.contains_key(id))
                    && (xchacha_open(recv, ct.nonce@, aad, ct.ciphertext@) matches Some(b)
                    && crate::e2e::message::encrypted_payload::parse_payload(b) is Ok) ==> r is Ok
                // the message an initiator sealed for this responder is opened
                &&& S::never_fails() && m.identity_keypair is Some && m.midterm_key is Some && (
                kex_data.recipient_prekey_id matches Some(id) ==> m.ephemeral_keys.contains_key(id))
                    ==> forall|p: PayloadMessageView|
                    #[trigger] initiator_sealed(ik_b, spk, opk, *kex_data, p) && json_text(
                        payload_body(p),
                    ) && payload_bytes(p).len() < 64 * 0xffff_ffffnat ==> r is Ok && payload_outcome(r)
                        == Some(Ok::<PayloadMessageView, encrypted_payload::Error>(p))
                &&& r is Ok ==> {
                    &&& m.identity_keypair is Some
                    &&& m.midterm_key is Some
                    &&& (kex_data.recipient_prekey_id matches Some(id) ==> m.ephemeral_keys.contains_key(id))
                    &&& agrees(ik_b, spk, opk, ik_a, kex_data.ephemeral_prekey@)
                    &&& xchacha_open(recv, ct.nonce@, aad, ct.ciphertext@) matches Some(b)
                        && payload_outcome(r) == Some(
                        crate::e2e::message::encrypted_payload::parse_payload(b),
                    )
                    &&& forall|p: PayloadMessageView|
                        ct.ciphertext@ == #[trigger] xchacha_seal(
                            recv,
                            ct.nonce@,
                            aad,
                            payload_bytes(p),
                        ) && json_text(payload_body(p)) && payload_bytes(p).len() < 64
                            * 0xffff_ffffnat ==> payload_outcome(r) == Some(
                            Ok::<PayloadMessageView, encrypted_payload::Error>(p),
                        )
                    &&& exists|count: u64|
                        valid_key_msg_count(count) && final(self).sessions@ == old(
                            self,
                        ).sessions@.insert(
                            sender_id,
                            responder_session(
                                sender_id,
                                secret,
                                ik_a,
                                x25519_public(ik_b),
                                kex_data.send_key_id,
                                kex_data.receive_key_id,
                                count,
                            ),
                        )
                }
            }),
    {
        // Get the ephemeral prekey, which is used once
        let mut prekey: Option<[u8; 32]> = None;
        match kex_data.recipient_prekey_id {
            Some(id) => {
                match self.storage.pop_ephemeral_key(id) {
                    Ok(Some(k)) => {
                        prekey = Some(k);
                    },
                    Ok(None) => {
                        assert(self.storage.model().ephemeral_keys =~= old(
                            self,
                        ).storage.model().ephemeral_keys);
                        return Err(Error::NoSuchPrekey(id));
                    },
                    Err(e) => return Err(Error::StorageBackendError(e)),
                }
            },
            None => {},
        }
        let ghost m = old(self).storage.model();
        let midterm_key = match self.storage.midterm_key() {
            Ok(k) => k,
            Err(e) => return Err(Error::StorageBackendError(e)),
        };
        let identity_key = match self.storage.identity_keypair() {
            Ok(k) => k.x25519_secret,
            Err(e) => return Err(Error::StorageBackendError(e)),
        };
        let ghost opk = match kex_data.recipient_prekey_id {
            Some(id) => Some(m.ephemeral_keys[id]@),
            None => None::<Seq<u8>>,
        };
        let (payload, recv_key, send_key) = match open_initial_message(
            &identity_key,
            &midterm_key,
            prekey,
            kex_data,
        ) {
            Ok(o) => o,
            Err(e) => {
                proof {
                    assert forall|p: PayloadMessageView|
                        !(#[trigger] initiator_sealed(
                            identity_key@,
                            midterm_key@,
                            opk,
                            *kex_data,
                            p,
                        ) && json_text(payload_body(p)) && payload_bytes(p).len() < 64
                            * 0xffff_ffffnat) by {
                        if initiator_sealed(identity_key@, midterm_key@, opk, *kex_data, p) {
                            lemma_sealed_under_responder_key(
                                identity_key@,
                                midterm_key@,
                                opk,
                                *kex_data,
                                p,
                            );
                        }
                    }
                }
                return Err(e);
            },
        };
        proof {
            assert forall|p: PayloadMessageView|
                #[trigger] initiator_sealed(identity_key@, midterm_key@, opk, *kex_data, p)
                    && json_text(payload_body(p)) && payload_bytes(p).len() < 64 * 0xffff_ffffnat
                implies payload@ == p by {
                lemma_sealed_under_responder_key(identity_key@, midterm_key@, opk, *kex_data, p);
            }
        }

        // Save the sender's public keys, then the keys and session information; key ids
        // are inverted since they are from the sender's point of view
        match self.storage.set_user_public_keys(sender_id, kex_data.identity_key) {
            Ok(()) => {},
            Err(e) => return Err(Error::StorageBackendError(e)),
        }
        match self.storage.add_session_key(sender_id, kex_data.send_key_id, recv_key) {
            Ok(()) => {},
            Err(e) => return Err(Error::StorageBackendError(e)),
        }
        match self.storage.add_session_key(sender_id, kex_data.receive_key_id, send_key) {
            Ok(()) => {},
            Err(e) => return Err(Error::StorageBackendError(e)),
        }
        let key_msg_count = draw_key_msg_count(&mut self.rng);
        let sess = E2ESession {
            correspondant_id: sender_id,
            sending_key_id: kex_data.receive_key_id,
            sending_key: send_key,
            key_msg_count,
            receiving_key_id: kex_data.send_key_id,
            receiving_key: recv_key,
        };
        match self.storage.save_session(&sess) {
            Ok(()) => {},
            Err(e) => return Err(Error::StorageBackendError(e)),
        }
        self.sessions.insert(sender_id, sess);
        proof {
            let secret = responder_secret(
                identity_key@,
                midterm_key@,
                opk,
                kex_data.identity_key.x25519@,
                kex_data.ephemeral_prekey@,
            );
            lemma_array_of_unique(send_key, spec_kdf(secret + x25519_public(identity_key@)));
            lemma_array_of_unique(recv_key, spec_kdf(secret + kex_data.identity_key.x25519@));
            let aad = session_aad(
                kex_data.identity_key.x25519@,
                x25519_public(identity_key@),
                kex_data.send_key_id,
                kex_data.receive_key_id,
            );
            let recv = spec_kdf(secret + kex_data.identity_key.x25519@);
            assert(opk == secret_opt_view(prekey));
            assert forall|p: PayloadMessageView|
                kex_data.msg_ciphertext.ciphertext@ == #[trigger] xchacha_seal(
                    recv,
                    kex_data.msg_ciphertext.nonce@,
                    aad,
                    payload_bytes(p),
                ) && json_text(payload_body(p)) && payload_bytes(p).len() < 64 * 0xffff_ffffnat
                    implies payload@ == p by {}
            assert(self.storage.model().session_keys =~= add_session_keys(
                m.session_keys,
                sess,
            ));
            assert(self.storage.model().ephemeral_keys =~= match kex_data.recipient_prekey_id {
                Some(id) => m.ephemeral_keys.remove(id),
                None => m.ephemeral_keys,
            });
        }
        Ok(payload)
    }
}

} // verus!
