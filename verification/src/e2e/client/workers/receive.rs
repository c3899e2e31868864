//! The decisions of the receiving worker
//!
//! The worker takes the packets the server sends: it hands the responses to tagged
//! requests to the tasks that wait for them, opens the sessions other users start, and
//! decrypts conversation messages. A payload whose key it does not know yet waits in a
//! cache until the key rotation that announces the key, and messages that come out of a
//! payload wait in a queue before the next packet. Reading packets, parsing serialized
//! messages and handing out chat messages is left to the caller, which runs the loop.

use std::collections::VecDeque;

use vstd::prelude::*;

use crate::e2e::{
    client::{
        error::{Error, Result},
        payload_cache::{
            cached_payloads, find, kept, lemma_find, users_after_take, views, PayloadCache,
            PayloadCacheView,
            UserPayloadCacheView,
        },
        state::{
            next_key, receiving_rotated, valid_key_msg_count, with_session_key, E2EClientState,
        },
        x3dh::{agrees, responder_secret, responder_session, session_aad},
    },
    kdf::spec_kdf,
    keys::{storage_backend::E2EStorageBackend, SymetricKey},
    message::{
        encrypted_payload::{
            self, decrypted_payload, parse_payload, EncryptedPayload, EncryptedPayloadView,
            PayloadMessage, PayloadMessageView,
        },
        E2EMessage, E2EPacket, KeyExchangeData,
    },
};
use crate::primitives::{x25519_public, xchacha_open};

verus! {

broadcast use vstd::std_specs::hash::group_hash_axioms;

/// Number of users whose undecipherable payloads the worker keeps
pub const CACHED_USERS: usize = 100;

/// Number of undecipherable payloads the worker keeps for each user
pub const CACHED_PAYLOADS_PER_USER: usize = 50;

/// What the caller of the worker does once the worker took a message
#[derive(Debug)]
pub enum ReceiveAction {
    /// Nothing more
    Nothing,
    /// Hand the message to the task that waits for the response to this request
    Respond(u16, E2EMessage),
    /// Hand out this serialized chat message
    Deliver(Vec<u8>),
    /// Hand out this serialized chat message, the first of a session this user opened
    DeliverOpening(u128, Vec<u8>),
    /// Parse this serialized E2E message, which came out of a payload of this user, and
    /// hand it back with [`ReceiveWorker::process_e2e_payload`]
    Parse(u128, Vec<u8>),
    /// The payload of a conversation message could not be decrypted and is dropped
    Undecryptable(Error),
    /// The worker does not expect this message and drops it
    Unexpected(E2EMessage),
}

/// The receiving worker: its cache of undecipherable payloads and its queue of messages
pub struct ReceiveWorker {
    /// Cache for undecipherable payloads, to handle out-of-order messages during key
    /// rotation or session creation
    pub cache: PayloadCache,
    /// Messages queued for processing
    pub queue: VecDeque<E2EMessage>,
}

/// The contents of a [`ReceiveWorker`]
pub struct ReceiveWorkerView {
    pub cache: PayloadCacheView,
    pub queue: Seq<E2EMessage>,
}

impl View for ReceiveWorker {
    type V = ReceiveWorkerView;

    open spec fn view(&self) -> ReceiveWorkerView {
        ReceiveWorkerView { cache: self.cache@, queue: self.queue@ }
    }
}

// region:    Specifications

/// The key that decrypts the payloads of a user announced under `key_id`: the receiving
/// key of the session, or an older one of the storage
pub open spec fn known_key<S: E2EStorageBackend>(s: E2EClientState<S>, user: u128, key_id: u128) -> Option<
    SymetricKey,
> {
    let sess = s.sessions@[user];
    if key_id == sess.receiving_key_id {
        Some(sess.receiving_key)
    } else {
        s.storage.model().session_keys.get((user, key_id))
    }
}

/// Whether `r` hands out what the decryption of a payload of `sender` gave
pub open spec fn decryption_action(
    sender: u128,
    d: core::result::Result<PayloadMessageView, encrypted_payload::Error>,
    r: Result<ReceiveAction>,
) -> bool {
    match d {
        Ok(PayloadMessageView::ChatMessage(m)) => r matches Ok(ReceiveAction::Deliver(x)) && x@ == m,
        Ok(PayloadMessageView::E2EMessage(m)) => r matches Ok(ReceiveAction::Parse(u, x)) && u
            == sender && x@ == m,
        Err(e) => r == Ok::<ReceiveAction, Error>(
            ReceiveAction::Undecryptable(Error::EncryptedPayloadError(e)),
        ),
    }
}

/// What the worker does with a conversation message of `sender`: the state does not
/// change, a payload with a known key is decrypted, one with an unknown key is kept
pub open spec fn conversation_processed<S: E2EStorageBackend>(
    w0: ReceiveWorkerView,
    s0: E2EClientState<S>,
    sender: u128,
    ct: EncryptedPayloadView,
    w1: ReceiveWorkerView,
    s1: E2EClientState<S>,
    r: Result<ReceiveAction>,
) -> bool {
    let storage_failed = r matches Ok(ReceiveAction::Undecryptable(Error::StorageBackendError(_)));
    &&& s1 == s0
    &&& w1.queue == w0.queue
    &&& !s0.sessions@.contains_key(sender) ==> r == Ok::<ReceiveAction, Error>(
        ReceiveAction::Undecryptable(Error::NoSession(sender)),
    ) && w1.cache == w0.cache
    &&& s0.sessions@.contains_key(sender) && ct.key_id == s0.sessions@[sender].receiving_key_id
        ==> w1.cache == w0.cache && decryption_action(
        sender,
        decrypted_payload(s0.sessions@[sender].receiving_key@, ct),
        r,
    )
    &&& s0.sessions@.contains_key(sender) && ct.key_id != s0.sessions@[sender].receiving_key_id
        ==> match s0.storage.model().session_keys.get((sender, ct.key_id)) {
        Some(k) => w1.cache == w0.cache && (storage_failed || decryption_action(
            sender,
            decrypted_payload(k@, ct),
            r,
        )),
        None => (r == Ok::<ReceiveAction, Error>(ReceiveAction::Nothing) && kept(
            w0.cache,
            w1.cache,
            sender,
            ct.key_id,
            ct,
        )) || (storage_failed && w1.cache == w0.cache),
    }
}

/// The payload the opening of a session gave, as `r` holds it
pub open spec fn opening_payload(r: Result<ReceiveAction>) -> Option<PayloadMessageView> {
    match r {
        Ok(ReceiveAction::DeliverOpening(_, m)) => Some(PayloadMessageView::ChatMessage(m@)),
        Err(Error::UnexpectedE2EPayload(m)) => Some(PayloadMessageView::E2EMessage(m@)),
        _ => None,
    }
}

/// Whether the state `s1` is `s0` once `sender` opened a session with the key exchange
/// data `kex_data`, as [`E2EClientState::handle_open_session`] opens it, and `p` is the
/// payload of its first message, none where the opening failed
pub open spec fn session_opened<S: E2EStorageBackend>(
    s0: E2EClientState<S>,
    sender: u128,
    kex_data: KeyExchangeData,
    s1: E2EClientState<S>,
    p: Option<PayloadMessageView>,
) -> bool {
    let m = s0.storage.model();
    let opk = match kex_data.recipient_prekey_id {
        Some(id) => Some(m.ephemeral_keys[id]@),
        None => None::<Seq<u8>>,
    };
    let ik_b = m.identity_keypair->0.x25519_secret@;
    let spk = m.midterm_key->0@;
    let ik_a = kex_data.identity_key.x25519@;
    let secret = responder_secret(ik_b, spk, opk, ik_a, kex_data.ephemeral_prekey@);
    let recv = spec_kdf(secret + ik_a);
    let aad = session_aad(ik_a, x25519_public(ik_b), kex_data.send_key_id, kex_data.receive_key_id);
    let ct = kex_data.msg_ciphertext;
    &&& s1.account == s0.account
    &&& s1.next_request_id() == s0.next_request_id()
    &&& s1.waiting_requests() == s0.waiting_requests()
    &&& p is None ==> s1.sessions@ == s0.sessions@
    &&& (kex_data.recipient_prekey_id matches Some(id) && !m.ephemeral_keys.contains_key(id))
        ==> p is None
    &&& m.identity_keypair is None ==> p is None
    &&& m.midterm_key is None ==> p is None
    &&& p matches Some(p) ==> ({
        &&& agrees(ik_b, spk, opk, ik_a, kex_data.ephemeral_prekey@)
        &&& (xchacha_open(recv, ct.nonce@, aad, ct.ciphertext@) matches Some(b) && parse_payload(b)
            == Ok::<PayloadMessageView, encrypted_payload::Error>(p))
        &&& exists|count: u64|
            valid_key_msg_count(count) && s1.sessions@ == s0.sessions@.insert(
                sender,
                responder_session(
                    sender,
                    secret,
                    ik_a,
                    x25519_public(ik_b),
                    kex_data.send_key_id,
                    kex_data.receive_key_id,
                    count,
                ),
            )
    })
}

/// Whether `e` is an error that opening a session gives
pub open spec fn opening_error(e: Error) -> bool {
    e is StorageBackendError || e is NoSuchPrekey || e is EncryptedPayloadError
}

/// What the worker does with the opening of a session by `sender`: the session opens, and
/// its first payload must be a chat message
pub open spec fn opening_processed<S: E2EStorageBackend>(
    w0: ReceiveWorkerView,
    s0: E2EClientState<S>,
    sender: u128,
    kex_data: KeyExchangeData,
    w1: ReceiveWorkerView,
    s1: E2EClientState<S>,
    r: Result<ReceiveAction>,
) -> bool {
    &&& w1 == w0
    &&& session_opened(s0, sender, kex_data, s1, opening_payload(r))
    &&& r matches Ok(a) ==> (a matches ReceiveAction::DeliverOpening(u, _) && u == sender)
    &&& opening_payload(r) is None ==> (r matches Err(e) && opening_error(e))
}

/// What the worker does with a message, whether it came from the server or from its queue
pub open spec fn message_processed<S: E2EStorageBackend>(
    w0: ReceiveWorkerView,
    s0: E2EClientState<S>,
    msg: E2EMessage,
    w1: ReceiveWorkerView,
    s1: E2EClientState<S>,
    r: Result<ReceiveAction>,
) -> bool {
    match msg {
        E2EMessage::ConversationOpen { sender_id, data } => opening_processed(
            w0,
            s0,
            sender_id,
            data,
            w1,
            s1,
            r,
        ),
        E2EMessage::ConversationMessage { sender_id, msg_ciphertext } => conversation_processed(
            w0,
            s0,
            sender_id,
            msg_ciphertext@,
            w1,
            s1,
            r,
        ),
        E2EMessage::Okay => r == Ok::<ReceiveAction, Error>(ReceiveAction::Nothing) && w1 == w0 && s1
            == s0,
        E2EMessage::Error { code } => r == Err::<ReceiveAction, Error>(Error::ProtocolError(code))
            && w1 == w0 && s1 == s0,
        _ => r == Ok::<ReceiveAction, Error>(ReceiveAction::Unexpected(msg)) && w1 == w0 && s1 == s0,
    }
}

/// Whether `q` holds, in order, the payloads `ps` as conversation messages of `sender`
pub open spec fn conversation_messages(sender: u128, ps: Seq<EncryptedPayloadView>, q: Seq<E2EMessage>) -> bool {
    &&& q.len() == ps.len()
    &&& forall|i: int|
        0 <= i < q.len() ==> (#[trigger] q[i] matches E2EMessage::ConversationMessage {
            sender_id,
            msg_ciphertext,
        } && sender_id == sender && msg_ciphertext@ == ps[i])
}

/// What the worker does with a key rotation of `sender`: the receiving key of the session
/// moves on, and the payloads kept for the new key, then the message the rotation carries,
/// go to the front of the queue
pub open spec fn key_rotation_processed<S: E2EStorageBackend>(
    w0: ReceiveWorkerView,
    s0: E2EClientState<S>,
    sender: u128,
    nonce: Seq<u8>,
    next_key_id: u128,
    inner: Option<EncryptedPayload>,
    w1: ReceiveWorkerView,
    s1: E2EClientState<S>,
    r: Result<()>,
) -> bool {
    let s = s0.sessions@[sender];
    let k = next_key(s.receiving_key, nonce);
    let first = match inner {
        Some(c) => seq![c@],
        None => Seq::<EncryptedPayloadView>::empty(),
    };
    let front = first + cached_payloads(w0.cache, sender, next_key_id);
    &&& s1.account == s0.account
    &&& s1.next_request_id() == s0.next_request_id()
    &&& s1.waiting_requests() == s0.waiting_requests()
    &&& !s0.sessions@.contains_key(sender) ==> (r matches Err(Error::NoSession(id)) && id == sender
        && s1.sessions@ == s0.sessions@ && s1.storage == s0.storage && w1 == w0)
    &&& s0.sessions@.contains_key(sender) ==> s1.sessions@ == s0.sessions@.insert(
        sender,
        receiving_rotated(s, nonce, next_key_id),
    )
    &&& r matches Err(e) ==> ((e is NoSession || e is StorageBackendError) && w1 == w0)
    &&& S::never_fails() && s0.sessions@.contains_key(sender) ==> r is Ok
    &&& r is Ok ==> ({
        &&& s1.storage.model() == with_session_key(s0.storage.model(), sender, next_key_id, k)
        &&& w1.cache.users == users_after_take(w0.cache, sender, next_key_id)
        &&& w1.cache.max_msgs_per_user == w0.cache.max_msgs_per_user
        &&& front.len() <= w1.queue.len()
        &&& conversation_messages(sender, front, w1.queue.take(front.len() as int))
        &&& w1.queue.skip(front.len() as int) == w0.queue
    })
}

// endregion: Specifications

impl ReceiveWorker {
    /// The invariant of the worker: the one of its cache
    pub open spec fn wf(&self) -> bool {
        self.cache@.wf()
    }

    /// A worker with an empty queue, whose cache keeps the payloads of
    /// [`CACHED_USERS`] users, [`CACHED_PAYLOADS_PER_USER`] each
    pub fn new() -> (r: Self)
        ensures
            r.wf(),
            r@.queue == Seq::<E2EMessage>::empty(),
            r@.cache.users == Seq::<(u128, UserPayloadCacheView)>::empty(),
            r@.cache.users_capacity == CACHED_USERS,
            r@.cache.max_msgs_per_user == CACHED_PAYLOADS_PER_USER,
    {
        // 100 users with each 50 messages will be ~320-350kb in memory when full
        ReceiveWorker {
            cache: PayloadCache::new(CACHED_USERS, CACHED_PAYLOADS_PER_USER),
            queue: VecDeque::new(),
        }
    }

    /// Take a packet from the server
    ///
    /// A packet tagged with a request that waits for its response is handed to that
    /// request; any other packet is processed as a message.
    pub fn handle_packet<S: E2EStorageBackend>(
        &mut self,
        state: &mut E2EClientState<S>,
        packet: E2EPacket,
    ) -> (r: Result<ReceiveAction>)
        requires
            old(self).wf(),
            old(state).inv(),
        ensures
            final(self).wf(),
            final(state).inv(),
            packet.request_id != 0 && old(state).waiting_requests().contains(packet.request_id) ==> {
                &&& r == Ok::<ReceiveAction, Error>(
                    ReceiveAction::Respond(packet.request_id, packet.message),
                )
                &&& final(self)@ == old(self)@
                &&& final(state).waiting_requests() == old(state).waiting_requests().remove(
                    packet.request_id,
                )
                &&& final(state).next_request_id() == old(state).next_request_id()
                &&& final(state).account == old(state).account
                &&& final(state).storage == old(state).storage
                &&& final(state).sessions@ == old(state).sessions@
            },
            !(packet.request_id != 0 && old(state).waiting_requests().contains(packet.request_id))
                ==> message_processed(
                old(self)@,
                *old(state),
                packet.message,
                final(self)@,
                *final(state),
                r,
            ),
    {
        // Handle synchronous packets
        if packet.request_id != 0 && state.waiting_requests.contains(&packet.request_id) {
            // Dispatch the packet to the corresponding request
            let _ = state.take_waiting_request(packet.request_id);
            return Ok(ReceiveAction::Respond(packet.request_id, packet.message));
        }
        self.process_message(state, packet.message)
    }

    /// Process the next queued message, if there is one
    pub fn process_next_queued<S: E2EStorageBackend>(&mut self, state: &mut E2EClientState<S>) -> (r:
        Option<Result<ReceiveAction>>)
        requires
            old(self).wf(),
            old(state).inv(),
        ensures
            final(self).wf(),
            final(state).inv(),
            old(self)@.queue.len() == 0 ==> r is None && final(self)@ == old(self)@ && *final(state)
                == *old(state),
            old(self)@.queue.len() > 0 ==> (r matches Some(res) && message_processed(
                ReceiveWorkerView { queue: old(self)@.queue.drop_first(), ..old(self)@ },
                *old(state),
                old(self)@.queue[0],
                final(self)@,
                *final(state),
                res,
            )),
    {
        match self.queue.pop_front() {
            Some(msg) => Some(self.process_message(state, msg)),
            None => None,
        }
    }

    /// Process an [`E2EMessage`]
    ///
    /// Only returns irrecoverable errors that should stop the worker
    pub fn process_message<S: E2EStorageBackend>(
        &mut self,
        state: &mut E2EClientState<S>,
        message: E2EMessage,
    ) -> (r: Result<ReceiveAction>)
        requires
            old(self).wf(),
            old(state).inv(),
        ensures
            final(self).wf(),
            final(state).inv(),
            message_processed(old(self)@, *old(state), message, final(self)@, *final(state), r),
    {
        match message {
            // Handle conversation opening
            E2EMessage::ConversationOpen { sender_id, data } => self.process_open_session(
                state,
                sender_id,
                &data,
            ),
            // Handle normal conversation messages
            E2EMessage::ConversationMessage { sender_id, msg_ciphertext } => {
                self.process_conversation_message(state, sender_id, msg_ciphertext)
            },
            // Silently drop OK messages
            E2EMessage::Okay => Ok(ReceiveAction::Nothing),
            // Exit on error
            E2EMessage::Error { code } => Err(Error::ProtocolError(code)),
            // Drop unexpected messages
            m => Ok(ReceiveAction::Unexpected(m)),
        }
    }

    /// Process a [`ConversationOpen`] message, performing key exchange and creating the
    /// session
    ///
    /// Only returns unrecoverable errors.
    ///
    /// [`ConversationOpen`]: E2EMessage::ConversationOpen
    fn process_open_session<S: E2EStorageBackend>(
        &mut self,
        state: &mut E2EClientState<S>,
        sender_id: u128,
        data: &KeyExchangeData,
    ) -> (r: Result<ReceiveAction>)
        requires
            old(self).wf(),
            old(state).inv(),
        ensures
            final(self).wf(),
            final(state).inv(),
            opening_processed(old(self)@, *old(state), sender_id, *data, final(self)@, *final(state), r),
    {
        let payload = state.handle_open_session(sender_id, data);
        // Get the initial chat message
        match payload {
            Ok(PayloadMessage::ChatMessage(m)) => Ok(ReceiveAction::DeliverOpening(sender_id, m)),
            Ok(PayloadMessage::E2EMessage(m)) => Err(Error::UnexpectedE2EPayload(m)),
            Err(e) => Err(e),
        }
    }

    /// Process a [`ConversationMessage`] message
    ///
    /// [`ConversationMessage`]: E2EMessage::ConversationMessage
    fn process_conversation_message<S: E2EStorageBackend>(
        &mut self,
        state: &mut E2EClientState<S>,
        sender_id: u128,
        ciphertext: EncryptedPayload,
    ) -> (r: Result<ReceiveAction>)
        requires
            old(self).wf(),
            old(state).inv(),
        ensures
            final(self).wf(),
            final(state).inv(),
            conversation_processed(
                old(self)@,
                *old(state),
                sender_id,
                ciphertext@,
                final(self)@,
                *final(state),
                r,
            ),
    {
        // Decrypt the message
        match state.decrypt_payload(sender_id, &ciphertext) {
            Ok(PayloadMessage::ChatMessage(m)) => Ok(ReceiveAction::Deliver(m)),
            Ok(PayloadMessage::E2EMessage(m)) => Ok(ReceiveAction::Parse(sender_id, m)),
            // Keep undecipherable payloads in case the key rotation message arrives later
            Err(Error::NoSessionKey(_, key_id)) => {
                let _ = self.cache.push(sender_id, key_id, ciphertext);
                Ok(ReceiveAction::Nothing)
            },
            Err(e) => Ok(ReceiveAction::Undecryptable(e)),
        }
    }

    /// Take back an E2E message that came out of a payload of `sender_id`
    ///
    /// A key rotation moves the receiving key on and queues the message it carries;
    /// another message is queued first.
    pub fn process_e2e_payload<S: E2EStorageBackend>(
        &mut self,
        state: &mut E2EClientState<S>,
        sender_id: u128,
        message: E2EMessage,
    ) -> (r: Result<()>)
        requires
            old(self).wf(),
            old(state).inv(),
        ensures
            final(self).wf(),
            final(state).inv(),
            match message {
                E2EMessage::KeyRotation { nonce, key_id, message: inner, padding: _ } => key_rotation_processed(
                    old(self)@,
                    *old(state),
                    sender_id,
                    nonce@,
                    key_id,
                    inner,
                    final(self)@,
                    *final(state),
                    r,
                ),
                _ => r is Ok && final(self)@ == ReceiveWorkerView {
                    queue: seq![message] + old(self)@.queue,
                    ..old(self)@
                } && *final(state) == *old(state),
            },
    {
        match message {
            E2EMessage::KeyRotation { nonce, key_id, message, padding: _ } => {
                match self.process_key_rotation(state, sender_id, nonce.as_slice(), key_id) {
                    Ok(()) => {},
                    Err(e) => return Err(e),
                }
                // Add the contained message to the queue if there is one
                let ghost cached = cached_payloads(old(self)@.cache, sender_id, key_id);
                let ghost q1 = self.queue@;
                match message {
                    Some(msg_ciphertext) => {
                        let ghost c = msg_ciphertext@;
                        self.queue.push_front(
                            E2EMessage::ConversationMessage { sender_id, msg_ciphertext },
                        );
                        proof {
                            assert(Seq::<EncryptedPayloadView>::empty() + cached =~= cached);
                            let front = seq![c] + cached;
                            let t = self.queue@.take(front.len() as int);
                            let t1 = q1.take(cached.len() as int);
                            assert(t =~= seq![self.queue@[0]] + t1);
                            assert(self.queue@.skip(front.len() as int) =~= q1.skip(cached.len() as int));
                            assert forall|i: int| 0 <= i < t.len() implies (#[trigger] t[i] matches E2EMessage::ConversationMessage {
                                sender_id: u,
                                msg_ciphertext,
                            } && u == sender_id && msg_ciphertext@ == front[i]) by {
                                if i > 0 {
                                    assert(t[i] == t1[i - 1]);
                                    assert(front[i] == cached[i - 1]);
                                }
                            }
                        }
                    },
                    None => {
                        proof {
                            assert(Seq::<EncryptedPayloadView>::empty() + cached =~= cached);
                        }
                    },
                }
                Ok(())
            },
            m => {
                self.queue.push_front(m);
                Ok(())
            },
        }
    }

    /// Process a [`KeyRotation`] message: the receiving key moves on, and the payloads
    /// kept for the new key go to the front of the queue, in the order they came
    ///
    /// [`KeyRotation`]: E2EMessage::KeyRotation
    fn process_key_rotation<S: E2EStorageBackend>(
        &mut self,
        state: &mut E2EClientState<S>,
        sender_id: u128,
        nonce: &[u8],
        next_key_id: u128,
    ) -> (r: Result<()>)
        requires
            old(self).wf(),
            old(state).inv(),
        ensures
            final(self).wf(),
            final(state).inv(),
            key_rotation_processed(
                old(self)@,
                *old(state),
                sender_id,
                nonce@,
                next_key_id,
                None,
                final(self)@,
                *final(state),
                r,
            ),
    {
        match state.process_key_rotation(sender_id, nonce, next_key_id) {
            Ok(()) => {},
            Err(e) => return Err(e),
        }
        let ghost q0 = self.queue@;
        let ghost c0 = self.cache@;
        proof {
            lemma_find(c0.users, sender_id);
            if find(c0.users, sender_id) >= 0 {
                lemma_find(c0.users[find(c0.users, sender_id)].1.queues, next_key_id);
            }
        }
        // Process queued messages for this key
        match self.cache.pop(sender_id, next_key_id) {
            Some(mut payloads) => {
                let ghost ps = views(payloads@);
                let ghost c1 = self.cache@;
                // Add the payloads to the front of the queue, in the same order as the
                // cached queue
                while payloads.len() > 0
                    invariant
                        self.cache@ == c1,
                        c1.wf(),
                        ps.len() == views(payloads@).len() + (self.queue@.len() - q0.len()),
                        views(payloads@) == ps.take(views(payloads@).len() as int),
                        self.queue@.len() >= q0.len(),
                        conversation_messages(
                            sender_id,
                            ps.skip(views(payloads@).len() as int),
                            self.queue@.take(self.queue@.len() - q0.len()),
                        ),
                        self.queue@.skip(self.queue@.len() - q0.len()) == q0,
                    decreases payloads.len(),
                {
                    let ghost n = payloads@.len();
                    let ghost before = payloads@;
                    let p = payloads.pop_back().unwrap();
                    let ghost q1 = self.queue@;
                    self.queue.push_front(
                        E2EMessage::ConversationMessage { sender_id, msg_ciphertext: p },
                    );
                    proof {
                        let k = (n - 1) as int;
                        assert(views(payloads@) =~= ps.take(k));
                        assert(views(before)[k] == ps.take(n as int)[k]);
                        assert(p@ == ps[k]);
                        assert(ps.skip(k) =~= seq![ps[k]] + ps.skip(k + 1));
                        let t = self.queue@.take(self.queue@.len() - q0.len());
                        let t1 = q1.take(q1.len() - q0.len());
                        assert(t =~= seq![self.queue@[0]] + t1);
                        assert forall|i: int| 0 <= i < t.len() implies (#[trigger] t[i] matches E2EMessage::ConversationMessage {
                            sender_id: u,
                            msg_ciphertext,
                        } && u == sender_id && msg_ciphertext@ == ps.skip(k)[i]) by {
                            if i > 0 {
                                assert(t[i] == t1[i - 1]);
                                assert(ps.skip(k)[i] == ps.skip(k + 1)[i - 1]);
                            }
                        }
                        assert(self.queue@.skip(self.queue@.len() - q0.len()) =~= q1.skip(
                            q1.len() - q0.len(),
                        ));
                        assert(self.queue@.take(self.queue@.len() - q0.len()) =~= seq![
                            self.queue@[0],
                        ] + q1.take(q1.len() - q0.len()));
                    }
                }
                proof {
                    assert(ps.skip(0) =~= ps);
                    assert(self.queue@.len() >= ps.len());
                    assert(cached_payloads(c0, sender_id, next_key_id) == ps);
                    assert(Seq::<EncryptedPayloadView>::empty() + ps =~= ps);
                }
            },
            None => {
                proof {
                    assert(cached_payloads(c0, sender_id, next_key_id) == Seq::<EncryptedPayloadView>::empty());
                    assert(self.queue@.take(0) =~= Seq::<E2EMessage>::empty());
                    assert(self.queue@.skip(0) =~= q0);
                }
            },
        }
        Ok(())
    }
}

} // verus!
