//! Utility iterator for initial client synchronization
//!
//! The iterator asks the server for the messages it kept while the client was away, in
//! batches: first the initial messages, then the conversation messages. It opens the
//! sessions, decrypts the messages with the keys it learns on the way, keeps the payloads
//! whose key comes later, and hands out the chat messages. Sending the requests and
//! parsing serialized messages is left to its caller, which runs the loop.
//!
//! ## Warning
//!
//! The iterator must be **entirely** consumed until it stops or returns an error, as the
//! server deletes messages after sending them to the client, and remaining unprocessed
//! messages could be lost.

use std::collections::{HashMap, VecDeque};

use vstd::prelude::*;

use crate::{
    bytes::{extend_bytes, lemma_array_of_unique},
    e2e::{
        client::{
            error::{Error, Result},
            payload_cache::views,
            state::{next_key, E2EClientState},
            workers::receive::{conversation_messages, session_opened},
        },
        kdf::{kdf, spec_kdf},
        keys::{storage_backend::E2EStorageBackend, SymetricKey},
        message::{
            encrypted_payload::{
                decrypted_payload, EncryptedPayload, EncryptedPayloadView, PayloadMessage,
                PayloadMessageView,
            },
            E2EMessage, KeyExchangeData,
        },
    },
};

verus! {

broadcast use vstd::std_specs::hash::group_hash_axioms;

/// Number of messages to fetch on each batch
pub const SYNC_BATCH_SIZE: u64 = 100;

/// The step of synchronization
#[derive(Debug, Clone, Copy, PartialEq, Eq, Structural)]
pub enum SynchronizationStep {
    /// There are initial messages we need to sync on the server
    InitialMessages,
    /// There are conversation messages we need to sync on the server
    Messages,
    /// There are no other messages stored on the server
    NoMoreMessages,
}

/// Information on a session with multiple decryption keys
pub struct SessionKeys {
    /// Id of the most recent key that should be saved for further decryption
    pub last_key_id: u128,
    /// Known keys for the session
    pub keys: HashMap<u128, SymetricKey>,
}

/// The contents of [`SessionKeys`]
pub struct SessionKeysView {
    pub last_key_id: u128,
    pub keys: Map<u128, SymetricKey>,
}

impl View for SessionKeys {
    type V = SessionKeysView;

    open spec fn view(&self) -> SessionKeysView {
        SessionKeysView { last_key_id: self.last_key_id, keys: self.keys@ }
    }
}

/// What the caller of the iterator does next
#[derive(Debug)]
pub enum SyncAction {
    /// Hand out this serialized chat message
    Yield(Vec<u8>),
    /// Send this request, authenticated, and hand its response to
    /// [`SyncIterator::handle_batch`]
    Request(E2EMessage),
    /// Synchronization is over
    Done,
}

/// What came of a message the iterator processed
#[derive(Debug)]
pub enum SyncEvent {
    /// The message was processed; a chat message that came out of it is ready
    Processed,
    /// Parse this serialized E2E message, which came out of a payload of this user
    /// encrypted with this key, and hand it back with [`SyncIterator::process_e2e_payload`]
    Parse(u128, u128, Vec<u8>),
    /// The message could not be processed and is dropped
    Failed(Error),
    /// The iterator does not expect this message and drops it
    Unexpected(E2EMessage),
}

/// Utility iterator for initial client synchronization
///
/// Iterates over serialized chat messages while performing synchronization.
pub struct SyncIterator {
    /// Number of messages to fetch on each batch
    pub batch_size: u64,
    /// What step in the synchronization process the iterator is at
    pub step: SynchronizationStep,
    /// Available messages
    pub messages: Vec<Vec<u8>>,
    /// Messages received for which we don't have the key yet
    ///
    /// First key is user id, second key is the key_id for this user
    pub undecipherable_messages: HashMap<u128, HashMap<u128, Vec<EncryptedPayload>>>,
    /// Known session keys for a user id
    pub session_keys: HashMap<u128, SessionKeys>,
    /// Messages of the current batch that wait to be processed
    pub queue: VecDeque<E2EMessage>,
}

/// The contents of a [`SyncIterator`]
pub struct SyncIteratorView {
    pub batch_size: u64,
    pub step: SynchronizationStep,
    pub messages: Seq<Seq<u8>>,
    pub undecipherable: Map<u128, Map<u128, Seq<EncryptedPayloadView>>>,
    pub session_keys: Map<u128, SessionKeysView>,
    pub queue: Seq<E2EMessage>,
}

impl View for SyncIterator {
    type V = SyncIteratorView;

    open spec fn view(&self) -> SyncIteratorView {
        SyncIteratorView {
            batch_size: self.batch_size,
            step: self.step,
            messages: self.messages@.map_values(|m: Vec<u8>| m@),
            undecipherable: self.undecipherable_messages@.map_values(
                |u: HashMap<u128, Vec<EncryptedPayload>>| u@.map_values(|v: Vec<EncryptedPayload>| views(v@)),
            ),
            session_keys: self.session_keys@.map_values(|s: SessionKeys| s@),
            queue: self.queue@,
        }
    }
}

// region:    Specifications

/// The step after one whose batches ran out
pub open spec fn next_step(step: SynchronizationStep) -> SynchronizationStep {
    match step {
        SynchronizationStep::InitialMessages => SynchronizationStep::Messages,
        _ => SynchronizationStep::NoMoreMessages,
    }
}

/// The undecipherable payloads once `p` waits for the key `key_id` of `user`, after the
/// others
pub open spec fn with_undecipherable(
    m: Map<u128, Map<u128, Seq<EncryptedPayloadView>>>,
    user: u128,
    key_id: u128,
    p: EncryptedPayloadView,
) -> Map<u128, Map<u128, Seq<EncryptedPayloadView>>> {
    let um = if m.contains_key(user) {
        m[user]
    } else {
        Map::empty()
    };
    let q = if um.contains_key(key_id) {
        um[key_id]
    } else {
        Seq::empty()
    };
    m.insert(user, um.insert(key_id, q.push(p)))
}

/// The payload of the opening of a session, as the iterator kept it
pub open spec fn synced_opening(i1: SyncIteratorView, e: SyncEvent) -> Option<PayloadMessageView> {
    match e {
        SyncEvent::Processed => Some(PayloadMessageView::ChatMessage(i1.messages.last())),
        SyncEvent::Failed(Error::UnexpectedE2EPayload(m)) => Some(PayloadMessageView::E2EMessage(m@)),
        _ => None,
    }
}

/// What the iterator does with the opening of a session by `sender`: the session opens as
/// the client state opens it, and the chat message it carries is ready
pub open spec fn opening_synced<S: E2EStorageBackend>(
    i0: SyncIteratorView,
    s0: E2EClientState<S>,
    sender: u128,
    kex_data: KeyExchangeData,
    i1: SyncIteratorView,
    s1: E2EClientState<S>,
    e: SyncEvent,
) -> bool {
    &&& session_opened(s0, sender, kex_data, s1, synced_opening(i1, e))
    &&& e is Processed ==> i1 == SyncIteratorView { messages: i1.messages, ..i0 } && i1.messages.drop_last()
        == i0.messages && i1.messages.len() > 0
    &&& !(e is Processed) ==> i1 == i0 && e is Failed
}

/// What the iterator does with a conversation message of `sender`: it decrypts it with a
/// key it knows for the session, or keeps it for a key it will learn
pub open spec fn conversation_synced(
    i0: SyncIteratorView,
    sender: u128,
    ct: EncryptedPayloadView,
    i1: SyncIteratorView,
    e: SyncEvent,
) -> bool {
    &&& !i0.session_keys.contains_key(sender) ==> e == SyncEvent::Failed(Error::NoSession(sender))
        && i1 == i0
    &&& i0.session_keys.contains_key(sender) ==> match i0.session_keys[sender].keys.get(ct.key_id) {
        Some(k) => match decrypted_payload(k@, ct) {
            Ok(PayloadMessageView::ChatMessage(m)) => e is Processed && i1 == SyncIteratorView {
                messages: i0.messages.push(m),
                ..i0
            },
            Ok(PayloadMessageView::E2EMessage(m)) => (e matches SyncEvent::Parse(u, k, x) && u
                == sender && k == ct.key_id && x@ == m) && i1 == i0,
            Err(err) => e == SyncEvent::Failed(Error::EncryptedPayloadError(err)) && i1 == i0,
        },
        None => e is Processed && i1 == SyncIteratorView {
            undecipherable: with_undecipherable(i0.undecipherable, sender, ct.key_id, ct),
            ..i0
        },
    }
}

/// What the iterator does with a key rotation of `sender` from the key `previous_key_id`:
/// it learns the next key, then the message the rotation carries, then the payloads kept
/// for the key in the order they came, go to the front of the queue
pub open spec fn rotation_synced(
    i0: SyncIteratorView,
    sender: u128,
    previous_key_id: u128,
    nonce: Seq<u8>,
    next_key_id: u128,
    inner: Option<EncryptedPayload>,
    i1: SyncIteratorView,
    e: SyncEvent,
) -> bool {
    let keys = i0.session_keys[sender].keys;
    let k = next_key(keys[previous_key_id], nonce);
    let has_queue = i0.undecipherable.contains_key(sender) && i0.undecipherable[sender].contains_key(
        next_key_id,
    );
    let cached = if has_queue {
        i0.undecipherable[sender][next_key_id]
    } else {
        Seq::empty()
    };
    let first = match inner {
        Some(c) => seq![c@],
        None => Seq::<EncryptedPayloadView>::empty(),
    };
    let front = first + cached;
    &&& !i0.session_keys.contains_key(sender) ==> e == SyncEvent::Failed(Error::NoSession(sender))
        && i1 == i0
    &&& i0.session_keys.contains_key(sender) && !keys.contains_key(previous_key_id) ==> e
        == SyncEvent::Failed(Error::NoSessionKey(sender, previous_key_id)) && i1 == i0
    &&& i0.session_keys.contains_key(sender) && keys.contains_key(previous_key_id) ==> {
        &&& e is Processed
        &&& i1.batch_size == i0.batch_size
        &&& i1.step == i0.step
        &&& i1.messages == i0.messages
        &&& i1.session_keys == i0.session_keys.insert(
            sender,
            SessionKeysView { last_key_id: next_key_id, keys: keys.insert(next_key_id, k) },
        )
        &&& i1.undecipherable == if has_queue {
            i0.undecipherable.insert(sender, i0.undecipherable[sender].remove(next_key_id))
        } else {
            i0.undecipherable
        }
        &&& front.len() <= i1.queue.len()
        &&& conversation_messages(sender, front, i1.queue.take(front.len() as int))
        &&& i1.queue.skip(front.len() as int) == i0.queue
    }
}

/// What the iterator does with a message of a batch
pub open spec fn message_synced<S: E2EStorageBackend>(
    i0: SyncIteratorView,
    s0: E2EClientState<S>,
    msg: E2EMessage,
    i1: SyncIteratorView,
    s1: E2EClientState<S>,
    e: SyncEvent,
) -> bool {
    match msg {
        E2EMessage::ConversationOpen { sender_id, data } => opening_synced(
            i0,
            s0,
            sender_id,
            data,
            i1,
            s1,
            e,
        ),
        E2EMessage::ConversationMessage { sender_id, msg_ciphertext } => s1 == s0
            && conversation_synced(i0, sender_id, msg_ciphertext@, i1, e),
        _ => e == SyncEvent::Unexpected(msg) && i1 == i0 && s1 == s0,
    }
}

// endregion: Specifications

impl SyncIterator {
    /// An iterator at the first step, that knows no message and no key yet
    pub fn new() -> (r: Self)
        ensures
            r@.batch_size == SYNC_BATCH_SIZE,
            r@.step == SynchronizationStep::InitialMessages,
            r@.messages == Seq::<Seq<u8>>::empty(),
            r@.undecipherable == Map::<u128, Map<u128, Seq<EncryptedPayloadView>>>::empty(),
            r@.session_keys == Map::<u128, SessionKeysView>::empty(),
            r@.queue == Seq::<E2EMessage>::empty(),
    {
        let r = SyncIterator {
            batch_size: SYNC_BATCH_SIZE,
            step: SynchronizationStep::InitialMessages,
            messages: Vec::new(),
            undecipherable_messages: HashMap::new(),
            session_keys: HashMap::new(),
            queue: VecDeque::new(),
        };
        proof {
            assert(r@.messages =~= Seq::<Seq<u8>>::empty());
            assert(r@.undecipherable =~= Map::<u128, Map<u128, Seq<EncryptedPayloadView>>>::empty());
            assert(r@.session_keys =~= Map::<u128, SessionKeysView>::empty());
        }
        r
    }

    /// What to do next: hand out a ready chat message, the last one first, or fetch the
    /// next batch of messages from the server, or stop
    pub fn next_action(&mut self) -> (r: SyncAction)
        ensures
            old(self)@.messages.len() > 0 ==> (r matches SyncAction::Yield(m) && m@ == old(
                self,
            )@.messages.last()),
            old(self)@.messages.len() > 0 ==> final(self)@ == (SyncIteratorView {
                messages: old(self)@.messages.drop_last(),
                ..old(self)@
            }),
            old(self)@.messages.len() == 0 ==> final(self)@ == old(self)@,
            old(self)@.messages.len() == 0 ==> (match old(self)@.step {
                SynchronizationStep::InitialMessages => r matches SyncAction::Request(
                    E2EMessage::GetInitialMessages { token, limit },
                ) && token@ == Seq::<char>::empty() && limit == old(self)@.batch_size,
                SynchronizationStep::Messages => r matches SyncAction::Request(
                    E2EMessage::GetMessages { token, limit },
                ) && token@ == Seq::<char>::empty() && limit == old(self)@.batch_size,
                SynchronizationStep::NoMoreMessages => r is Done,
            }),
    {
        // Return already decrypted messages if available
        let ghost m0 = self.messages@;
        match self.messages.pop() {
            Some(m) => {
                proof {
                    assert(self@.messages =~= old(self)@.messages.drop_last());
                }
                return SyncAction::Yield(m);
            },
            None => {},
        }
        // Otherwise, fetch the next batch of messages from the server (the token is filled
        // in when sent), or stop
        match self.step {
            SynchronizationStep::InitialMessages => SyncAction::Request(
                E2EMessage::GetInitialMessages { token: String::new(), limit: self.batch_size },
            ),
            SynchronizationStep::Messages => SyncAction::Request(
                E2EMessage::GetMessages { token: String::new(), limit: self.batch_size },
            ),
            SynchronizationStep::NoMoreMessages => SyncAction::Done,
        }
    }

    /// Take the response to a batch request: the serialized messages of the batch, none
    /// when the step ran out of messages and the iterator moved to the next one
    pub fn handle_batch(&mut self, resp: E2EMessage) -> (r: Result<Option<Vec<Vec<u8>>>>)
        ensures
            (match resp {
                E2EMessage::MessagesList { messages } => if messages@.len() == 0 {
                    r matches Ok(None) && final(self)@ == (SyncIteratorView {
                        step: next_step(old(self)@.step),
                        ..old(self)@
                    })
                } else {
                    r matches Ok(Some(v)) && v == messages && final(self)@ == old(self)@
                },
                _ => r matches Err(Error::UnexpectedE2EMessage(m)) && m == resp && final(self)@ == old(
                    self,
                )@,
            }),
    {
        let messages = match resp {
            E2EMessage::MessagesList { messages } => messages,
            _ => return Err(Error::UnexpectedE2EMessage(resp)),
        };
        // No more messages on the server for this step, go to the next one
        if messages.len() == 0 {
            self.step = match self.step {
                SynchronizationStep::InitialMessages => SynchronizationStep::Messages,
                _ => SynchronizationStep::NoMoreMessages,
            };
            return Ok(None);
        }
        Ok(Some(messages))
    }

    /// Queue the messages of a batch, in order, after the ones that wait
    pub fn queue_batch(&mut self, messages: Vec<E2EMessage>) -> (r: ())
        ensures
            final(self)@ == (SyncIteratorView { queue: old(self)@.queue + messages@, ..old(self)@ }),
    {
        let ghost all = messages@;
        let mut rest = messages;
        let mut batch: VecDeque<E2EMessage> = VecDeque::new();
        while rest.len() > 0
            invariant
                rest@.len() <= all.len(),
                rest@ == all.take(rest@.len() as int),
                batch@ == all.skip(rest@.len() as int),
            decreases rest.len(),
        {
            let ghost n = rest@.len();
            let m = rest.pop().unwrap();
            batch.push_front(m);
            proof {
                assert(rest@ =~= all.take(n - 1));
                assert(batch@ =~= all.skip(n - 1));
            }
        }
        proof {
            assert(all.skip(0) =~= all);
        }
        self.queue.append(&mut batch);
    }

    /// Process the next message of the batch, if there is one
    pub fn process_next<S: E2EStorageBackend>(&mut self, state: &mut E2EClientState<S>) -> (r:
        Option<SyncEvent>)
        requires
            old(state).inv(),
        ensures
            final(state).inv(),
            old(self)@.queue.len() == 0 ==> r is None && final(self)@ == old(self)@ && *final(state)
                == *old(state),
            old(self)@.queue.len() > 0 ==> (r matches Some(e) && message_synced(
                SyncIteratorView { queue: old(self)@.queue.drop_first(), ..old(self)@ },
                *old(state),
                old(self)@.queue[0],
                final(self)@,
                *final(state),
                e,
            )),
    {
        let msg = match self.queue.pop_front() {
            Some(m) => m,
            None => return None,
        };
        match msg {
            E2EMessage::ConversationOpen { sender_id, data } => Some(
                self.process_open_conversation(state, sender_id, &data),
            ),
            E2EMessage::ConversationMessage { sender_id, msg_ciphertext } => Some(
                self.process_conversation_message(sender_id, msg_ciphertext),
            ),
            m => Some(SyncEvent::Unexpected(m)),
        }
    }

    /// Process a [`ConversationOpen`] message, performing key exchange and creating the
    /// session
    ///
    /// [`ConversationOpen`]: E2EMessage::ConversationOpen
    fn process_open_conversation<S: E2EStorageBackend>(
        &mut self,
        state: &mut E2EClientState<S>,
        sender_id: u128,
        data: &KeyExchangeData,
    ) -> (r: SyncEvent)
        requires
            old(state).inv(),
        ensures
            final(state).inv(),
            opening_synced(old(self)@, *old(state), sender_id, *data, final(self)@, *final(state), r),
    {
        // Get the initial chat message
        match state.handle_open_session(sender_id, data) {
            Ok(PayloadMessage::ChatMessage(m)) => {
                self.messages.push(m);
                proof {
                    assert(self@.messages.drop_last() =~= old(self)@.messages);
                }
                SyncEvent::Processed
            },
            Ok(PayloadMessage::E2EMessage(m)) => SyncEvent::Failed(Error::UnexpectedE2EPayload(m)),
            Err(e) => SyncEvent::Failed(e),
        }
    }

    /// Process a [`ConversationMessage`] message
    ///
    /// [`ConversationMessage`]: E2EMessage::ConversationMessage
    fn process_conversation_message(&mut self, sender_id: u128, ciphertext: EncryptedPayload) -> (r:
        SyncEvent)
        ensures
            conversation_synced(old(self)@, sender_id, ciphertext@, final(self)@, r),
    {
        // Try to get the session keys, then decrypt the message if a key is available
        let key = match self.session_keys.get(&sender_id) {
            Some(keys) => match keys.keys.get(&ciphertext.key_id) {
                Some(k) => Some(*k),
                None => None,
            },
            None => return SyncEvent::Failed(Error::NoSession(sender_id)),
        };
        match key {
            Some(key) => {
                return match ciphertext.decrypt(&key) {
                    Ok(PayloadMessage::ChatMessage(m)) => {
                        self.messages.push(m);
                        proof {
                            assert(self@.messages =~= old(self)@.messages.push(m@));
                        }
                        SyncEvent::Processed
                    },
                    Ok(PayloadMessage::E2EMessage(m)) => SyncEvent::Parse(
                        sender_id,
                        ciphertext.key_id,
                        m,
                    ),
                    Err(e) => SyncEvent::Failed(Error::EncryptedPayloadError(e)),
                };
            },
            None => {},
        }
        // No decryption key available, queue the message for decryption
        let key_id = ciphertext.key_id;
        let ghost m0 = self@.undecipherable;
        let ghost p = ciphertext@;
        let mut user_msgs = match self.undecipherable_messages.remove(&sender_id) {
            Some(u) => u,
            None => HashMap::new(),
        };
        let ghost um = user_msgs@.map_values(|v: Vec<EncryptedPayload>| views(v@));
        proof {
            if m0.contains_key(sender_id) {
                assert(um =~= m0[sender_id]);
            } else {
                assert(um =~= Map::<u128, Seq<EncryptedPayloadView>>::empty());
            }
        }
        let mut key_msgs = match user_msgs.remove(&key_id) {
            Some(q) => q,
            None => Vec::new(),
        };
        let ghost q0 = key_msgs@;
        proof {
            if um.contains_key(key_id) {
                assert(views(q0) == um[key_id]);
            } else {
                assert(views(q0) =~= Seq::<EncryptedPayloadView>::empty());
            }
        }
        key_msgs.push(ciphertext);
        proof {
            assert(views(key_msgs@) =~= views(q0).push(p));
        }
        user_msgs.insert(key_id, key_msgs);
        let ghost um1 = user_msgs@.map_values(|v: Vec<EncryptedPayload>| views(v@));
        proof {
            assert(um1 =~= um.insert(key_id, views(q0).push(p)));
        }
        self.undecipherable_messages.insert(sender_id, user_msgs);
        proof {
            let m1 = self@.undecipherable;
            assert(m1 =~= m0.insert(sender_id, um1));
        }
        SyncEvent::Processed
    }

    /// Take back an E2E message that came out of a payload of `sender_id`, encrypted with
    /// the key `key_id`
    ///
    /// A key rotation moves the keys of the session on and queues the message it carries;
    /// another message is queued first.
    pub fn process_e2e_payload(&mut self, sender_id: u128, key_id: u128, message: E2EMessage) -> (r:
        SyncEvent)
        ensures
            (match message {
                E2EMessage::KeyRotation { nonce, key_id: next_key_id, message: inner, padding: _ } => rotation_synced(
                    old(self)@,
                    sender_id,
                    key_id,
                    nonce@,
                    next_key_id,
                    inner,
                    final(self)@,
                    r,
                ),
                _ => r is Processed && final(self)@ == (SyncIteratorView {
                    queue: seq![message] + old(self)@.queue,
                    ..old(self)@
                }),
            }),
    {
        match message {
            E2EMessage::KeyRotation { nonce, key_id: next_key_id, message, padding: _ } => {
                let r = self.process_key_rotation(sender_id, key_id, nonce.as_slice(), next_key_id);
                match r {
                    SyncEvent::Processed => {},
                    _ => return r,
                }
                // Add the contained message to the queue if there is one
                let ghost q1 = self.queue@;
                let ghost cached = {
                    let u = old(self)@.undecipherable;
                    if u.contains_key(sender_id) && u[sender_id].contains_key(next_key_id) {
                        u[sender_id][next_key_id]
                    } else {
                        Seq::empty()
                    }
                };
                match message {
                    Some(msg_ciphertext) => {
                        let ghost c = msg_ciphertext@;
                        self.queue.push_front(
                            E2EMessage::ConversationMessage { sender_id, msg_ciphertext },
                        );
                        proof {
                            assert(Seq::<EncryptedPayloadView>::empty() + cached =~= cached);
                            let front = seq![c] + cached;
                            let t = self.queue@.take(front.len() as int);
                            let t1 = q1.take(cached.len() as int);
                            assert(t =~= seq![self.queue@[0]] + t1);
                            assert(self.queue@.skip(front.len() as int) =~= q1.skip(cached.len() as int));
                            assert forall|i: int| 0 <= i < t.len() implies (#[trigger] t[i] matches E2EMessage::ConversationMessage {
                                sender_id: u,
                                msg_ciphertext,
                            } && u == sender_id && msg_ciphertext@ == front[i]) by {
                                if i > 0 {
                                    assert(t[i] == t1[i - 1]);
                                    assert(front[i] == cached[i - 1]);
                                }
                            }
                        }
                    },
                    None => {
                        proof {
                            assert(Seq::<EncryptedPayloadView>::empty() + cached =~= cached);
                        }
                    },
                }
                SyncEvent::Processed
            },
            m => {
                self.queue.push_front(m);
                SyncEvent::Processed
            },
        }
    }

    /// Process a [`KeyRotation`] message
    ///
    /// Adds the rotated key to the available keys and queues the messages kept for it
    ///
    /// [`KeyRotation`]: E2EMessage::KeyRotation
    fn process_key_rotation(
        &mut self,
        sender_id: u128,
        previous_key_id: u128,
        nonce: &[u8],
        next_key_id: u128,
    ) -> (r: SyncEvent)
        ensures
            rotation_synced(
                old(self)@,
                sender_id,
                previous_key_id,
                nonce@,
                next_key_id,
                None,
                final(self)@,
                r,
            ),
    {
        let mut session_keys = match self.session_keys.remove(&sender_id) {
            Some(k) => k,
            None => {
                proof {
                    assert(self.session_keys@ =~= old(self).session_keys@);
                    assert(self@.session_keys =~= old(self)@.session_keys);
                }
                return SyncEvent::Failed(Error::NoSession(sender_id));
            },
        };
        // Compute the next key
        let prev_key = match session_keys.keys.get(&previous_key_id) {
            Some(k) => *k,
            None => {
                let ghost sk = session_keys@;
                self.session_keys.insert(sender_id, session_keys);
                proof {
                    assert(self.session_keys@ =~= old(self).session_keys@);
                    assert(self@.session_keys =~= old(self)@.session_keys);
                }
                return SyncEvent::Failed(Error::NoSessionKey(sender_id, previous_key_id));
            },
        };
        let mut material: Vec<u8> = Vec::new();
        extend_bytes(&mut material, prev_key.as_slice());
        extend_bytes(&mut material, nonce);
        let next_key = kdf(material.as_slice());
        proof {
            lemma_array_of_unique(next_key, spec_kdf(prev_key@ + nonce@));
        }
        session_keys.keys.insert(next_key_id, next_key);
        session_keys.last_key_id = next_key_id;
        self.session_keys.insert(sender_id, session_keys);
        proof {
            assert(self@.session_keys =~= old(self)@.session_keys.insert(
                sender_id,
                SessionKeysView {
                    last_key_id: next_key_id,
                    keys: old(self)@.session_keys[sender_id].keys.insert(next_key_id, next_key),
                },
            ));
        }
        // Add queued messages for this key, if any
        let ghost q0 = self.queue@;
        let ghost u0 = self@.undecipherable;
        let mut key_queue: Vec<EncryptedPayload> = Vec::new();
        match self.undecipherable_messages.remove(&sender_id) {
            Some(mut key_queues) => {
                let ghost kq0 = key_queues@.map_values(|v: Vec<EncryptedPayload>| views(v@));
                proof {
                    assert(kq0 =~= u0[sender_id]);
                }
                match key_queues.remove(&next_key_id) {
                    Some(q) => {
                        key_queue = q;
                    },
                    None => {},
                }
                let ghost kq1 = key_queues@.map_values(|v: Vec<EncryptedPayload>| views(v@));
                proof {
                    assert(kq1 =~= kq0.remove(next_key_id));
                    if kq0.contains_key(next_key_id) {
                        assert(views(key_queue@) == kq0[next_key_id]);
                    } else {
                        assert(kq0.remove(next_key_id) =~= kq0);
                    }
                }
                self.undecipherable_messages.insert(sender_id, key_queues);
                proof {
                    assert(self@.undecipherable =~= u0.insert(sender_id, kq1));
                    if !kq0.contains_key(next_key_id) {
                        assert(u0.insert(sender_id, kq1) =~= u0);
                    }
                }
            },
            None => {
                proof {
                    assert(self@.undecipherable =~= u0);
                }
            },
        }
        proof {
            if !(u0.contains_key(sender_id) && u0[sender_id].contains_key(next_key_id)) {
                assert(views(key_queue@) =~= Seq::<EncryptedPayloadView>::empty());
            }
        }
        let ghost ps = views(key_queue@);
        let mut rest = key_queue;
        assert(views(rest@) =~= ps.take(rest@.len() as int));
        assert(ps.skip(ps.len() as int) =~= Seq::<EncryptedPayloadView>::empty());
        assert(self.queue@.skip(0) =~= q0);
        // The messages go to the front of the queue from the last one, so that they keep
        // the order they came in
        while rest.len() > 0
            invariant
                self@.session_keys == old(self)@.session_keys.insert(
                    sender_id,
                    SessionKeysView {
                        last_key_id: next_key_id,
                        keys: old(self)@.session_keys[sender_id].keys.insert(next_key_id, next_key),
                    },
                ),
                self@.undecipherable == if u0.contains_key(sender_id) && u0[sender_id].contains_key(next_key_id) {
                    u0.insert(sender_id, u0[sender_id].remove(next_key_id))
                } else {
                    u0
                },
                self@.messages == old(self)@.messages,
                self@.step == old(self)@.step,
                self@.batch_size == old(self)@.batch_size,
                rest@.len() <= ps.len(),
                views(rest@) == ps.take(rest@.len() as int),
                self.queue@.len() == q0.len() + (ps.len() - rest@.len()),
                conversation_messages(
                    sender_id,
                    ps.skip(rest@.len() as int),
                    self.queue@.take(ps.len() - rest@.len()),
                ),
                self.queue@.skip(ps.len() - rest@.len()) == q0,
            decreases rest.len(),
        {
            let ghost k = rest@.len() - 1;
            let ghost before = rest@;
            let msg_ciphertext = rest.pop().unwrap();
            let ghost q1 = self.queue@;
            self.queue.push_front(E2EMessage::ConversationMessage { sender_id, msg_ciphertext });
            proof {
                assert(views(before)[k] == ps[k]);
                assert(msg_ciphertext@ == ps[k]);
                assert(views(rest@) =~= ps.take(k));
                let m = ps.len() - k;
                let front = ps.skip(k);
                assert(front =~= seq![ps[k]] + ps.skip(k + 1));
                let t = self.queue@.take(m);
                let t1 = q1.take(m - 1);
                assert(t =~= seq![self.queue@[0]] + t1);
                assert(self.queue@.skip(m) =~= q1.skip(m - 1));
                assert forall|j: int| 0 <= j < t.len() implies (#[trigger] t[j] matches E2EMessage::ConversationMessage {
                    sender_id: u,
                    msg_ciphertext,
                } && u == sender_id && msg_ciphertext@ == front[j]) by {
                    if j > 0 {
                        assert(t[j] == t1[j - 1]);
                        assert(front[j] == ps.skip(k + 1)[j - 1]);
                    }
                }
            }
        }
        proof {
            assert(ps.skip(0) =~= ps);
        }
        SyncEvent::Processed
    }
}

} // verus!
