use std::collections::HashMap;

use rand::rngs::StdRng;
use rand::SeedableRng;
use sickgnal::e2e::client::error::Error;
use sickgnal::e2e::client::payload_cache::{PayloadCache, UserPayloadCache};
use sickgnal::e2e::client::state::E2EClientState;
use sickgnal::e2e::client::sync_iterator::{
    SessionKeys, SyncAction, SyncEvent, SyncIterator, SynchronizationStep,
};
use sickgnal::e2e::client::Account;
use sickgnal::e2e::kdf::kdf;
use sickgnal::e2e::keys::memory_storage::MemoryKeyStorage;
use sickgnal::e2e::message::encrypted_payload::EncryptedPayload;
use sickgnal::e2e::message::E2EMessage;

fn payload(key_id: u128, tag: u8) -> EncryptedPayload {
    EncryptedPayload { nonce: [tag; 24], key_id, ciphertext: vec![tag] }
}

fn tags(payloads: impl IntoIterator<Item = EncryptedPayload>) -> Vec<u8> {
    payloads.into_iter().map(|p| p.ciphertext[0]).collect()
}

#[test]
fn user_cache_evicts_least_recent_key_then_oldest_payload() {
    let mut cache = UserPayloadCache::new(2);
    assert!(cache.push(1, payload(1, 1)).is_none());
    assert!(cache.push(1, payload(1, 2)).is_none());
    // Full: the least recently used other key loses its payloads
    assert_eq!(tags(cache.push(2, payload(2, 3)).unwrap()), vec![1, 2]);
    assert!(cache.push(2, payload(2, 4)).is_none());
    // Full with a single key: its oldest payload goes
    assert_eq!(tags(cache.push(2, payload(2, 5)).unwrap()), vec![3]);
    assert_eq!(tags(cache.pop(2).unwrap()), vec![4, 5]);
    assert!(cache.pop(1).is_none());
    assert!(cache.pop(2).is_none());
}

#[test]
fn payload_cache_keeps_payloads_per_user_and_key() {
    let mut cache = PayloadCache::new(2, 10);
    assert!(cache.push(7, 1, payload(1, 1)).is_none());
    assert!(cache.push(7, 1, payload(1, 2)).is_none());
    assert!(cache.push(8, 1, payload(1, 3)).is_none());
    assert_eq!(tags(cache.pop(7, 1).unwrap()), vec![1, 2]);
    assert_eq!(tags(cache.pop(8, 1).unwrap()), vec![3]);
    assert!(cache.pop(8, 1).is_none());
}

#[test]
fn payload_cache_forgets_least_recent_user() {
    let mut cache = PayloadCache::new(1, 10);
    cache.push(7, 1, payload(1, 1));
    cache.push(8, 1, payload(1, 2));
    assert!(cache.pop(7, 1).is_none());
    assert_eq!(tags(cache.pop(8, 1).unwrap()), vec![2]);
}

#[test]
fn payload_cache_pop_keeps_the_other_keys() {
    let mut cache = PayloadCache::new(4, 10);
    cache.push(7, 1, payload(1, 1));
    cache.push(7, 2, payload(2, 2));
    assert_eq!(tags(cache.pop(7, 1).unwrap()), vec![1]);
    assert!(cache.pop(7, 1).is_none());
    // The payloads of the user's other key stay
    assert_eq!(tags(cache.pop(7, 2).unwrap()), vec![2]);
    assert!(cache.pop(7, 2).is_none());
}

#[test]
fn sync_steps_through_batches() {
    let mut sync = SyncIterator::new();
    match sync.next_action() {
        SyncAction::Request(E2EMessage::GetInitialMessages { token, limit }) => {
            assert_eq!(token, "");
            assert_eq!(limit, 100);
        }
        other => panic!("unexpected action {:?}", other),
    }
    let batch = sync
        .handle_batch(E2EMessage::MessagesList { messages: vec![vec![1], vec![2]] })
        .unwrap();
    assert_eq!(batch, Some(vec![vec![1], vec![2]]));
    assert_eq!(sync.step, SynchronizationStep::InitialMessages);

    assert_eq!(sync.handle_batch(E2EMessage::MessagesList { messages: vec![] }).unwrap(), None);
    assert_eq!(sync.step, SynchronizationStep::Messages);
    assert!(matches!(
        sync.next_action(),
        SyncAction::Request(E2EMessage::GetMessages { limit: 100, .. })
    ));
    assert_eq!(sync.handle_batch(E2EMessage::MessagesList { messages: vec![] }).unwrap(), None);
    assert_eq!(sync.step, SynchronizationStep::NoMoreMessages);
    assert!(matches!(sync.next_action(), SyncAction::Done));

    assert!(matches!(
        sync.handle_batch(E2EMessage::Okay),
        Err(Error::UnexpectedE2EMessage(E2EMessage::Okay))
    ));
}

#[test]
fn sync_hands_out_ready_messages_last_first() {
    let mut sync = SyncIterator::new();
    sync.messages.push(b"a".to_vec());
    sync.messages.push(b"b".to_vec());
    assert!(matches!(sync.next_action(), SyncAction::Yield(m) if m == b"b".to_vec()));
    assert!(matches!(sync.next_action(), SyncAction::Yield(m) if m == b"a".to_vec()));
    assert!(matches!(sync.next_action(), SyncAction::Request(_)));
}

fn state() -> E2EClientState<MemoryKeyStorage> {
    let account = Account { username: "bob".to_string(), id: 2, token: String::new() };
    E2EClientState::new(account, MemoryKeyStorage::new(), StdRng::seed_from_u64(5), HashMap::new())
}

#[test]
fn sync_decrypts_with_known_keys_and_keeps_the_others() {
    let mut state = state();
    let mut sync = SyncIterator::new();
    let key = [9u8; 32];
    let mut keys = HashMap::new();
    keys.insert(10u128, key);
    sync.session_keys.insert(1, SessionKeys { last_key_id: 10, keys });

    let ok = EncryptedPayload::encrypt_chat(10, [1; 24], &key, b"\"hello\"".to_vec()).unwrap();
    let unknown = EncryptedPayload::encrypt_chat(11, [2; 24], &[8; 32], b"\"later\"".to_vec()).unwrap();
    sync.queue_batch(vec![
        E2EMessage::ConversationMessage { sender_id: 1, msg_ciphertext: ok },
        E2EMessage::ConversationMessage { sender_id: 1, msg_ciphertext: unknown },
        E2EMessage::ConversationMessage { sender_id: 3, msg_ciphertext: payload(1, 1) },
        E2EMessage::Okay,
    ]);

    assert!(matches!(sync.process_next(&mut state), Some(SyncEvent::Processed)));
    assert_eq!(sync.messages, vec![b"\"hello\"".to_vec()]);
    assert!(matches!(sync.process_next(&mut state), Some(SyncEvent::Processed)));
    assert_eq!(sync.undecipherable_messages.get(&1).unwrap().get(&11).unwrap().len(), 1);
    assert!(matches!(
        sync.process_next(&mut state),
        Some(SyncEvent::Failed(Error::NoSession(3)))
    ));
    assert!(matches!(sync.process_next(&mut state), Some(SyncEvent::Unexpected(E2EMessage::Okay))));
    assert!(sync.process_next(&mut state).is_none());
}

#[test]
fn sync_key_rotation_learns_the_next_key_and_queues_kept_payloads() {
    let mut sync = SyncIterator::new();
    let key = [9u8; 32];
    let mut keys = HashMap::new();
    keys.insert(10u128, key);
    sync.session_keys.insert(1, SessionKeys { last_key_id: 10, keys });

    let nonce = vec![4u8; 32];
    let next = kdf(&[key.as_slice(), nonce.as_slice()].concat());
    let mut kept = HashMap::new();
    kept.insert(11u128, vec![payload(11, 1), payload(11, 2)]);
    sync.undecipherable_messages.insert(1, kept);

    let rotation = E2EMessage::KeyRotation { nonce, key_id: 11, message: None, padding: None };
    assert!(matches!(sync.process_e2e_payload(1, 10, rotation), SyncEvent::Processed));

    let keys = &sync.session_keys.get(&1).unwrap();
    assert_eq!(keys.last_key_id, 11);
    assert_eq!(keys.keys.get(&11), Some(&next));
    assert_eq!(keys.keys.get(&10), Some(&key));
    assert!(sync.undecipherable_messages.get(&1).unwrap().get(&11).is_none());
    // The kept payloads went to the front of the queue, in the order they came
    let queued: Vec<u8> = sync
        .queue
        .iter()
        .map(|m| match m {
            E2EMessage::ConversationMessage { sender_id: 1, msg_ciphertext } => msg_ciphertext.ciphertext[0],
            other => panic!("unexpected message {:?}", other),
        })
        .collect();
    assert_eq!(queued, vec![1, 2]);

    // Rotating from an unknown key, or for an unknown user, does nothing
    let again = E2EMessage::KeyRotation { nonce: vec![0; 32], key_id: 12, message: None, padding: None };
    assert!(matches!(
        sync.process_e2e_payload(1, 99, again),
        SyncEvent::Failed(Error::NoSessionKey(1, 99))
    ));
    let other = E2EMessage::KeyRotation { nonce: vec![0; 32], key_id: 12, message: None, padding: None };
    assert!(matches!(sync.process_e2e_payload(5, 10, other), SyncEvent::Failed(Error::NoSession(5))));
}
