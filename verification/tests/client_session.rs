use std::collections::HashMap;

use ed25519_dalek::Verifier;
use sha2::Digest;
use sickgnal::e2e::client::client::{
    plan_prekey_sync, prekey_count_after_sync, prekey_upload_message, solve_challenge,
};
use sickgnal::e2e::peer::Peer;

use rand::rngs::StdRng;
use rand::SeedableRng;
use sickgnal::e2e::client::error::Error;
use sickgnal::e2e::client::session::E2ESession;
use sickgnal::e2e::client::state::{open_initial_message, seal_initial_message, E2EClientState};
use sickgnal::e2e::client::workers::receive::{ReceiveAction, ReceiveWorker};
use sickgnal::e2e::client::Account;
use sickgnal::e2e::keys::memory_storage::MemoryKeyStorage;
use sickgnal::e2e::keys::storage_backend::E2EStorageBackend;
use sickgnal::e2e::keys::{EphemeralSecretKey, IdentityKeyPair};
use sickgnal::e2e::message::encrypted_payload::PayloadMessage;
use sickgnal::e2e::message::{E2EMessage, E2EPacket, EphemeralKey, ErrorCode, PreKeyBundle};

const ALICE: u128 = 1;
const BOB: u128 = 2;

fn account(username: &str, id: u128) -> Account {
    Account { username: username.to_string(), id, token: format!("{}-token", username) }
}

struct Bob {
    state: E2EClientState<MemoryKeyStorage>,
    bundle: PreKeyBundle,
    prekey_id: u128,
}

fn bob(with_prekey: bool) -> Bob {
    let mut rng = StdRng::seed_from_u64(2);
    let mut storage = MemoryKeyStorage::new();
    let ik = IdentityKeyPair::new_from_rng(&mut rng);
    storage.set_identity_keypair(ik).unwrap();
    let midterm = [0x33u8; 32];
    storage.set_midterm_key(midterm).unwrap();
    let ek = EphemeralSecretKey::new_from_rng(&mut rng);
    storage.save_ephemeral_key(ek).unwrap();
    let midterm_public = EphemeralKey::from_secret(&EphemeralSecretKey { id: 0, secret: midterm }).key;
    let bundle = PreKeyBundle {
        identity_keys: ik.public_keys(),
        midterm_prekey: midterm_public,
        midterm_prekey_signature: ik.sign(&midterm_public),
        ephemeral_prekey: if with_prekey { Some(EphemeralKey::from_secret(&ek)) } else { None },
    };
    let state = E2EClientState::new(account("bob", BOB), storage, StdRng::seed_from_u64(3), HashMap::new());
    Bob { state, bundle, prekey_id: ek.id }
}

fn alice() -> E2EClientState<MemoryKeyStorage> {
    let mut rng = StdRng::seed_from_u64(1);
    let mut storage = MemoryKeyStorage::new();
    storage.set_identity_keypair(IdentityKeyPair::new_from_rng(&mut rng)).unwrap();
    E2EClientState::new(account("alice", ALICE), storage, StdRng::seed_from_u64(4), HashMap::new())
}

/// Alice opens a session with Bob; returns Alice's session
fn open(alice: &mut E2EClientState<MemoryKeyStorage>, bob: &mut Bob, text: &[u8]) -> E2ESession {
    let (msg, session) = alice
        .prepare_open_new_session(BOB, bob.bundle, text.to_vec())
        .expect("alice should prepare the opening");
    let data = match msg {
        E2EMessage::SendInitialMessage { token, recipient_id, data } => {
            assert_eq!(token, "alice-token");
            assert_eq!(recipient_id, BOB);
            data
        }
        other => panic!("unexpected opening message {:?}", other),
    };
    match bob.state.handle_open_session(ALICE, &data).expect("bob should open the session") {
        PayloadMessage::ChatMessage(m) => assert_eq!(m, text.to_vec()),
        other => panic!("unexpected payload {:?}", other),
    }
    alice.update_session(session).expect("alice should store the session");
    session
}

#[test]
fn opened_session_mirrors_the_initiator() {
    let mut alice = alice();
    let mut bob = bob(true);
    let session = open(&mut alice, &mut bob, b"\"hello bob\"");

    let bob_session = bob.state.sessions().get(&ALICE).copied().expect("bob should have a session");
    assert_eq!(bob_session.correspondant_id, ALICE);
    assert_eq!(session.correspondant_id, BOB);
    assert_eq!(bob_session.receiving_key, session.sending_key);
    assert_eq!(bob_session.receiving_key_id, session.sending_key_id);
    assert_eq!(bob_session.sending_key, session.receiving_key);
    assert_eq!(bob_session.sending_key_id, session.receiving_key_id);
    assert_ne!(session.sending_key, session.receiving_key);
    // Key counts are drawn around the limit
    assert!((99_950..=100_050).contains(&session.key_msg_count));
    assert!((99_950..=100_050).contains(&bob_session.key_msg_count));

    // The prekey is used once
    assert!(bob.state.storage.ephemeral_key(bob.prekey_id).unwrap().is_none());
}

#[test]
fn opening_without_ephemeral_prekey() {
    let mut alice = alice();
    let mut bob = bob(false);
    let session = open(&mut alice, &mut bob, b"\"no prekey\"");
    let bob_session = bob.state.sessions().get(&ALICE).copied().unwrap();
    assert_eq!(bob_session.receiving_key, session.sending_key);
    // The unused prekey stays
    assert!(bob.state.storage.ephemeral_key(bob.prekey_id).unwrap().is_some());
}

#[test]
fn opening_with_unknown_prekey_fails() {
    let mut alice = alice();
    let mut bob = bob(true);
    let (msg, _) = alice.prepare_open_new_session(BOB, bob.bundle, b"\"x\"".to_vec()).unwrap();
    let mut data = match msg {
        E2EMessage::SendInitialMessage { data, .. } => data,
        other => panic!("unexpected opening message {:?}", other),
    };
    data.recipient_prekey_id = Some(0xdead);
    match bob.state.handle_open_session(ALICE, &data) {
        Err(Error::NoSuchPrekey(id)) => assert_eq!(id, 0xdead),
        other => panic!("unexpected result {:?}", other),
    }
    assert!(bob.state.sessions().is_empty());
}

#[test]
fn opening_with_another_identity_fails_to_decrypt() {
    let mut alice = alice();
    let mut bob = bob(true);
    let (msg, _) = alice.prepare_open_new_session(BOB, bob.bundle, b"\"x\"".to_vec()).unwrap();
    let mut data = match msg {
        E2EMessage::SendInitialMessage { data, .. } => data,
        other => panic!("unexpected opening message {:?}", other),
    };
    let mut rng = StdRng::seed_from_u64(99);
    data.identity_key = IdentityKeyPair::new_from_rng(&mut rng).public_keys();
    assert!(matches!(bob.state.handle_open_session(ALICE, &data), Err(Error::EncryptedPayloadError(_))));
}

#[test]
fn messages_decrypt_on_the_other_side() {
    let mut alice = alice();
    let mut bob = bob(true);
    open(&mut alice, &mut bob, b"\"hello bob\"");

    let msg = alice.prepare_message(BOB, b"\"second\"".to_vec()).unwrap();
    let ct = match msg {
        E2EMessage::ConversationMessage { sender_id, msg_ciphertext } => {
            assert_eq!(sender_id, ALICE);
            msg_ciphertext
        }
        other => panic!("unexpected message {:?}", other),
    };
    match bob.state.decrypt_payload(ALICE, &ct).unwrap() {
        PayloadMessage::ChatMessage(m) => assert_eq!(m, b"\"second\"".to_vec()),
        other => panic!("unexpected payload {:?}", other),
    }

    // Bob answers with his sending key, which is Alice's receiving key
    let answer = bob.state.prepare_message(ALICE, b"\"hi alice\"".to_vec()).unwrap();
    let ct = match answer {
        E2EMessage::ConversationMessage { msg_ciphertext, .. } => msg_ciphertext,
        other => panic!("unexpected message {:?}", other),
    };
    match alice.decrypt_payload(BOB, &ct).unwrap() {
        PayloadMessage::ChatMessage(m) => assert_eq!(m, b"\"hi alice\"".to_vec()),
        other => panic!("unexpected payload {:?}", other),
    }
}

#[test]
fn no_session_errors() {
    let mut alice = alice();
    assert!(matches!(alice.prepare_message(BOB, b"\"x\"".to_vec()), Err(Error::NoSession(BOB))));
    assert!(matches!(alice.process_key_rotation(BOB, &[0; 32], 5), Err(Error::NoSession(BOB))));
}

#[test]
fn tagged_ids_skip_zero() {
    let mut alice = alice();
    let first = alice.tag_message(E2EMessage::Okay);
    assert_eq!(first.request_id, 1);
    let second = alice.tag_message(E2EMessage::Okay);
    assert_eq!(second.request_id, 2);
    alice.next_request_id = 0xffff;
    let last = alice.tag_message(E2EMessage::Okay);
    assert_eq!(last.request_id, 0xffff);
    let wrapped = alice.tag_message(E2EMessage::Okay);
    assert_eq!(wrapped.request_id, 1);
    assert!(alice.take_waiting_request(2));
    assert!(!alice.take_waiting_request(2));
}

#[test]
fn worker_routes_responses_to_waiting_requests() {
    let mut alice = alice();
    let mut worker = ReceiveWorker::new();
    let packet = alice.tag_message(E2EMessage::Okay);
    let id = packet.request_id;

    let response = E2EPacket { request_id: id, message: E2EMessage::Okay };
    match worker.handle_packet(&mut alice, response).unwrap() {
        ReceiveAction::Respond(r, E2EMessage::Okay) => assert_eq!(r, id),
        other => panic!("unexpected action {:?}", other),
    }
    // The request was answered: a second response with its id is processed as a message
    let again = E2EPacket { request_id: id, message: E2EMessage::Okay };
    assert!(matches!(worker.handle_packet(&mut alice, again).unwrap(), ReceiveAction::Nothing));

    let error = E2EPacket { request_id: 0, message: E2EMessage::Error { code: ErrorCode::InternalError } };
    assert!(matches!(
        worker.handle_packet(&mut alice, error),
        Err(Error::ProtocolError(ErrorCode::InternalError))
    ));
}

#[test]
fn worker_opens_sessions_and_delivers_messages() {
    let mut alice = alice();
    let mut bob = bob(true);
    let mut worker = ReceiveWorker::new();

    let (msg, session) = alice.prepare_open_new_session(BOB, bob.bundle, b"\"open\"".to_vec()).unwrap();
    alice.update_session(session).unwrap();
    let data = match msg {
        E2EMessage::SendInitialMessage { data, .. } => data,
        other => panic!("unexpected opening message {:?}", other),
    };
    let opening = E2EPacket::untagged(E2EMessage::ConversationOpen { sender_id: ALICE, data });
    match worker.handle_packet(&mut bob.state, opening).unwrap() {
        ReceiveAction::DeliverOpening(sender, m) => {
            assert_eq!(sender, ALICE);
            assert_eq!(m, b"\"open\"".to_vec());
        }
        other => panic!("unexpected action {:?}", other),
    }

    let msg = alice.prepare_message(BOB, b"\"next\"".to_vec()).unwrap();
    match worker.handle_packet(&mut bob.state, E2EPacket::untagged(msg)).unwrap() {
        ReceiveAction::Deliver(m) => assert_eq!(m, b"\"next\"".to_vec()),
        other => panic!("unexpected action {:?}", other),
    }

    // A message from a user with no session is dropped
    let stray = alice.prepare_message(BOB, b"\"stray\"".to_vec()).unwrap();
    let stray = match stray {
        E2EMessage::ConversationMessage { msg_ciphertext, .. } => {
            E2EMessage::ConversationMessage { sender_id: 77, msg_ciphertext }
        }
        other => panic!("unexpected message {:?}", other),
    };
    assert!(matches!(
        worker.handle_packet(&mut bob.state, E2EPacket::untagged(stray)).unwrap(),
        ReceiveAction::Undecryptable(Error::NoSession(77))
    ));
}

#[test]
fn payload_kept_until_key_rotation_is_delivered() {
    let mut alice = alice();
    let mut bob = bob(true);
    let mut session = open(&mut alice, &mut bob, b"\"open\"");
    let mut worker = ReceiveWorker::new();

    // The next message rotates Alice's sending key
    session.key_msg_count = 1;
    alice.update_session(session).unwrap();
    let rotation = alice.prepare_message(BOB, b"\"last with the old key\"".to_vec()).unwrap();
    let (next_key_id, carried) = match &rotation {
        E2EMessage::KeyRotation { nonce, key_id, message: Some(m), padding: None } => {
            assert_eq!(nonce.len(), 32);
            (*key_id, m.clone())
        }
        other => panic!("unexpected message {:?}", other),
    };
    assert_eq!(carried.key_id, session.sending_key_id);
    let after = alice.sessions().get(&BOB).copied().unwrap();
    assert_eq!(after.sending_key_id, next_key_id);
    // The next key encrypts a newly drawn number of messages
    assert!((99_950..=100_050).contains(&after.key_msg_count));

    // A message under the new key arrives before the rotation: it waits
    let early = alice.prepare_message(BOB, b"\"first with the new key\"".to_vec()).unwrap();
    match &early {
        E2EMessage::ConversationMessage { msg_ciphertext, .. } => assert_eq!(msg_ciphertext.key_id, next_key_id),
        other => panic!("unexpected message {:?}", other),
    }
    assert!(matches!(
        worker.handle_packet(&mut bob.state, E2EPacket::untagged(early)).unwrap(),
        ReceiveAction::Nothing
    ));
    assert!(worker.process_next_queued(&mut bob.state).is_none());

    // The rotation comes: the carried message, then the kept one, are queued
    worker.process_e2e_payload(&mut bob.state, ALICE, rotation).unwrap();
    let bob_session = bob.state.sessions().get(&ALICE).copied().unwrap();
    assert_eq!(bob_session.receiving_key_id, next_key_id);
    assert_eq!(bob_session.receiving_key, after.sending_key);

    match worker.process_next_queued(&mut bob.state).unwrap().unwrap() {
        ReceiveAction::Deliver(m) => assert_eq!(m, b"\"last with the old key\"".to_vec()),
        other => panic!("unexpected action {:?}", other),
    }
    match worker.process_next_queued(&mut bob.state).unwrap().unwrap() {
        ReceiveAction::Deliver(m) => assert_eq!(m, b"\"first with the new key\"".to_vec()),
        other => panic!("unexpected action {:?}", other),
    }
    assert!(worker.process_next_queued(&mut bob.state).is_none());
}

#[test]
fn other_e2e_payloads_are_queued_first() {
    let mut alice = alice();
    let mut worker = ReceiveWorker::new();
    worker.process_e2e_payload(&mut alice, BOB, E2EMessage::Okay).unwrap();
    assert!(matches!(
        worker.process_next_queued(&mut alice).unwrap().unwrap(),
        ReceiveAction::Nothing
    ));
    worker
        .process_e2e_payload(&mut alice, BOB, E2EMessage::DisableInstantRelay)
        .unwrap();
    assert!(matches!(
        worker.process_next_queued(&mut alice).unwrap().unwrap(),
        ReceiveAction::Unexpected(E2EMessage::DisableInstantRelay)
    ));
}

#[test]
fn error_codes_become_client_errors() {
    assert!(matches!(Error::from(ErrorCode::UserNotFound), Error::UserNotFound));
    assert!(matches!(Error::from(ErrorCode::NoAvailableKey), Error::NoPrekeyAvailable));
    assert!(matches!(
        Error::from(ErrorCode::PreKeyLimit),
        Error::ProtocolError(ErrorCode::PreKeyLimit)
    ));
}

#[test]
fn peer_names_and_fingerprints() {

    let id: u128 = 0x0123_4567_89ab_cdef_0123_4567_89ab_cdef;
    let anonymous = Peer::default(id);
    assert_eq!(anonymous.name(), format!("Peer#{}", uuid::Uuid::from_u128(id)));
    assert_eq!(anonymous.name(), "Peer#01234567-89ab-cdef-0123-456789abcdef");
    assert_eq!(Peer::default(0).name(), "Peer#00000000-0000-0000-0000-000000000000");
    assert_eq!(Peer::default(u128::MAX).name(), "Peer#ffffffff-ffff-ffff-ffff-ffffffffffff");
    let named = Peer { id, username: Some("carol".to_string()), fingerprint: None };
    assert_eq!(named.name(), "carol");

    let mut rng = StdRng::seed_from_u64(11);
    let keys = IdentityKeyPair::new_from_rng(&mut rng).public_keys();
    let digest = sha2::Sha256::digest(keys.to_bytes());
    assert_eq!(keys.fingerprint().to_vec(), digest.to_vec());
    assert_eq!(keys.to_bytes().len(), 64);
    let back = sickgnal::e2e::keys::PublicIdentityKeys::from_bytes(&keys.to_bytes()).unwrap();
    assert_eq!(back.x25519, keys.x25519);
    assert_eq!(back.ed25519, keys.ed25519);
    assert!(sickgnal::e2e::keys::PublicIdentityKeys::from_bytes(&[0u8; 63]).is_err());
}

#[test]
fn challenges_are_signed_with_the_identity_key() {

    let mut rng = StdRng::seed_from_u64(12);
    let ik = IdentityKeyPair::new_from_rng(&mut rng);
    let chall = vec![1u8, 2, 3, 4];
    let (c, solve) = match solve_challenge(&ik, chall.clone(), "alice") {
        E2EMessage::AuthChallengeSolve { chall, solve } => (chall, solve),
        other => panic!("unexpected message {:?}", other),
    };
    assert_eq!(c, chall);
    let mut signed = sha2::Sha512::digest(&chall).to_vec();
    signed.extend_from_slice(b"alice");
    let key = ed25519_dalek::VerifyingKey::from_bytes(&ik.public_keys().ed25519).unwrap();
    let sig = ed25519_dalek::Signature::from_slice(&solve).unwrap();
    assert!(key.verify(&signed, &sig).is_ok());

    // Account creation signs the username
    match E2EMessage::create_account(&ik, "alice".to_string()) {
        E2EMessage::CreateAccount { identity_key, username, signature } => {
            assert_eq!(username, "alice");
            assert_eq!(identity_key.ed25519, ik.public_keys().ed25519);
            let sig = ed25519_dalek::Signature::from_slice(&signature).unwrap();
            assert!(key.verify(b"alice", &sig).is_ok());
        }
        other => panic!("unexpected message {:?}", other),
    }
}

#[test]
fn sealed_first_message_opens_with_the_responder_secrets() {
    let mut rng = StdRng::seed_from_u64(7);
    let alice_ik = IdentityKeyPair::new_from_rng(&mut rng);
    let bob_ik = IdentityKeyPair::new_from_rng(&mut rng);
    let midterm = [0x44u8; 32];
    let prekey = EphemeralSecretKey { id: 77, secret: [0x55u8; 32] };
    let midterm_public = EphemeralKey::from_secret(&EphemeralSecretKey { id: 0, secret: midterm }).key;
    let bundle = PreKeyBundle {
        identity_keys: bob_ik.public_keys(),
        midterm_prekey: midterm_public,
        midterm_prekey_signature: bob_ik.sign(&midterm_public),
        ephemeral_prekey: Some(EphemeralKey::from_secret(&prekey)),
    };
    let (msg, session) = seal_initial_message(
        &alice_ik,
        &[0x66u8; 32],
        &[0x01u8; 24],
        10,
        11,
        100_000,
        BOB,
        "alice-token".to_string(),
        &bundle,
        b"\"first\"".to_vec(),
    )
    .unwrap();
    assert_eq!(session.sending_key_id, 10);
    assert_eq!(session.receiving_key_id, 11);
    assert_eq!(session.key_msg_count, 100_000);
    let data = match msg {
        E2EMessage::SendInitialMessage { data, .. } => data,
        other => panic!("unexpected opening message {:?}", other),
    };
    assert_eq!(data.recipient_prekey_id, Some(77));
    assert_eq!(data.msg_ciphertext.nonce, [0x01u8; 24]);
    let (payload, recv, send) =
        open_initial_message(&bob_ik.x25519_secret, &midterm, Some(prekey.secret), &data).unwrap();
    assert!(matches!(payload, PayloadMessage::ChatMessage(m) if m == b"\"first\"".to_vec()));
    assert_eq!(recv, session.sending_key);
    assert_eq!(send, session.receiving_key);
    // Without the one-time prekey the responder derives other keys, and cannot decrypt
    assert!(matches!(
        open_initial_message(&bob_ik.x25519_secret, &midterm, None, &data),
        Err(Error::EncryptedPayloadError(_))
    ));
}

#[test]
fn opened_session_is_saved_with_its_keys() {
    let mut alice = alice();
    let mut bob = bob(true);
    open(&mut alice, &mut bob, b"\"saved\"");
    let bob_session = bob.state.sessions().get(&ALICE).copied().unwrap();
    let stored = bob.state.storage.load_session(ALICE).unwrap().unwrap();
    assert_eq!(stored.correspondant_id, bob_session.correspondant_id);
    assert_eq!(stored.sending_key_id, bob_session.sending_key_id);
    assert_eq!(stored.sending_key, bob_session.sending_key);
    assert_eq!(stored.receiving_key_id, bob_session.receiving_key_id);
    assert_eq!(stored.receiving_key, bob_session.receiving_key);
    assert_eq!(stored.key_msg_count, bob_session.key_msg_count);
    assert_eq!(
        bob.state.storage.session_key(ALICE, bob_session.receiving_key_id).unwrap(),
        Some(bob_session.receiving_key)
    );
    assert_eq!(
        bob.state.storage.session_key(ALICE, bob_session.sending_key_id).unwrap(),
        Some(bob_session.sending_key)
    );
}

#[test]
fn unknown_prekey_leaves_the_storage_alone() {
    let mut alice = alice();
    let mut bob = bob(true);
    let (msg, _) = alice.prepare_open_new_session(BOB, bob.bundle, b"\"x\"".to_vec()).unwrap();
    let mut data = match msg {
        E2EMessage::SendInitialMessage { data, .. } => data,
        other => panic!("unexpected opening message {:?}", other),
    };
    data.recipient_prekey_id = Some(0xbeef);
    assert!(matches!(bob.state.handle_open_session(ALICE, &data), Err(Error::NoSuchPrekey(0xbeef))));
    assert!(bob.state.storage.ephemeral_key(bob.prekey_id).unwrap().is_some());
    assert!(bob.state.storage.load_session(ALICE).unwrap().is_none());
}

#[test]
fn prekey_count_after_sync_adds_the_uploaded_keys() {
    assert_eq!(prekey_count_after_sync(3, 10, 100), 10);
    assert_eq!(prekey_count_after_sync(3, 10, 4), 7);
    assert_eq!(prekey_count_after_sync(12, 10, 100), 12);
}

#[test]
fn prekey_sync_deletes_unknown_keys_and_counts_the_kept_ones() {
    let server = vec![1u128, 2, 3, 4];
    let stored = vec![2u128, 4, 5];
    let (to_remove, kept, to_upload) = plan_prekey_sync(&server, &stored, 10, 100);
    let mut removed = to_remove.clone();
    removed.sort();
    assert_eq!(removed, vec![1, 3]);
    assert_eq!(kept, 2);
    assert_eq!(to_upload, 8);
    let (_, kept, to_upload) = plan_prekey_sync(&server, &stored, 10, 3);
    assert_eq!((kept, to_upload), (2, 3));
    let (to_remove, kept, to_upload) = plan_prekey_sync(&server, &server, 2, 100);
    assert!(to_remove.is_empty());
    assert_eq!((kept, to_upload), (4, 0));
}

#[test]
fn opening_saves_the_sender_public_keys() {
    let mut alice = alice();
    let mut bob = bob(true);
    let alice_keys = alice.storage.identity_keypair().unwrap().public_keys();
    open(&mut alice, &mut bob, b"\"keys\"");
    let saved = bob.state.storage.user_public_keys(ALICE).unwrap().unwrap();
    assert_eq!(saved.x25519, alice_keys.x25519);
    assert_eq!(saved.ed25519, alice_keys.ed25519);
}

#[test]
fn prekey_upload_stores_the_given_keys() {
    let mut rng = StdRng::seed_from_u64(21);
    let mut storage = MemoryKeyStorage::new();
    let ik = IdentityKeyPair::new_from_rng(&mut rng);
    storage.set_identity_keypair(ik).unwrap();
    let keys = vec![
        EphemeralSecretKey { id: 1, secret: [1u8; 32] },
        EphemeralSecretKey { id: 2, secret: [2u8; 32] },
    ];
    let msg = prekey_upload_message(&mut storage, keys.clone(), Some([3u8; 32]), true).unwrap();
    match msg {
        E2EMessage::PreKeyUpload { replace, signed_prekey, ephemeral_prekeys, .. } => {
            assert!(replace);
            assert_eq!(ephemeral_prekeys.len(), 2);
            assert_eq!(ephemeral_prekeys[1].id, 2);
            assert_eq!(ephemeral_prekeys[1].key, EphemeralKey::from_secret(&keys[1]).key);
            let spk = signed_prekey.unwrap();
            assert_eq!(spk.signature, ik.sign(&spk.key));
        }
        other => panic!("unexpected message {:?}", other),
    }
    assert_eq!(storage.ephemeral_key(1).unwrap(), Some([1u8; 32]));
    assert_eq!(storage.midterm_key().unwrap(), [3u8; 32]);
    // A taken id is refused
    let again = vec![EphemeralSecretKey { id: 1, secret: [9u8; 32] }];
    assert!(matches!(
        prekey_upload_message(&mut storage, again, None, false),
        Err(Error::StorageBackendError(_))
    ));
}
