use rand::rngs::StdRng;
use rand::SeedableRng;
use sickgnal::e2e::client::session::E2ESession;
use sickgnal::e2e::keys::memory_storage::MemoryKeyStorage;
use sickgnal::e2e::keys::storage_backend::E2EStorageBackend;
use sickgnal::e2e::keys::{EphemeralSecretKey, IdentityKeyPair};
use sickgnal::e2e::peer::Peer;

fn rng() -> StdRng {
    StdRng::seed_from_u64(7)
}

#[test]
fn test_peer() {
    let mut backend = MemoryKeyStorage::new();
    let peer = Peer {
        id: 0x1234,
        username: Some("Bob".to_string()),
        fingerprint: Some(vec![0u8; 20]),
    };

    assert!(backend.peer(peer.id).expect("error getting peer").is_none());

    backend.save_peer(&peer).expect("error saving peer");

    let stored_peer = backend
        .peer(peer.id)
        .expect("error getting peer")
        .expect("the peer was not stored");
    assert_eq!(stored_peer.id, peer.id);
    assert_eq!(stored_peer.username, peer.username);
    assert_eq!(stored_peer.fingerprint, peer.fingerprint);

    let by_name = backend
        .find_peer_by_username("Bob")
        .expect("error finding peer")
        .expect("the peer should be found by its username");
    assert_eq!(by_name.id, peer.id);
    assert!(backend
        .find_peer_by_username("Alice")
        .expect("error finding peer")
        .is_none());

    backend.delete_peer(peer.id).expect("error deleting peer");
    assert!(backend.peer(peer.id).expect("error getting peer").is_none());

    // Try some peer without some fields
    backend
        .save_peer(&Peer { id: 1, username: None, fingerprint: None })
        .expect("error saving peer with only id");
    backend
        .save_peer(&Peer { id: 2, username: None, fingerprint: Some(vec![0u8; 20]) })
        .expect("error saving peer without username");
    backend
        .save_peer(&Peer { id: 3, username: Some("Bob".to_string()), fingerprint: None })
        .expect("error saving peer without fingerprint");
}

#[test]
fn test_identity_keypair() {
    let mut backend = MemoryKeyStorage::new();
    let mut rng = rng();

    assert!(backend.identity_keypair().is_err());
    assert!(backend
        .identity_keypair_opt()
        .expect("error getting identity keypair")
        .is_none());

    let keypair = IdentityKeyPair::new_from_rng(&mut rng);
    backend
        .set_identity_keypair(keypair)
        .expect("error setting identity keypair");

    assert!(backend.identity_keypair().is_ok());
    assert!(backend
        .identity_keypair_opt()
        .expect("error getting identity keypair")
        .is_some());

    backend
        .clear_identity_keypair()
        .expect("error clearing identity keypair");

    assert!(backend.identity_keypair().is_err());
    assert!(backend
        .identity_keypair_opt()
        .expect("error getting identity keypair")
        .is_none());
}

#[test]
fn test_midterm_key() {
    let mut backend = MemoryKeyStorage::new();

    assert!(backend.midterm_key().is_err());
    assert!(backend.midterm_key_opt().expect("error getting midterm key").is_none());

    backend.set_midterm_key([9u8; 32]).expect("error setting midterm key");

    assert_eq!(backend.midterm_key().expect("error getting midterm key"), [9u8; 32]);
    assert!(backend.midterm_key_opt().expect("error getting midterm key").is_some());

    backend.clear_midterm_key().expect("error clearing midterm key");

    assert!(backend.midterm_key().is_err());
    assert!(backend.midterm_key_opt().expect("error getting midterm key").is_none());
}

#[test]
fn test_ephemeral_key() {
    let mut backend = MemoryKeyStorage::new();
    let mut rng = rng();

    assert_eq!(
        0,
        backend
            .available_ephemeral_keys()
            .expect("error getting available ephemeral keys")
            .len()
    );

    let key = EphemeralSecretKey::new_from_rng(&mut rng);
    let id = key.id;
    backend.save_ephemeral_key(key).expect("error saving ephemeral key");

    assert_eq!(
        1,
        backend
            .available_ephemeral_keys()
            .expect("error getting available ephemeral keys")
            .len()
    );
    assert_eq!(
        backend.ephemeral_key(id).expect("error getting ephemeral key"),
        Some(key.secret)
    );

    backend.delete_ephemeral_key(id).expect("error deleting ephemeral key");

    assert_eq!(
        0,
        backend
            .available_ephemeral_keys()
            .expect("error getting available ephemeral keys")
            .len()
    );
    assert!(backend.ephemeral_key(id).expect("error getting ephemeral key").is_none());
    assert!(backend
        .pop_ephemeral_key(id)
        .expect("error popping ephemeral key")
        .is_none());
}

#[test]
fn test_pop_ephemeral_key() {
    let mut backend = MemoryKeyStorage::new();
    let mut rng = rng();

    let key = EphemeralSecretKey::new_from_rng(&mut rng);
    let id = key.id;
    backend.save_ephemeral_key(key).expect("error saving ephemeral key");

    assert_eq!(
        backend.pop_ephemeral_key(id).expect("error popping ephemeral key"),
        Some(key.secret)
    );
    assert!(backend
        .pop_ephemeral_key(id)
        .expect("error popping ephemeral key")
        .is_none());
}

#[test]
fn test_batch_ephemeral_key() {
    let mut backend = MemoryKeyStorage::new();
    let mut rng = rng();

    let keys = vec![
        EphemeralSecretKey::new_from_rng(&mut rng),
        EphemeralSecretKey::new_from_rng(&mut rng),
        EphemeralSecretKey::new_from_rng(&mut rng),
    ];

    backend
        .save_many_ephemeral_keys(keys.clone())
        .expect("error saving many ephemeral keys");

    let mut available = backend
        .available_ephemeral_keys()
        .expect("error getting available ephemeral keys");
    available.sort();
    let mut ids: Vec<u128> = keys.iter().map(|k| k.id).collect();
    ids.sort();
    assert_eq!(available, ids);

    for k in keys.iter() {
        assert_eq!(
            backend.ephemeral_key(k.id).expect("error getting ephemeral key"),
            Some(k.secret)
        );
    }

    backend
        .delete_many_ephemeral_key(keys.iter().map(|k| k.id).collect())
        .expect("error deleting many ephemeral keys");
    assert_eq!(
        0,
        backend
            .available_ephemeral_keys()
            .expect("error getting available ephemeral keys")
            .len()
    );

    // test clearing
    backend
        .save_many_ephemeral_keys(keys.clone())
        .expect("error saving many ephemeral keys");
    assert_eq!(
        3,
        backend
            .available_ephemeral_keys()
            .expect("error getting available ephemeral keys")
            .len()
    );
    backend.clear_ephemeral_keys().expect("error clearing ephemeral keys");
    assert_eq!(
        0,
        backend
            .available_ephemeral_keys()
            .expect("error getting available ephemeral keys")
            .len()
    );
}

#[test]
fn test_session_keys() {
    let mut backend = MemoryKeyStorage::new();

    let key_1 = [1u8; 32];
    let key_2 = [2u8; 32];
    let key_3 = [3u8; 32];
    let (id_1, id_2, id_3) = (11u128, 12u128, 13u128);
    let (user_1, user_2) = (101u128, 102u128);

    backend.add_session_key(user_1, id_1, key_1).expect("error saving session key");
    backend.add_session_key(user_1, id_2, key_2).expect("error saving session key");
    backend.add_session_key(user_1, id_3, key_3).expect("error saving session key");
    backend.add_session_key(user_2, id_3, key_3).expect("error saving session key");

    assert_eq!(Some(key_1), backend.session_key(user_1, id_1).expect("error getting session key"));
    assert_eq!(Some(key_2), backend.session_key(user_1, id_2).expect("error getting session key"));
    assert_eq!(Some(key_3), backend.session_key(user_1, id_3).expect("error getting session key"));
    assert_eq!(Some(key_3), backend.session_key(user_2, id_3).expect("error getting session key"));

    backend.delete_session_key(user_2, id_3).expect("error deleting session key");
    assert_eq!(None, backend.session_key(user_2, id_3).expect("error getting session key"));
    assert_eq!(Some(key_3), backend.session_key(user_1, id_3).expect("error getting session key"));

    backend
        .cleanup_session_keys(user_1, id_1, id_2)
        .expect("error cleaning up session keys");
    assert_eq!(Some(key_1), backend.session_key(user_1, id_1).expect("error getting session key"));
    assert_eq!(Some(key_2), backend.session_key(user_1, id_2).expect("error getting session key"));
    assert_eq!(None, backend.session_key(user_1, id_3).expect("error getting session key"));

    backend.clear_session_keys().expect("error clearing session keys");
    assert_eq!(None, backend.session_key(user_1, id_1).expect("error getting session key"));
    assert_eq!(None, backend.session_key(user_1, id_2).expect("error getting session key"));
}

#[test]
fn test_sessions() {
    let mut backend = MemoryKeyStorage::new();

    let user_id = 55u128;
    let sess = E2ESession {
        correspondant_id: user_id,
        sending_key_id: 1,
        sending_key: [1; 32],
        key_msg_count: 42,
        receiving_key_id: 2,
        receiving_key: [2; 32],
    };

    assert!(backend.load_all_sessions().expect("error loading all sessions").is_empty());

    backend.save_session(&sess).expect("error saving session");

    assert_eq!(1, backend.load_all_sessions().expect("error loading all sessions").len());
    assert_eq!(
        Some([1; 32]),
        backend.session_key(user_id, sess.sending_key_id).expect("error getting session key")
    );
    assert_eq!(
        Some([2; 32]),
        backend.session_key(user_id, sess.receiving_key_id).expect("error getting session key")
    );

    let stored_sess = backend
        .load_session(user_id)
        .expect("error loading session")
        .expect("the session was not stored");
    assert_eq!(stored_sess.correspondant_id, sess.correspondant_id);
    assert_eq!(stored_sess.sending_key_id, sess.sending_key_id);
    assert_eq!(stored_sess.sending_key, sess.sending_key);
    assert_eq!(stored_sess.key_msg_count, sess.key_msg_count);
    assert_eq!(stored_sess.receiving_key_id, sess.receiving_key_id);
    assert_eq!(stored_sess.receiving_key, sess.receiving_key);

    backend.delete_session(user_id).expect("error deleting session");
    assert!(backend.load_session(user_id).expect("error loading session").is_none());
    assert!(backend.load_all_sessions().expect("error loading all sessions").is_empty());
}

#[test]
fn clear_removes_every_key_but_keeps_peers() {
    let mut backend = MemoryKeyStorage::new();
    let mut rng = rng();
    backend
        .set_identity_keypair(IdentityKeyPair::new_from_rng(&mut rng))
        .unwrap();
    backend.set_midterm_key([4; 32]).unwrap();
    backend.save_ephemeral_key(EphemeralSecretKey { id: 3, secret: [5; 32] }).unwrap();
    backend.add_session_key(1, 2, [6; 32]).unwrap();
    backend.save_peer(&Peer { id: 9, username: None, fingerprint: None }).unwrap();

    backend.clear().unwrap();

    assert!(backend.identity_keypair_opt().unwrap().is_none());
    assert!(backend.midterm_key_opt().unwrap().is_none());
    assert!(backend.ephemeral_key(3).unwrap().is_none());
    assert!(backend.session_key(1, 2).unwrap().is_none());
    assert!(backend.peer(9).unwrap().is_some());
}

#[test]
fn added_ephemeral_keys_get_fresh_ids() {
    let mut backend = MemoryKeyStorage::new();
    let id = backend.add_ephemeral_key([1; 32]).unwrap();
    assert_eq!(backend.ephemeral_key(id).unwrap(), Some([1; 32]));

    let ids = backend.add_many_ephemeral_key(vec![[2; 32], [3; 32]]).unwrap();
    assert_eq!(ids.len(), 2);
    assert_ne!(ids[0], ids[1]);
    assert_eq!(backend.ephemeral_key(ids[0]).unwrap(), Some([2; 32]));
    assert_eq!(backend.ephemeral_key(ids[1]).unwrap(), Some([3; 32]));
    assert_eq!(backend.available_ephemeral_keys().unwrap().len(), 3);
}

#[test]
fn memory_storage_errors_name_their_cause() {
    let mut backend = MemoryKeyStorage::new();
    match backend.identity_keypair() {
        Err(e) => assert_eq!(e.description, "No key available"),
        Ok(_) => panic!("no identity keypair was set"),
    }
    assert_eq!(backend.midterm_key().unwrap_err().description, "No key available");
    let key = EphemeralSecretKey { id: 5, secret: [1u8; 32] };
    backend.save_ephemeral_key(key).unwrap();
    let again = EphemeralSecretKey { id: 5, secret: [2u8; 32] };
    assert_eq!(backend.save_ephemeral_key(again).unwrap_err().description, "Duplicate Id");
    // The first key is kept
    assert_eq!(backend.ephemeral_key(5).unwrap(), Some([1u8; 32]));
    // A batch with a taken id stops there
    let batch = vec![
        EphemeralSecretKey { id: 6, secret: [3u8; 32] },
        EphemeralSecretKey { id: 5, secret: [4u8; 32] },
    ];
    assert_eq!(backend.save_many_ephemeral_keys(batch).unwrap_err().description, "Duplicate Id");
    assert_eq!(backend.ephemeral_key(6).unwrap(), Some([3u8; 32]));
}
