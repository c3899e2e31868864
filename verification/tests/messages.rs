use sickgnal::e2e::kdf::kdf;
use sickgnal::e2e::message::encrypted_payload::{
    EncryptedPayload, Error as PayloadError, PayloadMessage, CHAT_MESSAGE_HEADER,
    E2E_MESSAGE_HEADER,
};
use sickgnal::e2e::message::serde::{base64json, base64nonce, base64signature, base64x25519key, FieldError};
use sickgnal::e2e::message::{E2EMessage, ErrorCode};
use sickgnal::e2e::message_stream::raw_json::{frame, payload_length, Error as FrameError};

#[test]
fn kdf_matches_hkdf_sha512_vector() {
    let expected: [u8; 32] = [
        71, 104, 213, 246, 163, 158, 225, 33, 122, 60, 110, 145, 172, 15, 233, 123, 220, 89, 111,
        38, 201, 66, 225, 163, 166, 85, 55, 175, 107, 165, 83, 65,
    ];
    assert_eq!(kdf(&[1, 2, 3]), expected);
    // Deterministic, and sensitive to its input
    assert_eq!(kdf(&[1, 2, 3]), kdf(&[1, 2, 3]));
    assert_ne!(kdf(&[1, 2, 3]), kdf(&[1, 2, 4]));
}

#[test]
fn payload_bytes_roundtrip() {
    let chat = PayloadMessage::ChatMessage(b"{\"text\":\"hi\"}".to_vec());
    let bytes = chat.to_bytes();
    assert_eq!(bytes[0], CHAT_MESSAGE_HEADER);
    assert_eq!(&bytes[1..], b"{\"text\":\"hi\"}");
    match PayloadMessage::try_from_bytes(&bytes).unwrap() {
        PayloadMessage::ChatMessage(m) => assert_eq!(m, b"{\"text\":\"hi\"}".to_vec()),
        other => panic!("unexpected payload {:?}", other),
    }

    let e2e = PayloadMessage::E2EMessage(b"[1,2,3]".to_vec());
    let bytes = e2e.to_bytes();
    assert_eq!(bytes, vec![E2E_MESSAGE_HEADER, b'[', b'1', b',', b'2', b',', b'3', b']']);
    match PayloadMessage::try_from_bytes(&bytes).unwrap() {
        PayloadMessage::E2EMessage(m) => assert_eq!(m, b"[1,2,3]".to_vec()),
        other => panic!("unexpected payload {:?}", other),
    }
}

#[test]
fn payload_parse_errors() {
    assert_eq!(PayloadMessage::try_from_bytes(&[]).unwrap_err(), PayloadError::EmptyPayload);
    assert_eq!(
        PayloadMessage::try_from_bytes(&[0x42, 1]).unwrap_err(),
        PayloadError::InvalidHeader(0x42)
    );
    // The message after the header must be JSON
    assert_eq!(
        PayloadMessage::try_from_bytes(&[CHAT_MESSAGE_HEADER]).unwrap_err(),
        PayloadError::SerdeError
    );
    assert_eq!(
        PayloadMessage::try_from_bytes(&[CHAT_MESSAGE_HEADER, b'x']).unwrap_err(),
        PayloadError::SerdeError
    );
    assert_eq!(
        PayloadMessage::try_from_bytes(&[E2E_MESSAGE_HEADER, b'{']).unwrap_err(),
        PayloadError::SerdeError
    );
}

#[test]
fn encrypt_then_decrypt_gives_the_payload_back() {
    let key = [7u8; 32];
    let nonce = [3u8; 24];
    let payload = EncryptedPayload::encrypt_chat(42, nonce, &key, b"\"hello\"".to_vec()).unwrap();
    assert_eq!(payload.key_id, 42);
    assert_eq!(payload.nonce, nonce);
    // header byte + message + 16-byte tag
    assert_eq!(payload.ciphertext.len(), 1 + 7 + 16);

    match payload.decrypt(&key).unwrap() {
        PayloadMessage::ChatMessage(m) => assert_eq!(m, b"\"hello\"".to_vec()),
        other => panic!("unexpected payload {:?}", other),
    }

    let e2e = EncryptedPayload::encrypt_e2e(43, nonce, &key, b"[9,9]".to_vec()).unwrap();
    match e2e.decrypt(&key).unwrap() {
        PayloadMessage::E2EMessage(m) => assert_eq!(m, b"[9,9]".to_vec()),
        other => panic!("unexpected payload {:?}", other),
    }
}

#[test]
fn decrypt_with_wrong_key_or_key_id_fails() {
    let key = [7u8; 32];
    let nonce = [3u8; 24];
    let payload = EncryptedPayload::encrypt_chat(42, nonce, &key, b"\"hello\"".to_vec()).unwrap();

    assert_eq!(payload.decrypt(&[8u8; 32]).unwrap_err(), PayloadError::DecryptionError);

    // The key id is authenticated: announcing another key id breaks the tag
    let mut forged = payload.clone();
    forged.key_id = 41;
    assert_eq!(forged.decrypt(&key).unwrap_err(), PayloadError::DecryptionError);

    let mut tampered = payload.clone();
    tampered.ciphertext[0] ^= 1;
    assert_eq!(tampered.decrypt(&key).unwrap_err(), PayloadError::DecryptionError);
}

#[test]
fn base64_fields() {
    assert_eq!(base64json::serialize(&[0, 1, 2, 250, 251]), "AAEC+vs=");
    assert_eq!(base64json::deserialize("AAEC+vs=").unwrap(), vec![0, 1, 2, 250, 251]);
    assert_eq!(base64json::deserialize("not base64!").unwrap_err(), FieldError::InvalidBase64);

    assert_eq!(base64nonce::serialize(&[0u8; 24]), "AAAAAAAAAAAAAAAAAAAAAAAAAAAAAAAA");
    assert_eq!(base64nonce::deserialize("AAAAAAAAAAAAAAAAAAAAAAAAAAAAAAAA").unwrap(), [0u8; 24]);
    assert_eq!(base64nonce::deserialize("AAEC+vs=").unwrap_err(), FieldError::InvalidLength(5));

    let key = [0x5au8; 32];
    assert_eq!(base64x25519key::deserialize(&base64x25519key::serialize(&key)).unwrap(), key);
    assert_eq!(base64x25519key::deserialize("AAEC+vs=").unwrap_err(), FieldError::InvalidLength(5));

    let sig = [0xa5u8; 64];
    assert_eq!(base64signature::deserialize(&base64signature::serialize(&sig)).unwrap(), sig);
    assert_eq!(base64signature::deserialize("@@").unwrap_err(), FieldError::InvalidBase64);
}

#[test]
fn error_codes() {
    let codes = [
        (ErrorCode::InvalidMessage, 0u8),
        (ErrorCode::MessageTypeNotAccepted, 1),
        (ErrorCode::InvalidAuthentication, 2),
        (ErrorCode::UsernameUnavailable, 10),
        (ErrorCode::UserNotFound, 11),
        (ErrorCode::PreKeyLimit, 20),
        (ErrorCode::NoAvailableKey, 21),
        (ErrorCode::InternalError, 255),
    ];
    for (c, n) in codes.iter() {
        assert_eq!(c.code(), *n);
        assert_eq!(ErrorCode::from_code(*n), Some(*c));
    }
    assert_eq!(ErrorCode::from_code(3), None);
    assert_eq!(ErrorCode::UserNotFound.description(), "User not found");
}

#[test]
fn set_token_fills_token_fields_only() {
    let mut m = E2EMessage::GetMessages { token: String::new(), limit: 10 };
    m.set_token("secret".to_string());
    match m {
        E2EMessage::GetMessages { token, limit } => {
            assert_eq!(token, "secret");
            assert_eq!(limit, 10);
        }
        other => panic!("unexpected message {:?}", other),
    }

    let mut ok = E2EMessage::Okay;
    ok.set_token("secret".to_string());
    assert!(matches!(ok, E2EMessage::Okay));
}

#[test]
fn frames_carry_their_length() {
    let payload = vec![0x7bu8; 300];
    let framed = frame(&payload).unwrap();
    assert_eq!(framed[0], 1);
    assert_eq!(framed[1], 44);
    assert_eq!(payload_length([framed[0], framed[1]]), 300);
    assert_eq!(&framed[2..], payload.as_slice());

    assert_eq!(frame(&[]).unwrap(), vec![0, 0]);
    assert_eq!(frame(&vec![0u8; 0x10000]).unwrap_err(), FrameError::PaylodTooLarge);
    assert_eq!(frame(&vec![0u8; 0xffff]).unwrap().len(), 0xffff + 2);
}
