use sickgnal::tls::connection::decryption_state::DecryptionState;
use sickgnal::tls::connection::encryption_state::EncryptionState;
use sickgnal::tls::connection::connection::{ClientConfig, Connection};
use sickgnal::tls::connection::state::State;
use sickgnal::tls::connection::traffic_keys::TrafficKeys;
use sickgnal::tls::msgs::client_hello::ServerName;
use sickgnal::tls::enums::ContentType;
use sickgnal::tls::msgs::Message;
use sickgnal::tls::error::Error;
use sickgnal::tls::crypto::{derive_secret, hkdf_expand_label};
use sickgnal::tls::error::InvalidMessage;
use sickgnal::tls::msgs::handshake::Handshake;
use sickgnal::tls::record_layer::handshake_deframer::HandshakeDeframer;
use sickgnal::tls::record_layer::next_record;

// The payload of a record containing a single ServerHello
const SERVER_HELLO: [u8; 90] = [
    0x02, 0x00, 0x00, 0x56, 0x03, 0x03, 0x6c, 0xf2, 0x64, 0x7f, 0x6b, 0x0a, 0xcc, 0xaf, 0x5b,
    0x6b, 0xd0, 0x93, 0x82, 0xbf, 0x79, 0x77, 0x94, 0x76, 0x4f, 0xf8, 0x1d, 0x0d, 0x84, 0xf2,
    0x42, 0xb3, 0x18, 0x2f, 0xb1, 0x53, 0xbc, 0x96, 0x00, 0x13, 0x01, 0x00, 0x00, 0x2e, 0x00,
    0x2b, 0x00, 0x02, 0x03, 0x04, 0x00, 0x33, 0x00, 0x24, 0x00, 0x1d, 0x00, 0x20, 0x40, 0xcb,
    0xe4, 0x0c, 0x52, 0xf6, 0x45, 0xb4, 0x27, 0x2f, 0x43, 0x7d, 0x41, 0x3e, 0xb0, 0x57, 0x53,
    0x38, 0xbe, 0x60, 0xa6, 0x47, 0xfe, 0x97, 0x63, 0x79, 0x7d, 0x00, 0x57, 0x25, 0xb9, 0x2c,
];

fn unhex(s: &str) -> Vec<u8> {
    (0..s.len()).step_by(2).map(|i| u8::from_str_radix(&s[i..i + 2], 16).unwrap()).collect()
}

#[test]
fn derive_secret_matches_rfc8448() {
    // Early secret of RFC 8448's simple 1-RTT handshake (no PSK)
    let early = unhex("33ad0a1c607ec03b09e6cd9893680ce210adf300aa1f2660e1b22e10f170f92a");
    let derived = derive_secret(&early, "derived", None);
    assert_eq!(derived, unhex("6f2615a108c702c5678f54fc9dbab69716c076189c48250cebeac3576c3611ba"));
}

#[test]
fn traffic_keys_of_a_secret() {
    let secret: Vec<u8> = (0u8..32).collect();
    let keys = TrafficKeys::new(&secret);
    assert_eq!(keys.key, vec![156, 151, 131, 207, 119, 234, 50, 212, 79, 54, 157, 164, 31, 25, 243, 204]);
    assert_eq!(keys.iv, vec![47, 65, 200, 70, 164, 49, 161, 99, 129, 75, 205, 113]);
    assert_eq!(keys.sequence_number, 0);
    assert_eq!(keys.key, hkdf_expand_label(&secret, "key", &[], 16));

    // The nonce is the IV xored with the big-endian sequence number
    assert_eq!(keys.nonce().to_vec(), keys.iv);
    let mut next = TrafficKeys::new(&secret);
    next.sequence_number = 0x0102;
    let mut expected = keys.iv.clone();
    expected[10] ^= 0x01;
    expected[11] ^= 0x02;
    assert_eq!(next.nonce().to_vec(), expected);

    let updated = keys.updated();
    assert_eq!(
        updated.secret,
        vec![
            44, 236, 208, 161, 117, 6, 239, 95, 167, 62, 220, 6, 45, 110, 123, 83, 151, 207, 7, 78,
            193, 180, 216, 249, 154, 18, 7, 114, 147, 47, 11, 69
        ]
    );
    assert_eq!(updated.sequence_number, 0);
}

#[test]
fn records_are_read_from_their_header() {
    let bytes = [22u8, 3, 3, 0, 2, 0xaa, 0xbb, 0x17, 0x03];
    let (record, used) = next_record(&bytes).unwrap().unwrap();
    assert_eq!(used, 7);
    assert_eq!(record.typ.0, 22);
    assert_eq!(record.version.0, 0x0303);
    assert_eq!(record.payload, vec![0xaa, 0xbb]);

    // Not a whole record yet
    assert!(next_record(&bytes[..4]).unwrap().is_none());
    assert!(next_record(&bytes[..6]).unwrap().is_none());

    // A fragment longer than a record can carry
    let too_long = [23u8, 3, 3, 0x41, 0x01];
    assert!(matches!(next_record(&too_long), Err(InvalidMessage::RecordOverflow)));
    let longest = [23u8, 3, 3, 0x41, 0x00];
    assert!(next_record(&longest).unwrap().is_none());
}

#[test]
fn handshake_deframer_reassembles_split_messages() {
    let mut deframer = HandshakeDeframer::new();
    assert!(deframer.is_aligned());

    deframer.add(SERVER_HELLO[..40].to_vec());
    assert!(deframer.decoded().unwrap().is_empty());
    assert!(!deframer.is_aligned());

    deframer.add(SERVER_HELLO[40..].to_vec());
    let messages = deframer.decoded().unwrap();
    assert_eq!(messages.len(), 1);
    assert!(matches!(messages[0].0, Handshake::ServerHello(_)));
    assert_eq!(messages[0].1, SERVER_HELLO.to_vec());
    assert!(deframer.is_aligned());
}

#[test]
fn handshake_deframer_splits_joined_messages() {
    let mut deframer = HandshakeDeframer::new();
    let mut two = SERVER_HELLO.to_vec();
    two.extend_from_slice(&SERVER_HELLO);
    two.extend_from_slice(&SERVER_HELLO[..10]);
    deframer.add(two);
    let messages = deframer.decoded().unwrap();
    assert_eq!(messages.len(), 2);
    assert_eq!(deframer.buffer, SERVER_HELLO[..10].to_vec());
}

#[test]
fn protected_records_open_on_the_other_side() {

    let secret: Vec<u8> = (100u8..132).collect();
    let mut enc = EncryptionState::new();
    enc.set_new_traffic_secret(&secret);
    let mut dec = DecryptionState::new();
    dec.set_new_traffic_secret(&secret);

    let mut wire = Vec::new();
    enc.encrypt(b"first", ContentType(23), &mut wire);
    enc.encrypt(b"second", ContentType(23), &mut wire);
    // Header, then the fragment, its content type and the 16-byte tag
    assert_eq!(wire.len(), 2 * 5 + 5 + 17 + 6 + 17);
    assert_eq!(&wire[..5], &[23, 3, 3, 0, 22]);

    let (first, used) = next_record(&wire).unwrap().unwrap();
    let (second, _) = next_record(&wire[used..]).unwrap().unwrap();
    match dec.decrypt(first).unwrap() {
        Message::ApplicationData(d) => assert_eq!(d, b"first".to_vec()),
        other => panic!("unexpected message {:?}", other),
    }
    match dec.decrypt(second).unwrap() {
        Message::ApplicationData(d) => assert_eq!(d, b"second".to_vec()),
        other => panic!("unexpected message {:?}", other),
    }
}

#[test]
fn protected_records_fail_out_of_order() {

    let secret: Vec<u8> = (100u8..132).collect();
    let mut enc = EncryptionState::new();
    enc.set_new_traffic_secret(&secret);
    let mut dec = DecryptionState::new();
    dec.set_new_traffic_secret(&secret);

    let mut wire = Vec::new();
    enc.encrypt(b"first", ContentType(23), &mut wire);
    enc.encrypt(b"second", ContentType(23), &mut wire);
    let (first, used) = next_record(&wire).unwrap().unwrap();
    let (second, _) = next_record(&wire[used..]).unwrap().unwrap();
    // The nonce of the second record is not the one of the first
    assert!(matches!(dec.decrypt(second), Err(Error::InvalidMessage(InvalidMessage::BadMacError))));
    // A failed record does not use up a sequence number
    assert!(dec.decrypt(first).is_ok());
}

#[test]
fn hex_writes_two_digits_and_a_space_per_byte() {
    assert_eq!(sickgnal::tls::hex::hex(&[0x00, 0x0f, 0xa5, 0xff]), "00 0f a5 ff ");
    assert_eq!(sickgnal::tls::hex::hex(&[]), "");
}

#[test]
fn handshake_starts_with_a_client_hello_and_takes_the_server_hello() {
    let mut conn = Connection::new(ClientConfig::new(Vec::new()), ServerName::DnsName(b"localhost".to_vec()));
    assert!(!conn.wants_write());
    conn.start_handshake().unwrap();
    assert!(conn.wants_write());
    assert!(conn.is_handshaking());
    let hello = conn.take_output();
    assert!(!conn.wants_write());
    // A handshake record holding a ClientHello
    assert_eq!(&hello[..3], &[22, 3, 3]);
    assert_eq!(hello[5], 1);
    let (record, used) = next_record(&hello).unwrap().unwrap();
    assert_eq!(used, hello.len());
    assert_eq!(record.payload.len(), hello.len() - 5);

    let mut server = vec![22u8, 3, 3, 0, 90];
    server.extend_from_slice(&SERVER_HELLO);
    assert!(conn.can_receive(server.len()));
    assert!(conn.wants_read());
    conn.receive_bytes(&server);
    assert!(!conn.wants_read());
    conn.process_new_packets().unwrap();
    assert!(matches!(conn.state, Ok(State::WaitEncryptedExtensions(_))));
    // The handshake keys protect what follows
    assert!(conn.receiver.decryption_state.enabled());
    assert!(conn.is_handshaking());
    // No application data can be written before the handshake is over
    assert!(matches!(conn.write(b"early"), Err(Error::InvalidState)));
}

#[test]
fn a_second_server_hello_is_refused() {
    let mut conn = Connection::new(ClientConfig::new(Vec::new()), ServerName::DnsName(b"localhost".to_vec()));
    conn.start_handshake().unwrap();
    let _ = conn.take_output();
    let mut server = vec![22u8, 3, 3, 0, 90];
    server.extend_from_slice(&SERVER_HELLO);
    conn.receive_bytes(&server);
    conn.process_new_packets().unwrap();
    // Unprotected handshake records are refused once the keys are installed
    conn.receive_bytes(&server);
    assert!(conn.process_new_packets().is_err());
}

#[test]
fn a_partial_record_waits_for_the_rest() {
    let mut conn = Connection::new(ClientConfig::new(Vec::new()), ServerName::DnsName(b"localhost".to_vec()));
    conn.start_handshake().unwrap();
    let _ = conn.take_output();
    let mut server = vec![22u8, 3, 3, 0, 90];
    server.extend_from_slice(&SERVER_HELLO);
    // Only part of the record has arrived: nothing is processed yet
    conn.receive_bytes(&server[..40]);
    conn.process_new_packets().unwrap();
    assert!(matches!(conn.state, Ok(State::WaitServerHello(_))));
    assert_eq!(conn.receiver.input_buffer, server[..40].to_vec());
    assert!(!conn.receiver.decryption_state.enabled());
    // The rest of the record completes it
    conn.receive_bytes(&server[40..]);
    conn.process_new_packets().unwrap();
    assert!(matches!(conn.state, Ok(State::WaitEncryptedExtensions(_))));
    assert!(conn.receiver.input_buffer.is_empty());
}

#[test]
fn plain_application_data_goes_to_the_data() {
    let mut conn = Connection::new(ClientConfig::new(Vec::new()), ServerName::DnsName(b"localhost".to_vec()));
    conn.start_handshake().unwrap();
    let _ = conn.take_output();
    conn.receive_bytes(&[23, 3, 3, 0, 3, 7, 8, 9, 23, 3, 3, 0, 1, 10]);
    conn.process_new_packets().unwrap();
    assert!(matches!(conn.state, Ok(State::WaitServerHello(_))));
    assert_eq!(conn.receiver.data_buffer, vec![7, 8, 9, 10]);
    assert!(conn.receiver.input_buffer.is_empty());
}

#[test]
fn data_interleaved_with_a_partial_handshake_is_refused() {
    let mut conn = Connection::new(ClientConfig::new(Vec::new()), ServerName::DnsName(b"localhost".to_vec()));
    conn.start_handshake().unwrap();
    let _ = conn.take_output();
    // The start of a ServerHello: its header announces more than the record holds
    conn.receive_bytes(&[22, 3, 3, 0, 4, 2, 0, 0, 86]);
    conn.process_new_packets().unwrap();
    assert_eq!(conn.receiver.hs_deframer.buffer, vec![2, 0, 0, 86]);
    conn.receive_bytes(&[23, 3, 3, 0, 1, 9]);
    assert_eq!(
        conn.process_new_packets(),
        Err(Error::InvalidMessage(InvalidMessage::UnexpectedMessage))
    );
    // The connection stays refused
    assert_eq!(conn.process_new_packets(), Err(Error::UnfinishedHandshake));
}
