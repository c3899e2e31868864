use sickgnal::tls::enums::ContentTypeName;
use sickgnal::tls::msgs::Message;
use sickgnal::tls::reader::Reader;

// The payload of a record containing a single ServerHello
const SINGLE_SERVER_HELLO_PAYLOAD: [u8; 90] = [
    0x02, 0x00, 0x00, 0x56, 0x03, 0x03, 0x6c, 0xf2, 0x64, 0x7f, 0x6b, 0x0a, 0xcc, 0xaf, 0x5b,
    0x6b, 0xd0, 0x93, 0x82, 0xbf, 0x79, 0x77, 0x94, 0x76, 0x4f, 0xf8, 0x1d, 0x0d, 0x84, 0xf2,
    0x42, 0xb3, 0x18, 0x2f, 0xb1, 0x53, 0xbc, 0x96, 0x00, 0x13, 0x01, 0x00, 0x00, 0x2e, 0x00,
    0x2b, 0x00, 0x02, 0x03, 0x04, 0x00, 0x33, 0x00, 0x24, 0x00, 0x1d, 0x00, 0x20, 0x40, 0xcb,
    0xe4, 0x0c, 0x52, 0xf6, 0x45, 0xb4, 0x27, 0x2f, 0x43, 0x7d, 0x41, 0x3e, 0xb0, 0x57, 0x53,
    0x38, 0xbe, 0x60, 0xa6, 0x47, 0xfe, 0x97, 0x63, 0x79, 0x7d, 0x00, 0x57, 0x25, 0xb9, 0x2c,
];

#[test]
fn test_hs_decode_does_not_defrag() {
    let mut reader = Reader::new(&SINGLE_SERVER_HELLO_PAYLOAD);
    let msg = Message::decode(&mut reader, ContentTypeName::Handshake.value()).unwrap();

    let decoded_bytes = match msg {
        Message::HandshakeData(bytes) => bytes,
        _ => panic!("decoding a handshake should return a HandshakeData message"),
    };

    assert_eq!(decoded_bytes, Vec::from(SINGLE_SERVER_HELLO_PAYLOAD));
}
