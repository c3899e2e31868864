# Sickgnal

Sickgnal is an end-to-end encrypted chat client: an X3DH-style key agreement with
symmetric key rotation between users, a relay server protocol, and a small TLS 1.3
client. This crate is its verified core, written in Verus: the functions in `src/` carry
contracts that Verus proves, and the calls into outside crates stand behind the trusted
items of `src/primitives.rs` and of the payload cache.

## Layout

- `src/e2e`: the end-to-end protocol.
  - `keys`: key types and the key storage trait, with an in-memory storage.
  - `message`: protocol messages, encrypted payloads and their base64 fields.
  - `message_stream`: framing of the JSON message stream.
  - `client`: the client state (sessions, key exchange, key rotation, tagged requests),
    the decisions of the synchronous client, of the asynchronous handle and workers, the
    cache of undecipherable payloads and the initial synchronization.
- `src/tls`: the TLS 1.3 client: codecs, handshake messages, record layer, key
  schedule, record protection and the handshake state machine.
- `src/primitives.rs`: the cryptographic primitives of outside crates the library
  calls, with the contracts it relies on.
- `app/`: the program around the library: the JSON wire format, network streams,
  asynchronous workers and the TLS stream over a socket.
- `tests/`: tests of the library.

## Properties proved

Besides each function's contract, `src/` states laws as proof functions (`law_*`):

- opening a session: the message the initiator prepares is sealed for the responder who
  holds the bundle's secrets (`law_prepared_message_is_sealed_for_responder`), and
  `handle_open_session` then gives that payload back, when the storage does not fail and
  holds the keys, and the payload is JSON; the responder's keys mirror the initiator's
  (`law_opened_session_mirrors_prepared`);
- decryption inverts encryption, for payloads with a JSON message and for TLS records;
- key rotation keeps both ends of a session in step;
- the key storage gives back what was written;
- the payload cache gives back what it kept, in order, and loses no payload when it makes
  room;
- records, key shares, payloads, packets of the message stream and the names of protocol
  values read back what they wrote, and reads take a buffer in order.
