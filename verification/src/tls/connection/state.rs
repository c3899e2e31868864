//! The TLS client state machine (RFC 8446, appendix A.1)
//!
//! ```text
//!                               START <----+
//!                Send ClientHello |        | Recv HelloRetryRequest
//!                                 v        |
//!                              WAIT_SH ----+
//!                                 | Recv ServerHello
//!                                 | K_recv = handshake
//!                                 V
//!                              WAIT_EE
//!                                 | Recv EncryptedExtensions
//!                                 v
//!                              WAIT_CERT
//!                                 | Recv Certificate
//!                                 v
//!                              WAIT_CV
//!                                 | Recv CertificateVerify
//!                                 v
//!                           WAIT_FINISHED
//!                                 | Recv Finished
//!                                 | K_send = handshake
//!                                 | Send Finished
//!                                 | K_send = K_recv = application
//!                                 v
//!                             CONNECTED
//! ```
//!
//! We don't support client authentication using certificates, so the client waits for the
//! certificate directly and not for a certificate request, nor HelloRetryRequests yet.

use vstd::prelude::*;
use vstd::string::StringSliceAdditionalSpecFns;

use crate::{
    bytes::{bytes_to_vec, extend_bytes},
    tls::connection::sender::{chunks, protected_records},
    tls::msgs::finished_bytes,
    tls::codec::{be2, Encode},
    tls::record_layer::CIPHERTEXT_FRAGMENT_MAX_LEN,
    primitives::{
        cert_parses, cert_signature_valid, cert_valid_for_name, hkdf_sha256_extract, hkdf_sha256_prk,
        hmac_sha256, hmac_sha256_tag, hmac_sha256_verify, os_random_32, sha256, sha256_digest,
        webpki_cert_parses, webpki_valid_for_name, webpki_verify_chain, webpki_verify_signature,
        cert_chain_valid, roots_parts, x25519_public,
        x25519_diffie_hellman, x25519_public_key, x25519_shared,
    },
    tls::{
        connection::{decryption_state::DecryptionState, sender::Sender, traffic_keys::lemma_ascii_label_len},
        crypto::{derive_secret, derive_secret_spec, expand_label, hkdf_expand_label, keyshare::{KeyShareEntry, KeyShareSecret}},
        enums::{CipherSuite, ContentType, ProtocolVersion, SignatureSchemeName},
        error::{Error, InvalidMessage},
        msgs::{
            certificate::{CertificateMessage, CertificateVerify},
            client_hello::{ClientExtension, ClientHello, ClientRandom, ConnectionConfig},
            handshake::{Finished, Handshake},
            server_hello::{no_selected_group, ServerHello, ServerHelloPayload, ServerKeyShare},
            Message,
        },
        reader::Reader,
        record_layer::Record,
    },
};

verus! {

// region:    Key schedule

/// A string of hash-length zero bytes
pub open spec fn zeros32() -> Seq<u8> {
    Seq::new(32, |i: int| 0u8)
}

/// The Early Secret when no PSK is in use: HKDF-Extract(0, 0)
pub open spec fn early_secret() -> Seq<u8> {
    hkdf_sha256_prk(zeros32(), zeros32())
}

/// The Handshake Secret: HKDF-Extract(Derive-Secret(Early Secret, "derived", ""), (EC)DHE)
pub open spec fn spec_handshake_secret(shared: Seq<u8>) -> Seq<u8> {
    hkdf_sha256_prk(derive_secret_spec(early_secret(), "derived".spec_bytes(), None), shared)
}

/// A traffic secret: Derive-Secret(secret, label, transcript)
pub open spec fn spec_traffic_secret(secret: Seq<u8>, label: Seq<u8>, transcript: Seq<u8>) -> Seq<u8> {
    derive_secret_spec(secret, label, Some(sha256(transcript)))
}

/// The Master Secret: HKDF-Extract(Derive-Secret(Handshake Secret, "derived", ""), 0)
pub open spec fn spec_master_secret(handshake_secret: Seq<u8>) -> Seq<u8> {
    hkdf_sha256_prk(derive_secret_spec(handshake_secret, "derived".spec_bytes(), None), zeros32())
}

/// The finished key of a traffic secret: HKDF-Expand-Label(secret, "finished", "", 32)
pub open spec fn spec_finished_key(secret: Seq<u8>) -> Seq<u8> {
    expand_label(secret, "finished".spec_bytes(), seq![], 32)
}

/// The verify_data of a Finished message: HMAC(finished_key, Transcript-Hash)
pub open spec fn spec_verify_data(secret: Seq<u8>, transcript: Seq<u8>) -> Seq<u8> {
    hmac_sha256(spec_finished_key(secret), sha256(transcript))
}

/// What the server's CertificateVerify signature covers: 64 spaces, the context string, a
/// zero byte and the transcript hash
pub open spec fn certificate_verify_content(transcript: Seq<u8>) -> Seq<u8> {
    Seq::new(64, |i: int| 0x20u8) + "TLS 1.3, server CertificateVerify".spec_bytes() + seq![0u8]
        + sha256(transcript)
}

/// The label bytes the key schedule uses have no more bytes than characters
proof fn lemma_labels()
    ensures
        "derived".spec_bytes().len() == 7,
        "s hs traffic".spec_bytes().len() == 12,
        "c hs traffic".spec_bytes().len() == 12,
        "s ap traffic".spec_bytes().len() == 12,
        "c ap traffic".spec_bytes().len() == 12,
        "finished".spec_bytes().len() == 8,
        "TLS 1.3, server CertificateVerify".spec_bytes().len() == 33,
{
    reveal_strlit("derived");
    reveal_strlit("s hs traffic");
    reveal_strlit("c hs traffic");
    reveal_strlit("s ap traffic");
    reveal_strlit("c ap traffic");
    reveal_strlit("finished");
    reveal_strlit("TLS 1.3, server CertificateVerify");
    lemma_ascii_label_len("derived");
    lemma_ascii_label_len("s hs traffic");
    lemma_ascii_label_len("c hs traffic");
    lemma_ascii_label_len("s ap traffic");
    lemma_ascii_label_len("c ap traffic");
    lemma_ascii_label_len("finished");
    lemma_ascii_label_len("TLS 1.3, server CertificateVerify");
}

// endregion: Key schedule

// region:    States

/// An event that can happen in the TLS connection, and changes the state
#[derive(Debug)]
pub enum ReceiveEvent {
    Handshake { handshake: Handshake, bytes: Vec<u8> },
    ChangeCipherSpec,
    Alert,
}

/// The secrets of the handshake
#[derive(Debug)]
pub struct HandshakeSecrets {
    /// The Handshake Secret, as the pseudorandom key of its HKDF
    pub handshake_secret: Vec<u8>,
    /// The server_handshake_traffic_secret
    pub server_hs_traffic_secret: Vec<u8>,
    /// The client_handshake_traffic_secret
    pub client_hs_traffic_secret: Vec<u8>,
}

impl HandshakeSecrets {
    /// Whether the secrets have the length of a hash
    pub open spec fn wf(&self) -> bool {
        &&& self.handshake_secret@.len() == 32
        &&& self.server_hs_traffic_secret@.len() == 32
        &&& self.client_hs_traffic_secret@.len() == 32
    }
}

/// State of the connection when ClientHello was sent and we are waiting for the reply
pub struct WaitServerHelloState {
    /// The current connection configuration
    pub config: ConnectionConfig,
    /// The handshake messages so far, for the transcript hash
    pub transcript: Vec<u8>,
    /// The secrets for the key_share we sent
    pub key_share_secrets: Vec<KeyShareSecret>,
}

/// We received the ServerHello and are waiting for the encrypted extensions
#[derive(Debug)]
pub struct WaitEncryptedExtensionsState {
    pub config: ConnectionConfig,
    pub transcript: Vec<u8>,
    pub secrets: HandshakeSecrets,
}

/// We received the EncryptedExtensions and are waiting for the server certificate
#[derive(Debug)]
pub struct WaitCertificateState {
    pub config: ConnectionConfig,
    pub transcript: Vec<u8>,
    pub secrets: HandshakeSecrets,
}

/// We received the Certificate and are waiting for the CertificateVerify message
#[derive(Debug)]
pub struct WaitCertificateVerifyState {
    /// The DER encoding of the server certificate
    pub server_cert: Vec<u8>,
    pub transcript: Vec<u8>,
    pub secrets: HandshakeSecrets,
}

/// We received the CertificateVerify and are waiting for the Finished message
#[derive(Debug)]
pub struct WaitFinishedState {
    pub transcript: Vec<u8>,
    pub secrets: HandshakeSecrets,
}

/// The handshake is done
#[derive(Debug)]
pub struct ConnectedState {}

/// Represents the state of the TLS connection
///
/// Each state of the state machine can handle an input (with [`State::handle`]), which may
/// produce some outputs through the sender and the receiver keys, and returns the updated
/// state.
pub enum State {
    /// Initial state when the client is created
    Start,
    /// ClientHello was sent, we are waiting for the reply
    WaitServerHello(WaitServerHelloState),
    /// We received the ServerHello and are waiting for the encrypted extensions
    WaitEncryptedExtensions(WaitEncryptedExtensionsState),
    /// We are waiting for the server certificate
    WaitCertificate(WaitCertificateState),
    /// We are waiting for the CertificateVerify message
    WaitCertificateVerify(WaitCertificateVerifyState),
    /// We are waiting for the Finished message
    WaitFinished(WaitFinishedState),
    /// The handshake is done and we can send application data
    Connected(ConnectedState),
}

// endregion: States

/// The error of an unexpected message
pub open spec fn unexpected() -> Error {
    Error::InvalidMessage(InvalidMessage::UnexpectedMessage)
}

/// Whether the keys of the sender and the receiver are usable
pub open spec fn keys_wf(sender: &Sender, receiver: &DecryptionState) -> bool {
    &&& sender.encryption_state.wf()
    &&& sender.encryption_state.sequence_number() < u64::MAX
    &&& receiver.wf()
}

/// Whether an event is a ServerHello whose extensions hold a HelloRetryRequest key share,
/// which decoding never produces
pub open spec fn event_well_formed(input: &ReceiveEvent) -> bool {
    input matches ReceiveEvent::Handshake {
        handshake: Handshake::ServerHello(ServerHello::ServerHello(p)),
        ..
    } ==> no_selected_group(p.extensions@)
}

impl State {
    /// Whether the state holds secrets of the right length
    pub open spec fn wf(&self) -> bool {
        match self {
            State::WaitEncryptedExtensions(s) => s.secrets.wf(),
            State::WaitCertificate(s) => s.secrets.wf(),
            State::WaitCertificateVerify(s) => s.secrets.wf() && cert_parses(s.server_cert@),
            State::WaitFinished(s) => s.secrets.wf(),
            _ => true,
        }
    }

    /// Whether this state is a handshaking state
    pub open spec fn spec_is_handshaking(&self) -> bool {
        !(self is Connected)
    }

    /// Returns `true` if this state is a handshaking state
    pub fn is_handshaking(&self) -> (r: bool)
        ensures
            r == self.spec_is_handshaking(),
    {
        match self {
            State::Connected(..) => false,
            _ => true,
        }
    }

    /// Returns `true` when the state needs to read data
    pub fn wants_read(&self) -> (r: bool)
        ensures
            r == !(self is Start),
    {
        match self {
            State::Start => false,
            _ => true,
        }
    }
}

/// The first key share secret we sent, if any
pub open spec fn first_secret(secrets: Seq<KeyShareSecret>) -> Option<Seq<u8>> {
    if secrets.len() == 0 {
        None
    } else {
        match secrets[0] {
            KeyShareSecret::X25519(k) => Some(k@),
        }
    }
}

/// Whether the sender protects records with the traffic secret `secret`, from the first
/// record on, and its output is unchanged
pub open spec fn sender_keyed(before: &Sender, after: &Sender, secret: Seq<u8>) -> bool {
    &&& after.encryption_state matches crate::tls::connection::encryption_state::EncryptionState::Enabled(
        k,
    ) && k.secret@ == secret && k.sequence_number == 0
    &&& after.output_buffer@ == before.output_buffer@
}

/// The client offers the version a ServerHello must select: whenever a ServerHello passes
/// the check of the state that waits for it, the supported_versions extension of the
/// ClientHello offers exactly the version that ServerHello selected, as its only version
pub proof fn law_offered_version_is_the_selected_one(
    st: &WaitServerHelloState,
    p: &ServerHelloPayload,
    bytes: Seq<u8>,
    r: Result<State, Error>,
    sender_before: &Sender,
    sender: &Sender,
    receiver: &DecryptionState,
)
    requires
        server_hello_outcome(st, p, bytes, r, sender_before, sender, receiver),
        r is Ok,
    ensures
        p.extensions.supported_version matches Some(v) && ClientExtension::SupportedVersions.body()
            == seq![2u8] + be2(v.0) && ClientExtension::SupportedVersions.encoding().skip(4) == seq![
            2u8,
        ] + be2(v.0),
{
    let v = p.extensions.supported_version->0;
    assert(v == ProtocolVersion(0x0304));
    assert(be2(0x0304u16) =~= seq![3u8, 4u8]);
    let body = ClientExtension::SupportedVersions.body();
    assert(body =~= seq![2u8, 3u8, 4u8]);
    assert(crate::tls::codec::be_bytes(3, 2).len() == 2) by {
        reveal_with_fuel(crate::tls::codec::be_bytes, 3);
    }
    let t = be2(ClientExtension::SupportedVersions.spec_extension_type().spec_value());
    assert(ClientExtension::SupportedVersions.encoding() == t + crate::tls::codec::be_bytes(body.len(), 2) + body);
    assert(ClientExtension::SupportedVersions.encoding().skip(4) =~= seq![2u8, 3u8, 4u8]);
    assert(seq![2u8] + be2(v.0) =~= seq![2u8, 3u8, 4u8]);
}

/// Whether the receiver opens records with the traffic secret `secret`, from the first
/// record on
pub open spec fn receiver_keyed(after: &DecryptionState, secret: Seq<u8>) -> bool {
    *after matches DecryptionState::Enabled(k) && k.secret@ == secret && k.sequence_number == 0
}

/// What receiving a ServerHello gives in the state that waits for it
pub open spec fn server_hello_outcome(
    st: &WaitServerHelloState,
    p: &ServerHelloPayload,
    bytes: Seq<u8>,
    r: Result<State, Error>,
    sender_before: &Sender,
    sender: &Sender,
    receiver: &DecryptionState,
) -> bool {
    match p.extensions.supported_version {
        None => r == Err::<State, Error>(Error::InvalidMessage(InvalidMessage::MissingExtension)),
        Some(v) => if v != ProtocolVersion(0x0304) {
            r == Err::<State, Error>(Error::InvalidMessage(InvalidMessage::UnsupportedProtocolVersion))
        } else if p.cipher_suite != CipherSuite(0x1301) {
            r == Err::<State, Error>(Error::InvalidMessage(InvalidMessage::IllegalParameter))
        } else {
            match p.extensions.key_share {
                Some(ServerKeyShare::Entry(e)) => match first_secret(st.key_share_secrets@) {
                    None => r == Err::<State, Error>(
                        Error::InvalidMessage(InvalidMessage::UnsupportedNamedGroup),
                    ),
                    Some(secret) => {
                        let hs = spec_handshake_secret(x25519_shared(secret, e.public_value()));
                        let t = st.transcript@ + bytes;
                        let s_hs = spec_traffic_secret(hs, "s hs traffic".spec_bytes(), t);
                        let c_hs = spec_traffic_secret(hs, "c hs traffic".spec_bytes(), t);
                        &&& r matches Ok(State::WaitEncryptedExtensions(n)) && n.transcript@ == t
                            && n.config == st.config && n.secrets.handshake_secret@ == hs
                            && n.secrets.server_hs_traffic_secret@ == s_hs
                            && n.secrets.client_hs_traffic_secret@ == c_hs
                        &&& receiver_keyed(receiver, s_hs)
                        &&& sender_keyed(sender_before, sender, c_hs)
                    },
                },
                _ => r == Err::<State, Error>(Error::InvalidMessage(InvalidMessage::MissingExtension)),
            }
        },
    }
}

impl WaitServerHelloState {
    /// Handle the reply to our ClientHello: check the negotiated version, cipher suite and
    /// key share, and derive the handshake traffic secrets from the shared secret
    #[verifier::rlimit(60)]
    pub fn handle(self, input: ReceiveEvent, sender: &mut Sender, receiver: &mut DecryptionState) -> (r:
        Result<State, Error>)
        requires
            keys_wf(&*old(sender), &*old(receiver)),
            event_well_formed(&input),
        ensures
            keys_wf(&*final(sender), &*final(receiver)),
            r matches Ok(st) ==> st.wf(),
            !(input matches ReceiveEvent::Handshake { handshake: Handshake::ServerHello(_), .. })
                ==> r == Err::<State, Error>(unexpected()),
            input matches ReceiveEvent::Handshake {
                handshake: Handshake::ServerHello(ServerHello::HelloRetryRequest(_)),
                ..
            } ==> r == Err::<State, Error>(Error::UnsupportedHelloRetryRequest),
            input matches ReceiveEvent::Handshake {
                handshake: Handshake::ServerHello(ServerHello::ServerHello(p)),
                bytes,
            } ==> server_hello_outcome(&self, &p, bytes@, r, &*old(sender), &*final(sender), &*final(receiver)),
            r is Err ==> *final(sender) == *old(sender) && *final(receiver) == *old(receiver),
            r is Ok ==> final(receiver).sequence_number() == 0,
    {
        let (sh_bytes, sh) = match input {
            // We only expect ServerHello or HelloRetryRequest messages here
            ReceiveEvent::Handshake { handshake: Handshake::ServerHello(hello), bytes } => {
                match hello {
                    ServerHello::ServerHello(h) => (bytes, h),
                    // We don't support HelloRetryRequests yet
                    ServerHello::HelloRetryRequest(_) => {
                        return Err(Error::UnsupportedHelloRetryRequest);
                    },
                }
            },
            _ => return Err(Error::InvalidMessage(InvalidMessage::UnexpectedMessage)),
        };
        // Check that we are negotiating TLS1.3
        let version = match sh.extensions.supported_version {
            Some(v) => v,
            None => return Err(Error::InvalidMessage(InvalidMessage::MissingExtension)),
        };
        if version.0 != 0x0304 {
            return Err(Error::InvalidMessage(InvalidMessage::UnsupportedProtocolVersion));
        }
        // Check that the ciphersuite is correct: we only offer a single one
        if sh.cipher_suite.0 != 0x1301 {
            return Err(Error::InvalidMessage(InvalidMessage::IllegalParameter));
        }
        // Compute the shared secret from the key share
        let server_share = match sh.extensions.key_share {
            None => return Err(Error::InvalidMessage(InvalidMessage::MissingExtension)),
            Some(ServerKeyShare::Entry(share)) => share,
            Some(ServerKeyShare::SelectedGroup(_)) => {
                // decoding a ServerHello never gives the key share of a HelloRetryRequest
                assert(false);
                return Err(Error::InvalidMessage(InvalidMessage::MissingExtension));
            },
        };
        // Get the secret of the same group: we only send X25519 shares
        if self.key_share_secrets.len() == 0 {
            return Err(Error::InvalidMessage(InvalidMessage::UnsupportedNamedGroup));
        }
        let KeyShareSecret::X25519(client_secret) = self.key_share_secrets[0];
        let KeyShareEntry::X25519(server_public) = server_share;
        let shared_secret = x25519_diffie_hellman(&client_secret, &server_public);

        // The transcript now that we know the ciphersuite
        let mut transcript = self.transcript;
        extend_bytes(&mut transcript, sh_bytes.as_slice());

        proof {
            lemma_labels();
        }
        // If PSK is not in use, Early Secret is still HKDF-Extract(0, 0)
        let zeros = [0u8; 32];
        assert(zeros@ =~= zeros32());
        let early = hkdf_sha256_extract(zeros.as_slice(), zeros.as_slice());
        // Handshake Secret = HKDF-Extract(Derive-Secret(Early Secret, "derived", ""), (EC)DHE)
        let derived = derive_secret(early.as_slice(), "derived", None);
        let handshake_secret = hkdf_sha256_extract(derived.as_slice(), shared_secret.as_slice());
        let transcript_hash = sha256_digest(transcript.as_slice());
        let server_hs_traffic_secret = derive_secret(
            handshake_secret.as_slice(),
            "s hs traffic",
            Some(transcript_hash.as_slice()),
        );
        receiver.set_new_traffic_secret(server_hs_traffic_secret.as_slice());
        let client_hs_traffic_secret = derive_secret(
            handshake_secret.as_slice(),
            "c hs traffic",
            Some(transcript_hash.as_slice()),
        );
        sender.set_new_traffic_secret(client_hs_traffic_secret.as_slice());
        Ok(
            State::WaitEncryptedExtensions(
                WaitEncryptedExtensionsState {
                    config: self.config,
                    transcript,
                    secrets: HandshakeSecrets {
                        handshake_secret,
                        server_hs_traffic_secret,
                        client_hs_traffic_secret,
                    },
                },
            ),
        )
    }
}

impl WaitEncryptedExtensionsState {
    /// Handle the EncryptedExtensions message, which must hold no extension
    pub fn handle(self, input: ReceiveEvent) -> (r: Result<State, Error>)
        requires
            self.secrets.wf(),
        ensures
            r matches Ok(st) ==> st.wf(),
            input matches ReceiveEvent::Handshake { handshake: Handshake::EncryptedExtensions, bytes }
                ==> (r matches Ok(State::WaitCertificate(n)) && n.transcript@ == self.transcript@
                + bytes@ && n.config == self.config && n.secrets == self.secrets),
            !(input matches ReceiveEvent::Handshake { handshake: Handshake::EncryptedExtensions, .. })
                ==> r == Err::<State, Error>(unexpected()),
    {
        // Ensure we only receive an empty EncryptedExtensions message
        let hs_bytes = match input {
            ReceiveEvent::Handshake { handshake: Handshake::EncryptedExtensions, bytes } => bytes,
            _ => return Err(Error::InvalidMessage(InvalidMessage::UnexpectedMessage)),
        };
        // Add the handshake to the transcript
        let mut transcript = self.transcript;
        extend_bytes(&mut transcript, hs_bytes.as_slice());
        Ok(
            State::WaitCertificate(
                WaitCertificateState { config: self.config, transcript, secrets: self.secrets },
            ),
        )
    }
}

impl WaitCertificateState {
    /// Handle the server Certificate: it must be readable, chain up to a trusted root at
    /// the time `now` (seconds since the Unix epoch; `None` when the clock cannot be read,
    /// and then no chain is trusted), and be valid for the server name
    pub fn handle(self, input: ReceiveEvent, now: Option<u64>) -> (r: Result<State, Error>)
        requires
            self.secrets.wf(),
        ensures
            r matches Ok(st) ==> st.wf(),
            !(input matches ReceiveEvent::Handshake { handshake: Handshake::Certificate(_), .. })
                ==> r == Err::<State, Error>(unexpected()),
            input matches ReceiveEvent::Handshake { handshake: Handshake::Certificate(certs), bytes }
                ==> ({
                let cert = certs.server_cert@;
                let name_ok = cert_valid_for_name(
                    cert,
                    self.config.server_name is DnsName,
                    self.config.server_name.bytes(),
                );
                let chain_ok = now matches Some(t) && cert_chain_valid(
                    cert,
                    certs.certification_path.deep_view(),
                    roots_parts(self.config.root_certificates@),
                    t,
                );
                &&& !cert_parses(cert) ==> r == Err::<State, Error>(
                    Error::InvalidMessage(InvalidMessage::CertDecodeError),
                )
                &&& cert_parses(cert) && !(chain_ok && name_ok) ==> r == Err::<State, Error>(
                    Error::InvalidMessage(InvalidMessage::InvalidCertificate),
                )
                &&& cert_parses(cert) && chain_ok && name_ok ==> (r matches Ok(
                    State::WaitCertificateVerify(n),
                ) && n.server_cert@ == cert && n.transcript@ == self.transcript@ + bytes@
                    && n.secrets == self.secrets)
            }),
    {
        // Ensure we only receive a Certificate message
        let (bytes, certs) = match input {
            ReceiveEvent::Handshake { handshake: Handshake::Certificate(certs), bytes } => (
                bytes,
                certs,
            ),
            _ => return Err(Error::InvalidMessage(InvalidMessage::UnexpectedMessage)),
        };
        // Check that the certificate is valid
        if !webpki_cert_parses(certs.server_cert.as_slice()) {
            return Err(Error::InvalidMessage(InvalidMessage::CertDecodeError));
        }
        // Without a clock, the chain cannot be checked
        let chain_ok = match now {
            Some(t) => webpki_verify_chain(
                certs.server_cert.as_slice(),
                &certs.certification_path,
                &self.config.root_certificates,
                t,
            ),
            None => false,
        };
        if !chain_ok {
            return Err(Error::InvalidMessage(InvalidMessage::InvalidCertificate));
        }
        if !webpki_valid_for_name(certs.server_cert.as_slice(), &self.config.server_name) {
            return Err(Error::InvalidMessage(InvalidMessage::InvalidCertificate));
        }
        let mut transcript = self.transcript;
        extend_bytes(&mut transcript, bytes.as_slice());
        Ok(
            State::WaitCertificateVerify(
                WaitCertificateVerifyState {
                    server_cert: certs.server_cert,
                    transcript,
                    secrets: self.secrets,
                },
            ),
        )
    }
}

impl WaitCertificateVerifyState {
    /// Handle the CertificateVerify message: its signature, with the scheme we offered, must
    /// cover the transcript under the key of the server certificate
    pub fn handle(self, input: ReceiveEvent) -> (r: Result<State, Error>)
        requires
            self.secrets.wf(),
            cert_parses(self.server_cert@),
        ensures
            r matches Ok(st) ==> st.wf(),
            !(input matches ReceiveEvent::Handshake { handshake: Handshake::CertificateVerify(_), .. })
                ==> r == Err::<State, Error>(unexpected()),
            input matches ReceiveEvent::Handshake {
                handshake: Handshake::CertificateVerify(msg),
                bytes,
            } ==> ({
                &&& msg.algorithm != SignatureSchemeName::rsa_pss_rsae_sha256 ==> r == Err::<
                    State,
                    Error,
                >(Error::InvalidMessage(InvalidMessage::IllegalParameter))
                &&& msg.algorithm == SignatureSchemeName::rsa_pss_rsae_sha256 && !cert_signature_valid(
                    self.server_cert@,
                    certificate_verify_content(self.transcript@),
                    msg.signature@,
                ) ==> r == Err::<State, Error>(
                    Error::InvalidMessage(InvalidMessage::InvalidCertificateVerify),
                )
                &&& msg.algorithm == SignatureSchemeName::rsa_pss_rsae_sha256 && cert_signature_valid(
                    self.server_cert@,
                    certificate_verify_content(self.transcript@),
                    msg.signature@,
                ) ==> (r matches Ok(State::WaitFinished(n)) && n.transcript@ == self.transcript@
                    + bytes@ && n.secrets == self.secrets)
            }),
    {
        // Ensure we only receive a CertificateVerify message
        let (bytes, msg) = match input {
            ReceiveEvent::Handshake { handshake: Handshake::CertificateVerify(msg), bytes } => (
                bytes,
                msg,
            ),
            _ => return Err(Error::InvalidMessage(InvalidMessage::UnexpectedMessage)),
        };
        // Ensure the server used the signature scheme we offered
        if msg.algorithm != SignatureSchemeName::rsa_pss_rsae_sha256 {
            return Err(Error::InvalidMessage(InvalidMessage::IllegalParameter));
        }
        let transcript_hash = sha256_digest(self.transcript.as_slice());
        let mut content: Vec<u8> = Vec::new();
        let spaces = [0x20u8; 64];
        extend_bytes(&mut content, spaces.as_slice());
        extend_bytes(&mut content, "TLS 1.3, server CertificateVerify".as_bytes());
        content.push(0);
        extend_bytes(&mut content, transcript_hash.as_slice());
        assert(spaces@ =~= Seq::new(64, |i: int| 0x20u8));
        assert(content@ =~= certificate_verify_content(self.transcript@));
        // we use rsa_pss_rsae_sha256 for the signature
        if !webpki_verify_signature(
            self.server_cert.as_slice(),
            content.as_slice(),
            msg.signature.as_slice(),
        ) {
            return Err(Error::InvalidMessage(InvalidMessage::InvalidCertificateVerify));
        }
        let mut transcript = self.transcript;
        extend_bytes(&mut transcript, bytes.as_slice());
        Ok(State::WaitFinished(WaitFinishedState { transcript, secrets: self.secrets }))
    }
}

impl WaitFinishedState {
    /// Handle the server Finished message: its verify_data must be the HMAC of the
    /// transcript under the server's finished key. Then send our Finished message, and
    /// switch both directions to the application traffic secrets.
    #[verifier::rlimit(60)]
    pub fn handle(self, input: ReceiveEvent, sender: &mut Sender, receiver: &mut DecryptionState) -> (r:
        Result<State, Error>)
        requires
            keys_wf(&*old(sender), &*old(receiver)),
            self.secrets.wf(),
        ensures
            keys_wf(&*final(sender), &*final(receiver)),
            r matches Ok(st) ==> st is Connected,
            r is Err ==> *final(sender) == *old(sender) && *final(receiver) == *old(receiver),
            r is Ok ==> final(receiver).sequence_number() == 0,
            !(input matches ReceiveEvent::Handshake { handshake: Handshake::Finished(_), .. })
                ==> r == Err::<State, Error>(unexpected()),
            input matches ReceiveEvent::Handshake { handshake: Handshake::Finished(msg), bytes }
                ==> ({
                let s_hs = self.secrets.server_hs_traffic_secret@;
                let c_hs = self.secrets.client_hs_traffic_secret@;
                let t = self.transcript@ + bytes@;
                let mac = spec_verify_data(c_hs, t);
                let master = spec_master_secret(self.secrets.handshake_secret@);
                &&& msg.verify_data@ != spec_verify_data(s_hs, self.transcript@) ==> r == Err::<
                    State,
                    Error,
                >(Error::InvalidMessage(InvalidMessage::InvalidFinishedHmac))
                &&& msg.verify_data@ == spec_verify_data(s_hs, self.transcript@) ==> {
                    &&& r is Ok
                    &&& !old(sender).encryption_state.spec_needs_rekey() ==> final(
                        sender).output_buffer@ == old(sender).output_buffer@ + protected_records(
                        old(sender).encryption_state,
                        old(sender).encryption_state.sequence_number() as nat,
                        22,
                        chunks(
                            finished_bytes(mac),
                            (CIPHERTEXT_FRAGMENT_MAX_LEN - old(
                                sender).encryption_state.spec_overhead()) as nat,
                        ),
                    )
                    &&& final(sender).encryption_state matches crate::tls::connection::encryption_state::EncryptionState::Enabled(
                        k,
                    ) && k.secret@ == spec_traffic_secret(master, "c ap traffic".spec_bytes(), t)
                        && k.sequence_number == 0
                    &&& receiver_keyed(
                        &*final(receiver),
                        spec_traffic_secret(master, "s ap traffic".spec_bytes(), t),
                    )
                }
            }),
    {
        // Ensure we only receive a Finished message
        let (bytes, msg) = match input {
            ReceiveEvent::Handshake { handshake: Handshake::Finished(msg), bytes } => (bytes, msg),
            _ => return Err(Error::InvalidMessage(InvalidMessage::UnexpectedMessage)),
        };
        proof {
            lemma_labels();
        }
        // finished_key = HKDF-Expand-Label(server_handshake_traffic_secret, "finished", "", 32)
        let server_finished_key = hkdf_expand_label(
            self.secrets.server_hs_traffic_secret.as_slice(),
            "finished",
            &[],
            32,
        );
        assert(Seq::<u8>::empty() =~= seq![]);
        // verify_data = HMAC(finished_key, transcript_hash)
        let transcript_hash = sha256_digest(self.transcript.as_slice());
        if !hmac_sha256_verify(
            server_finished_key.as_slice(),
            transcript_hash.as_slice(),
            msg.verify_data.as_slice(),
        ) {
            return Err(Error::InvalidMessage(InvalidMessage::InvalidFinishedHmac));
        }
        let mut transcript = self.transcript;
        extend_bytes(&mut transcript, bytes.as_slice());
        let transcript_hash = sha256_digest(transcript.as_slice());

        // Send our Finished message
        let client_finished_key = hkdf_expand_label(
            self.secrets.client_hs_traffic_secret.as_slice(),
            "finished",
            &[],
            32,
        );
        let mac = hmac_sha256_tag(client_finished_key.as_slice(), transcript_hash.as_slice());
        sender.send(Message::finished(mac));

        // Update the traffic keys
        let derived = derive_secret(self.secrets.handshake_secret.as_slice(), "derived", None);
        let zeros = [0u8; 32];
        assert(zeros@ =~= zeros32());
        let master_secret = hkdf_sha256_extract(derived.as_slice(), zeros.as_slice());
        let client_app_traffic_secret = derive_secret(
            master_secret.as_slice(),
            "c ap traffic",
            Some(transcript_hash.as_slice()),
        );
        let server_app_traffic_secret = derive_secret(
            master_secret.as_slice(),
            "s ap traffic",
            Some(transcript_hash.as_slice()),
        );
        sender.set_new_traffic_secret(client_app_traffic_secret.as_slice());
        receiver.set_new_traffic_secret(server_app_traffic_secret.as_slice());
        Ok(State::Connected(ConnectedState {}))
    }
}

impl State {
    /// Handle an incoming [`ReceiveEvent`]
    ///
    /// Nothing is handled before the handshake starts, nor once it is done: both give
    /// [`Error::InvalidState`].
    pub fn handle(
        self,
        input: ReceiveEvent,
        sender: &mut Sender,
        receiver: &mut DecryptionState,
        now: Option<u64>,
    ) -> (r: Result<State, Error>)
        requires
            keys_wf(&*old(sender), &*old(receiver)),
            self.wf(),
            event_well_formed(&input),
        ensures
            keys_wf(&*final(sender), &*final(receiver)),
            r matches Ok(st) ==> st.wf(),
            final(receiver).sequence_number() <= old(receiver).sequence_number(),
            (self is Start || self is Connected) ==> r == Err::<State, Error>(Error::InvalidState)
                && *final(sender) == *old(sender) && *final(receiver) == *old(receiver),
    {
        // Simply pass the call to the underlying state
        match self {
            State::Start => Err(Error::InvalidState),
            State::WaitServerHello(s) => s.handle(input, sender, receiver),
            State::WaitEncryptedExtensions(s) => s.handle(input),
            State::WaitCertificate(s) => s.handle(input, now),
            State::WaitCertificateVerify(s) => s.handle(input),
            State::WaitFinished(s) => s.handle(input, sender, receiver),
            State::Connected(_) => Err(Error::InvalidState),
        }
    }

    /// Perform a TLS handshake: send a ClientHello with a fresh X25519 key share
    pub fn handshake(self, config: ConnectionConfig, sender: &mut Sender) -> (r: Result<State, Error>)
        requires
            old(sender).encryption_state.wf(),
            old(sender).encryption_state.sequence_number() < u64::MAX,
        ensures
            final(sender).encryption_state.wf(),
            final(sender).encryption_state.sequence_number() < u64::MAX,
            !(self is Start) ==> r == Err::<State, Error>(Error::InvalidState) && *final(sender)
                == *old(sender),
            self is Start ==> (r matches Ok(State::WaitServerHello(n)) && n.key_share_secrets@.len()
                == 1 && n.config == config) || (r == Err::<State, Error>(Error::NoRandomness)
                && *final(sender) == *old(sender)),
            // the transcript starts with the bytes of the ClientHello that was sent, which
            // carries the key share of the secret kept
            r matches Ok(State::WaitServerHello(n)) ==> ({
                let st = old(sender).encryption_state;
                &&& !st.spec_needs_rekey() ==> final(sender).output_buffer@ == old(
                    sender,
                ).output_buffer@ + protected_records(
                    st,
                    st.sequence_number() as nat,
                    22,
                    chunks(
                        n.transcript@,
                        (CIPHERTEXT_FRAGMENT_MAX_LEN - st.spec_overhead()) as nat,
                    ),
                )
                &&& n.key_share_secrets@[0] matches KeyShareSecret::X25519(secret) && exists|
                    h: ClientHello,
                |
                    #[trigger] h.encoding() == n.transcript@ && h.extensions@.len() >= 4
                        && h.extensions@[0] == ClientExtension::SupportedVersions
                        && (h.extensions@[3] matches ClientExtension::KeyShare(k) && k@.len() == 1
                        && (k@[0] matches KeyShareEntry::X25519(pk) && pk@ == x25519_public(
                        secret@,
                    )))
            }),
    {
        match self {
            State::Start => {},
            _ => return Err(Error::InvalidState),
        }
        let secret = match os_random_32() {
            Some(s) => s,
            None => return Err(Error::NoRandomness),
        };
        let random = match ClientRandom::new_random() {
            Some(r) => r,
            None => return Err(Error::NoRandomness),
        };
        let public = x25519_public_key(&secret);
        let hello = ClientHello::new(public, random, &config);
        let ghost hello_view = hello;
        let msg = Message::client_hello(hello);
        // Save the handshake for the transcript
        let transcript_hash_buffer = match &msg {
            Message::Handshake { raw_bytes, .. } => bytes_to_vec(raw_bytes.as_slice()),
            _ => Vec::new(),
        };
        let ghost h = hello_view;
        // send the handshake
        sender.send(msg);
        let mut key_share_secrets: Vec<KeyShareSecret> = Vec::new();
        key_share_secrets.push(KeyShareSecret::X25519(secret));
        proof {
            assert(transcript_hash_buffer@ == h.encoding());
        }
        Ok(
            State::WaitServerHello(
                WaitServerHelloState {
                    config,
                    transcript: transcript_hash_buffer,
                    key_share_secrets,
                },
            ),
        )
    }

    /// Decide if we should discard a change_cipher_spec record: we accept valid ones after
    /// our ClientHello and before the server's Finished
    ///
    /// Returns `true` if the record should be discarded
    pub fn discard_ccs(&mut self, record: &Record) -> (r: Result<bool, Error>)
        ensures
            *final(self) == *old(self),
            record.typ.0 != 20 ==> r == Ok::<bool, Error>(false),
            record.typ.0 == 20 && (*old(self) is Start || *old(self) is Connected) ==> r == Ok::<
                bool,
                Error,
            >(false),
            record.typ.0 == 20 && !(*old(self) is Start || *old(self) is Connected) ==> match crate::tls::msgs::parse_message(
                record.payload@,
                ContentType(20),
            ) {
                Ok(_) => r == Ok::<bool, Error>(true),
                Err(e) => r == Err::<bool, Error>(Error::InvalidMessage(e)),
            },
    {
        // don't discard non ccs messages
        if record.typ.0 != 20 {
            return Ok(false);
        }
        // We should only accept ccs after our ClientHello and before the server's Finished
        match self {
            State::Start | State::Connected(_) => return Ok(false),
            _ => {},
        }
        // Decode the message to check that its a valid ccs
        let mut reader = Reader::new(record.payload.as_slice());
        match Message::decode(&mut reader, ContentType(20)) {
            Ok(_) => Ok(true),
            Err(e) => Err(Error::InvalidMessage(e)),
        }
    }
}

} // verus!
