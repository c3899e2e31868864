//! ClientHello message (RFC 8446, section 4.1.2)

use vstd::prelude::*;

use crate::{
    bytes::extend_bytes,
    primitives::os_random_32,
    tls::{
        codec::{be2, be_bytes, encode_all, encode_length_prefixed_vector, push_u16, Encode, LengthSize},
        crypto::keyshare::KeyShareEntry,
        enums::{
            CipherSuite, CipherSuiteName, ExtensionTypeName, HandshakeTypeName, NamedGroup,
            NamedGroupName, ProtocolVersion, ProtocolVersionName, SignatureScheme,
            SignatureSchemeName,
        },
    },
};

verus! {

/// The only cipher suite we offer
pub open spec fn offered_ciphersuite() -> CipherSuite {
    CipherSuite(0x1301)
}

/// The only signature scheme we offer
pub open spec fn offered_sig_scheme() -> SignatureSchemeName {
    SignatureSchemeName::rsa_pss_rsae_sha256
}

/// The name of the server we connect to
#[derive(Debug, Clone)]
pub enum ServerName {
    /// A DNS name, as its ASCII bytes
    DnsName(Vec<u8>),
    /// An IP address, as the ASCII bytes of its text
    IpAddress(Vec<u8>),
}

impl ServerName {
    /// The bytes of the name
    pub open spec fn bytes(&self) -> Seq<u8> {
        match self {
            ServerName::DnsName(b) => b@,
            ServerName::IpAddress(b) => b@,
        }
    }
}

/// A trusted root certificate, as the parts of it that certificate verification reads:
/// each is DER-encoded
#[derive(Debug, Clone)]
pub struct RootCertificate {
    pub subject: Vec<u8>,
    pub subject_public_key_info: Vec<u8>,
    pub name_constraints: Option<Vec<u8>>,
}

/// The configuration of a connection
#[derive(Debug, Clone)]
pub struct ConnectionConfig {
    /// The trusted root certificates
    pub root_certificates: Vec<RootCertificate>,
    /// The server name to connect to, used for peer verification
    pub server_name: ServerName,
}

/// The client random value
#[derive(Debug, Clone, Copy)]
pub struct ClientRandom(pub [u8; 32]);

impl ClientRandom {
    /// A fresh random value from the operating system's generator, or `None` when it gives
    /// no random bytes
    pub fn new_random() -> (r: Option<Self>) {
        match os_random_32() {
            Some(b) => Some(ClientRandom(b)),
            None => None,
        }
    }
}

impl Encode for ClientRandom {
    open spec fn encoding(&self) -> Seq<u8> {
        self.0@
    }

    fn encode(&self, dest: &mut Vec<u8>) {
        extend_bytes(dest, self.0.as_slice());
    }
}

/// An extension of the ClientHello
#[derive(Debug, Clone)]
pub enum ClientExtension {
    /// The server_name extension (SNI) with a single host name
    ServerName(Vec<u8>),
    /// We only support TLSv1.3 here, which will be hardcoded
    SupportedVersions,
    SignatureAlgorithms(Vec<SignatureScheme>),
    KeyShare(Vec<KeyShareEntry>),
    SupportedGroups(Vec<NamedGroup>),
}

impl ClientExtension {
    /// The extension type of this extension
    pub open spec fn spec_extension_type(&self) -> ExtensionTypeName {
        match self {
            ClientExtension::ServerName(_) => ExtensionTypeName::ServerName,
            ClientExtension::SupportedVersions => ExtensionTypeName::SupportedVersions,
            ClientExtension::SignatureAlgorithms(_) => ExtensionTypeName::SignatureAlgorithms,
            ClientExtension::KeyShare(_) => ExtensionTypeName::KeyShare,
            ClientExtension::SupportedGroups(_) => ExtensionTypeName::SupportedGroups,
        }
    }

    /// Get the extension type for this extension
    pub fn extension_type(&self) -> (r: ExtensionTypeName)
        ensures
            r == self.spec_extension_type(),
    {
        match self {
            ClientExtension::ServerName(_) => ExtensionTypeName::ServerName,
            ClientExtension::SupportedVersions => ExtensionTypeName::SupportedVersions,
            ClientExtension::SignatureAlgorithms(_) => ExtensionTypeName::SignatureAlgorithms,
            ClientExtension::KeyShare(_) => ExtensionTypeName::KeyShare,
            ClientExtension::SupportedGroups(_) => ExtensionTypeName::SupportedGroups,
        }
    }

    /// The extension_data of this extension
    pub open spec fn body(&self) -> Seq<u8> {
        match self {
            // a server_name_list with one host_name entry (name_type 0)
            ClientExtension::ServerName(name) => be2(((name@.len() % 65536 + 3) % 65536) as u16) + seq![0u8]
                + be2((name@.len() % 65536) as u16) + name@,
            // supported_versions holds TLS 1.3 alone
            ClientExtension::SupportedVersions => seq![2u8, 0x03, 0x04],
            ClientExtension::SignatureAlgorithms(algs) => be_bytes(encode_all(algs@).len(), 2)
                + encode_all(algs@),
            ClientExtension::KeyShare(entries) => be_bytes(encode_all(entries@).len(), 2)
                + encode_all(entries@),
            ClientExtension::SupportedGroups(groups) => be_bytes(encode_all(groups@).len(), 2)
                + encode_all(groups@),
        }
    }
}

/// Overwrite two bytes of `dest` at `pos` with the big-endian low bytes of `len`
fn set_u16_at(dest: &mut Vec<u8>, pos: usize, len: usize)
    requires
        pos + 2 <= old(dest)@.len(),
    ensures
        final(dest)@ == old(dest)@.subrange(0, pos as int) + be_bytes(len as nat, 2)
            + old(dest)@.subrange(pos + 2, old(dest)@.len() as int),
{
    let _n = dest.len();
    let next = pos + 1;
    dest.set(pos, ((len / 256) % 256) as u8);
    dest.set(next, (len % 256) as u8);
    proof {
        reveal_with_fuel(be_bytes, 3);
    }
    assert(dest@ =~= old(dest)@.subrange(0, pos as int) + be_bytes(len as nat, 2) + old(
        dest,
    )@.subrange(pos + 2, old(dest)@.len() as int));
}

impl Encode for ClientExtension {
    /// The extension type, the two-byte length of the body (truncated) and the body
    open spec fn encoding(&self) -> Seq<u8> {
        be2(self.spec_extension_type().spec_value()) + be_bytes(self.body().len(), 2) + self.body()
    }

    fn encode(&self, dest: &mut Vec<u8>) {
        let ghost d0 = dest@;
        self.extension_type().value().encode(dest);

        // Keep space for the length
        let header_start = dest.len();
        dest.push(0xff);
        dest.push(0xff);
        let header_end = dest.len();

        match self {
            ClientExtension::ServerName(name) => {
                let name_len = name.len();
                // list length
                push_u16(dest, ((name_len % 65536 + 3) % 65536) as u16);
                // name_type is always host_name (0)
                dest.push(0);
                // hostname length
                push_u16(dest, (name_len % 65536) as u16);
                // hostname
                extend_bytes(dest, name.as_slice());
            },
            ClientExtension::SupportedVersions => {
                dest.push(2);
                ProtocolVersionName::TLSv1_3.value().encode(dest);
            },
            ClientExtension::SignatureAlgorithms(algs) => {
                encode_length_prefixed_vector(dest, LengthSize::U16, algs.as_slice());
            },
            ClientExtension::KeyShare(entries) => {
                encode_length_prefixed_vector(dest, LengthSize::U16, entries.as_slice());
            },
            ClientExtension::SupportedGroups(groups) => {
                encode_length_prefixed_vector(dest, LengthSize::U16, groups.as_slice());
            },
        }
        proof {
            reveal_with_fuel(be_bytes, 3);
            assert(dest@ =~= d0 + be2(self.spec_extension_type().spec_value()) + seq![0xffu8, 0xff]
                + self.body());
        }
        // Update the length
        let len = dest.len() - header_end;
        set_u16_at(dest, header_start, len);
        assert(dest@ =~= d0 + self.encoding());
    }
}

/// ClientHello message
#[derive(Debug, Clone)]
pub struct ClientHello {
    pub random: ClientRandom,
    pub cipher_suites: Vec<CipherSuite>,
    /// Need to have at least supported_versions
    pub extensions: Vec<ClientExtension>,
}

impl ClientHello {
    /// The handshake body: legacy_version, random, an empty legacy_session_id, the cipher
    /// suites, the null compression method and the extensions
    pub open spec fn body(&self) -> Seq<u8> {
        be2(0x0303) + self.random.0@ + seq![0u8] + be_bytes(encode_all(self.cipher_suites@).len(), 2)
            + encode_all(self.cipher_suites@) + seq![0x01u8, 0x00] + be_bytes(
            encode_all(self.extensions@).len(),
            2,
        ) + encode_all(self.extensions@)
    }

    /// Create a ClientHello message with the supported defaults, the random value and our
    /// X25519 key share
    pub fn new(x25519_public_key: [u8; 32], random: ClientRandom, config: &ConnectionConfig) -> (r: Self)
        ensures
            r.random == random,
            r.cipher_suites@ == seq![offered_ciphersuite()],
            r.extensions@.len() >= 4,
            r.extensions@[0] == ClientExtension::SupportedVersions,
            r.extensions@[1] matches ClientExtension::SignatureAlgorithms(a) && a@ == seq![
                SignatureScheme(0x0804),
            ],
            r.extensions@[2] matches ClientExtension::SupportedGroups(g) && g@ == seq![
                NamedGroup(0x001d),
            ],
            r.extensions@[3] matches ClientExtension::KeyShare(k) && k@ == seq![
                KeyShareEntry::X25519(x25519_public_key),
            ],
            config.server_name matches ServerName::DnsName(d) ==> r.extensions@.len() == 5
                && (r.extensions@[4] matches ClientExtension::ServerName(n) && n@ == d@),
            config.server_name is IpAddress ==> r.extensions@.len() == 4,
    {
        let mut ext: Vec<ClientExtension> = Vec::new();
        ext.push(ClientExtension::SupportedVersions);
        let mut algs: Vec<SignatureScheme> = Vec::new();
        algs.push(SignatureSchemeName::rsa_pss_rsae_sha256.value());
        ext.push(ClientExtension::SignatureAlgorithms(algs));
        let mut groups: Vec<NamedGroup> = Vec::new();
        groups.push(NamedGroupName::x25519.value());
        ext.push(ClientExtension::SupportedGroups(groups));
        let mut shares: Vec<KeyShareEntry> = Vec::new();
        shares.push(KeyShareEntry::X25519(x25519_public_key));
        ext.push(ClientExtension::KeyShare(shares));

        // Add SNI if possible
        if let ServerName::DnsName(dns_name) = &config.server_name {
            ext.push(ClientExtension::ServerName(dns_name.clone()));
        }
        let mut cipher_suites: Vec<CipherSuite> = Vec::new();
        cipher_suites.push(CipherSuiteName::TLS_AES_128_GCM_SHA256.value());
        ClientHello { random, cipher_suites, extensions: ext }
    }
}

impl Encode for ClientHello {
    /// The handshake header (type 1 and the three-byte length, truncated) and the body
    open spec fn encoding(&self) -> Seq<u8> {
        seq![1u8] + be_bytes(self.body().len(), 3) + self.body()
    }

    fn encode(&self, dest: &mut Vec<u8>) {
        let ghost d0 = dest@;
        // Handshake message header
        HandshakeTypeName::ClientHello.value().encode(dest);
        // keep some space for the length
        let len_start = dest.len();
        dest.push(0);
        dest.push(0);
        dest.push(0);
        let body_start = dest.len();

        // Payload (ClientHello)
        ProtocolVersionName::TLSv1_2.value().encode(dest);
        self.random.encode(dest);
        // empty legacy_session_id
        dest.push(0x0);
        encode_length_prefixed_vector(dest, LengthSize::U16, self.cipher_suites.as_slice());
        // legacy_compression_methods
        dest.push(0x01);
        dest.push(0x00);
        encode_length_prefixed_vector(dest, LengthSize::U16, self.extensions.as_slice());
        proof {
            assert(dest@ =~= d0 + seq![1u8, 0, 0, 0] + self.body());
        }

        // Set the correct length
        let length = dest.len() - body_start;
        dest.set(len_start, ((length / 65536) % 256) as u8);
        dest.set(len_start + 1, ((length / 256) % 256) as u8);
        dest.set(len_start + 2, (length % 256) as u8);
        proof {
            let n = length as nat;
            reveal_with_fuel(be_bytes, 4);
            assert(n / 256 / 256 == n / 65536) by (nonlinear_arith);
            assert(dest@ =~= d0 + self.encoding());
        }
    }
}

} // verus!
