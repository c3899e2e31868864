//! Code points of the TLS protocol: each is a newtype over its wire integer, with an
//! enum of the names this library knows.

use vstd::prelude::*;

use crate::tls::{
    codec::{be2, Decode, Encode, push_u16},
    error::InvalidMessage,
    reader::Reader,
};

verus! {
/// A protocol version
#[derive(Debug, Clone, Copy, PartialEq, Eq, Structural)]
pub struct ProtocolVersion(pub u16);

/// The known names of [`ProtocolVersion`] values
#[allow(non_camel_case_types)]
#[derive(Debug, Clone, Copy, PartialEq, Eq, Structural)]
pub enum ProtocolVersionName {
    SSLv2,
    SSLv3,
    TLSv1_0,
    TLSv1_1,
    TLSv1_2,
    TLSv1_3,
}

impl ProtocolVersionName {
    /// The wire value of this name
    pub open spec fn spec_value(self) -> u16 {
        match self {
            ProtocolVersionName::SSLv2 => 0x0002,
            ProtocolVersionName::SSLv3 => 0x0300,
            ProtocolVersionName::TLSv1_0 => 0x0301,
            ProtocolVersionName::TLSv1_1 => 0x0302,
            ProtocolVersionName::TLSv1_2 => 0x0303,
            ProtocolVersionName::TLSv1_3 => 0x0304,
        }
    }

    /// Convert a name to its value
    pub fn value(self) -> (r: ProtocolVersion)
        ensures
            r.0 == self.spec_value(),
    {
        match self {
            ProtocolVersionName::SSLv2 => ProtocolVersion(0x0002),
            ProtocolVersionName::SSLv3 => ProtocolVersion(0x0300),
            ProtocolVersionName::TLSv1_0 => ProtocolVersion(0x0301),
            ProtocolVersionName::TLSv1_1 => ProtocolVersion(0x0302),
            ProtocolVersionName::TLSv1_2 => ProtocolVersion(0x0303),
            ProtocolVersionName::TLSv1_3 => ProtocolVersion(0x0304),
        }
    }
}

impl ProtocolVersion {
    /// The name of this value, if it is a known one
    pub open spec fn spec_name(self) -> Option<ProtocolVersionName> {
        match self.0 {
            0x0002 => Some(ProtocolVersionName::SSLv2),
            0x0300 => Some(ProtocolVersionName::SSLv3),
            0x0301 => Some(ProtocolVersionName::TLSv1_0),
            0x0302 => Some(ProtocolVersionName::TLSv1_1),
            0x0303 => Some(ProtocolVersionName::TLSv1_2),
            0x0304 => Some(ProtocolVersionName::TLSv1_3),
            _ => None,
        }
    }

    /// Convert a value to its name, failing on unknown values
    pub fn name(self) -> (r: Option<ProtocolVersionName>)
        ensures
            r == self.spec_name(),
    {
        match self.0 {
            0x0002 => Some(ProtocolVersionName::SSLv2),
            0x0300 => Some(ProtocolVersionName::SSLv3),
            0x0301 => Some(ProtocolVersionName::TLSv1_0),
            0x0302 => Some(ProtocolVersionName::TLSv1_1),
            0x0303 => Some(ProtocolVersionName::TLSv1_2),
            0x0304 => Some(ProtocolVersionName::TLSv1_3),
            _ => None,
        }
    }
}

impl Encode for ProtocolVersion {
    open spec fn encoding(&self) -> Seq<u8> {
        be2(self.0)
    }

    fn encode(&self, dest: &mut Vec<u8>) {
        push_u16(dest, self.0);
        assert(dest@ == old(dest)@ + self.encoding());
    }
}

impl Decode for ProtocolVersion {
    open spec fn parse(s: Seq<u8>) -> Result<(ProtocolVersion, nat), InvalidMessage> {
        match u16::parse(s) {
            Ok((v, n)) => Ok((ProtocolVersion(v), n)),
            Err(e) => Err(e),
        }
    }

    fn decode(buf: &mut Reader) -> (r: Result<Self, InvalidMessage>) {
        match u16::decode(buf) {
            Ok(v) => Ok(ProtocolVersion(v)),
            Err(e) => Err(e),
        }
    }
}

/// Naming a value and taking the value of the name give back the same value, for every
/// known name, and the value of a name is the value it was read from.
pub proof fn law_protocol_version_names(n: ProtocolVersionName, t: ProtocolVersion)
    ensures
        ProtocolVersion(n.spec_value()).spec_name() == Some(n),
        t.spec_name() matches Some(m) ==> m.spec_value() == t.0,
{
}

/// The extension_type field in an extension payload
#[derive(Debug, Clone, Copy, PartialEq, Eq, Structural)]
pub struct ExtensionType(pub u16);

/// The known names of [`ExtensionType`] values
#[allow(non_camel_case_types)]
#[derive(Debug, Clone, Copy, PartialEq, Eq, Structural)]
pub enum ExtensionTypeName {
    ServerName,
    MaxFragmentLength,
    StatusRequest,
    SupportedGroups,
    SignatureAlgorithms,
    UseSrtp,
    Heartbeat,
    ApplicationLayerProtocolNegotiation,
    SignedCertificateTimestamp,
    ClientCertificateType,
    ServerCertificateType,
    Padding,
    PreSharedKey,
    EarlyData,
    SupportedVersions,
    Cookie,
    PskKeyExchangeModes,
    CertificateAuthorities,
    OidFilters,
    PostHandshakeAuth,
    SignatureAlgorithmsCert,
    KeyShare,
}

impl ExtensionTypeName {
    /// The wire value of this name
    pub open spec fn spec_value(self) -> u16 {
        match self {
            ExtensionTypeName::ServerName => 0x0000,
            ExtensionTypeName::MaxFragmentLength => 0x0001,
            ExtensionTypeName::StatusRequest => 0x0005,
            ExtensionTypeName::SupportedGroups => 0x000a,
            ExtensionTypeName::SignatureAlgorithms => 0x000d,
            ExtensionTypeName::UseSrtp => 0x000e,
            ExtensionTypeName::Heartbeat => 0x000f,
            ExtensionTypeName::ApplicationLayerProtocolNegotiation => 0x0010,
            ExtensionTypeName::SignedCertificateTimestamp => 0x0012,
            ExtensionTypeName::ClientCertificateType => 0x0013,
            ExtensionTypeName::ServerCertificateType => 0x0014,
            ExtensionTypeName::Padding => 0x0015,
            ExtensionTypeName::PreSharedKey => 0x0029,
            ExtensionTypeName::EarlyData => 0x002a,
            ExtensionTypeName::SupportedVersions => 0x002b,
            ExtensionTypeName::Cookie => 0x002c,
            ExtensionTypeName::PskKeyExchangeModes => 0x002d,
            ExtensionTypeName::CertificateAuthorities => 0x002f,
            ExtensionTypeName::OidFilters => 0x0030,
            ExtensionTypeName::PostHandshakeAuth => 0x0031,
            ExtensionTypeName::SignatureAlgorithmsCert => 0x0032,
            ExtensionTypeName::KeyShare => 0x0033,
        }
    }

    /// Convert a name to its value
    pub fn value(self) -> (r: ExtensionType)
        ensures
            r.0 == self.spec_value(),
    {
        match self {
            ExtensionTypeName::ServerName => ExtensionType(0x0000),
            ExtensionTypeName::MaxFragmentLength => ExtensionType(0x0001),
            ExtensionTypeName::StatusRequest => ExtensionType(0x0005),
            ExtensionTypeName::SupportedGroups => ExtensionType(0x000a),
            ExtensionTypeName::SignatureAlgorithms => ExtensionType(0x000d),
            ExtensionTypeName::UseSrtp => ExtensionType(0x000e),
            ExtensionTypeName::Heartbeat => ExtensionType(0x000f),
            ExtensionTypeName::ApplicationLayerProtocolNegotiation => ExtensionType(0x0010),
            ExtensionTypeName::SignedCertificateTimestamp => ExtensionType(0x0012),
            ExtensionTypeName::ClientCertificateType => ExtensionType(0x0013),
            ExtensionTypeName::ServerCertificateType => ExtensionType(0x0014),
            ExtensionTypeName::Padding => ExtensionType(0x0015),
            ExtensionTypeName::PreSharedKey => ExtensionType(0x0029),
            ExtensionTypeName::EarlyData => ExtensionType(0x002a),
            ExtensionTypeName::SupportedVersions => ExtensionType(0x002b),
            ExtensionTypeName::Cookie => ExtensionType(0x002c),
            ExtensionTypeName::PskKeyExchangeModes => ExtensionType(0x002d),
            ExtensionTypeName::CertificateAuthorities => ExtensionType(0x002f),
            ExtensionTypeName::OidFilters => ExtensionType(0x0030),
            ExtensionTypeName::PostHandshakeAuth => ExtensionType(0x0031),
            ExtensionTypeName::SignatureAlgorithmsCert => ExtensionType(0x0032),
            ExtensionTypeName::KeyShare => ExtensionType(0x0033),
        }
    }
}

impl ExtensionType {
    /// The name of this value, if it is a known one
    pub open spec fn spec_name(self) -> Option<ExtensionTypeName> {
        match self.0 {
            0x0000 => Some(ExtensionTypeName::ServerName),
            0x0001 => Some(ExtensionTypeName::MaxFragmentLength),
            0x0005 => Some(ExtensionTypeName::StatusRequest),
            0x000a => Some(ExtensionTypeName::SupportedGroups),
            0x000d => Some(ExtensionTypeName::SignatureAlgorithms),
            0x000e => Some(ExtensionTypeName::UseSrtp),
            0x000f => Some(ExtensionTypeName::Heartbeat),
            0x0010 => Some(ExtensionTypeName::ApplicationLayerProtocolNegotiation),
            0x0012 => Some(ExtensionTypeName::SignedCertificateTimestamp),
            0x0013 => Some(ExtensionTypeName::ClientCertificateType),
            0x0014 => Some(ExtensionTypeName::ServerCertificateType),
            0x0015 => Some(ExtensionTypeName::Padding),
            0x0029 => Some(ExtensionTypeName::PreSharedKey),
            0x002a => Some(ExtensionTypeName::EarlyData),
            0x002b => Some(ExtensionTypeName::SupportedVersions),
            0x002c => Some(ExtensionTypeName::Cookie),
            0x002d => Some(ExtensionTypeName::PskKeyExchangeModes),
            0x002f => Some(ExtensionTypeName::CertificateAuthorities),
            0x0030 => Some(ExtensionTypeName::OidFilters),
            0x0031 => Some(ExtensionTypeName::PostHandshakeAuth),
            0x0032 => Some(ExtensionTypeName::SignatureAlgorithmsCert),
            0x0033 => Some(ExtensionTypeName::KeyShare),
            _ => None,
        }
    }

    /// Convert a value to its name, failing on unknown values
    pub fn name(self) -> (r: Option<ExtensionTypeName>)
        ensures
            r == self.spec_name(),
    {
        match self.0 {
            0x0000 => Some(ExtensionTypeName::ServerName),
            0x0001 => Some(ExtensionTypeName::MaxFragmentLength),
            0x0005 => Some(ExtensionTypeName::StatusRequest),
            0x000a => Some(ExtensionTypeName::SupportedGroups),
            0x000d => Some(ExtensionTypeName::SignatureAlgorithms),
            0x000e => Some(ExtensionTypeName::UseSrtp),
            0x000f => Some(ExtensionTypeName::Heartbeat),
            0x0010 => Some(ExtensionTypeName::ApplicationLayerProtocolNegotiation),
            0x0012 => Some(ExtensionTypeName::SignedCertificateTimestamp),
            0x0013 => Some(ExtensionTypeName::ClientCertificateType),
            0x0014 => Some(ExtensionTypeName::ServerCertificateType),
            0x0015 => Some(ExtensionTypeName::Padding),
            0x0029 => Some(ExtensionTypeName::PreSharedKey),
            0x002a => Some(ExtensionTypeName::EarlyData),
            0x002b => Some(ExtensionTypeName::SupportedVersions),
            0x002c => Some(ExtensionTypeName::Cookie),
            0x002d => Some(ExtensionTypeName::PskKeyExchangeModes),
            0x002f => Some(ExtensionTypeName::CertificateAuthorities),
            0x0030 => Some(ExtensionTypeName::OidFilters),
            0x0031 => Some(ExtensionTypeName::PostHandshakeAuth),
            0x0032 => Some(ExtensionTypeName::SignatureAlgorithmsCert),
            0x0033 => Some(ExtensionTypeName::KeyShare),
            _ => None,
        }
    }
}

impl Encode for ExtensionType {
    open spec fn encoding(&self) -> Seq<u8> {
        be2(self.0)
    }

    fn encode(&self, dest: &mut Vec<u8>) {
        push_u16(dest, self.0);
        assert(dest@ == old(dest)@ + self.encoding());
    }
}

impl Decode for ExtensionType {
    open spec fn parse(s: Seq<u8>) -> Result<(ExtensionType, nat), InvalidMessage> {
        match u16::parse(s) {
            Ok((v, n)) => Ok((ExtensionType(v), n)),
            Err(e) => Err(e),
        }
    }

    fn decode(buf: &mut Reader) -> (r: Result<Self, InvalidMessage>) {
        match u16::decode(buf) {
            Ok(v) => Ok(ExtensionType(v)),
            Err(e) => Err(e),
        }
    }
}

/// Naming a value and taking the value of the name give back the same value, for every
/// known name, and the value of a name is the value it was read from.
pub proof fn law_extension_type_names(n: ExtensionTypeName, t: ExtensionType)
    ensures
        ExtensionType(n.spec_value()).spec_name() == Some(n),
        t.spec_name() matches Some(m) ==> m.spec_value() == t.0,
{
}

/// Type of handshake messages
#[derive(Debug, Clone, Copy, PartialEq, Eq, Structural)]
pub struct HandshakeType(pub u8);

/// The known names of [`HandshakeType`] values
#[allow(non_camel_case_types)]
#[derive(Debug, Clone, Copy, PartialEq, Eq, Structural)]
pub enum HandshakeTypeName {
    ClientHello,
    ServerHello,
    NewSessionTicket,
    EndOfEarlyData,
    EncryptedExtensions,
    Certificate,
    CertificateRequest,
    CertificateVerify,
    Finished,
    KeyUpdate,
    MessageHash,
}

impl HandshakeTypeName {
    /// The wire value of this name
    pub open spec fn spec_value(self) -> u8 {
        match self {
            HandshakeTypeName::ClientHello => 1,
            HandshakeTypeName::ServerHello => 2,
            HandshakeTypeName::NewSessionTicket => 4,
            HandshakeTypeName::EndOfEarlyData => 5,
            HandshakeTypeName::EncryptedExtensions => 8,
            HandshakeTypeName::Certificate => 11,
            HandshakeTypeName::CertificateRequest => 13,
            HandshakeTypeName::CertificateVerify => 15,
            HandshakeTypeName::Finished => 20,
            HandshakeTypeName::KeyUpdate => 24,
            HandshakeTypeName::MessageHash => 254,
        }
    }

    /// Convert a name to its value
    pub fn value(self) -> (r: HandshakeType)
        ensures
            r.0 == self.spec_value(),
    {
        match self {
            HandshakeTypeName::ClientHello => HandshakeType(1),
            HandshakeTypeName::ServerHello => HandshakeType(2),
            HandshakeTypeName::NewSessionTicket => HandshakeType(4),
            HandshakeTypeName::EndOfEarlyData => HandshakeType(5),
            HandshakeTypeName::EncryptedExtensions => HandshakeType(8),
            HandshakeTypeName::Certificate => HandshakeType(11),
            HandshakeTypeName::CertificateRequest => HandshakeType(13),
            HandshakeTypeName::CertificateVerify => HandshakeType(15),
            HandshakeTypeName::Finished => HandshakeType(20),
            HandshakeTypeName::KeyUpdate => HandshakeType(24),
            HandshakeTypeName::MessageHash => HandshakeType(254),
        }
    }
}

impl HandshakeType {
    /// The name of this value, if it is a known one
    pub open spec fn spec_name(self) -> Option<HandshakeTypeName> {
        match self.0 {
            1 => Some(HandshakeTypeName::ClientHello),
            2 => Some(HandshakeTypeName::ServerHello),
            4 => Some(HandshakeTypeName::NewSessionTicket),
            5 => Some(HandshakeTypeName::EndOfEarlyData),
            8 => Some(HandshakeTypeName::EncryptedExtensions),
            11 => Some(HandshakeTypeName::Certificate),
            13 => Some(HandshakeTypeName::CertificateRequest),
            15 => Some(HandshakeTypeName::CertificateVerify),
            20 => Some(HandshakeTypeName::Finished),
            24 => Some(HandshakeTypeName::KeyUpdate),
            254 => Some(HandshakeTypeName::MessageHash),
            _ => None,
        }
    }

    /// Convert a value to its name, failing on unknown values
    pub fn name(self) -> (r: Option<HandshakeTypeName>)
        ensures
            r == self.spec_name(),
    {
        match self.0 {
            1 => Some(HandshakeTypeName::ClientHello),
            2 => Some(HandshakeTypeName::ServerHello),
            4 => Some(HandshakeTypeName::NewSessionTicket),
            5 => Some(HandshakeTypeName::EndOfEarlyData),
            8 => Some(HandshakeTypeName::EncryptedExtensions),
            11 => Some(HandshakeTypeName::Certificate),
            13 => Some(HandshakeTypeName::CertificateRequest),
            15 => Some(HandshakeTypeName::CertificateVerify),
            20 => Some(HandshakeTypeName::Finished),
            24 => Some(HandshakeTypeName::KeyUpdate),
            254 => Some(HandshakeTypeName::MessageHash),
            _ => None,
        }
    }
}

impl Encode for HandshakeType {
    open spec fn encoding(&self) -> Seq<u8> {
        seq![self.0]
    }

    fn encode(&self, dest: &mut Vec<u8>) {
        dest.push(self.0);
    }
}

impl Decode for HandshakeType {
    open spec fn parse(s: Seq<u8>) -> Result<(HandshakeType, nat), InvalidMessage> {
        match u8::parse(s) {
            Ok((v, n)) => Ok((HandshakeType(v), n)),
            Err(e) => Err(e),
        }
    }

    fn decode(buf: &mut Reader) -> (r: Result<Self, InvalidMessage>) {
        match u8::decode(buf) {
            Ok(v) => Ok(HandshakeType(v)),
            Err(e) => Err(e),
        }
    }
}

/// Naming a value and taking the value of the name give back the same value, for every
/// known name, and the value of a name is the value it was read from.
pub proof fn law_handshake_type_names(n: HandshakeTypeName, t: HandshakeType)
    ensures
        HandshakeType(n.spec_value()).spec_name() == Some(n),
        t.spec_name() matches Some(m) ==> m.spec_value() == t.0,
{
}

/// A cipher suite that can be used in TLS
#[derive(Debug, Clone, Copy, PartialEq, Eq, Structural)]
pub struct CipherSuite(pub u16);

/// The known names of [`CipherSuite`] values
#[allow(non_camel_case_types)]
#[derive(Debug, Clone, Copy, PartialEq, Eq, Structural)]
pub enum CipherSuiteName {
    TLS_AES_128_GCM_SHA256,
    TLS_AES_256_GCM_SHA384,
    TLS_CHACHA20_POLY1305_SHA256,
    TLS_AES_128_CCM_SHA256,
    TLS_AES_128_CCM_8_SHA256,
}

impl CipherSuiteName {
    /// The wire value of this name
    pub open spec fn spec_value(self) -> u16 {
        match self {
            CipherSuiteName::TLS_AES_128_GCM_SHA256 => 0x1301,
            CipherSuiteName::TLS_AES_256_GCM_SHA384 => 0x1302,
            CipherSuiteName::TLS_CHACHA20_POLY1305_SHA256 => 0x1303,
            CipherSuiteName::TLS_AES_128_CCM_SHA256 => 0x1304,
            CipherSuiteName::TLS_AES_128_CCM_8_SHA256 => 0x1305,
        }
    }

    /// Convert a name to its value
    pub fn value(self) -> (r: CipherSuite)
        ensures
            r.0 == self.spec_value(),
    {
        match self {
            CipherSuiteName::TLS_AES_128_GCM_SHA256 => CipherSuite(0x1301),
            CipherSuiteName::TLS_AES_256_GCM_SHA384 => CipherSuite(0x1302),
            CipherSuiteName::TLS_CHACHA20_POLY1305_SHA256 => CipherSuite(0x1303),
            CipherSuiteName::TLS_AES_128_CCM_SHA256 => CipherSuite(0x1304),
            CipherSuiteName::TLS_AES_128_CCM_8_SHA256 => CipherSuite(0x1305),
        }
    }
}

impl CipherSuite {
    /// The name of this value, if it is a known one
    pub open spec fn spec_name(self) -> Option<CipherSuiteName> {
        match self.0 {
            0x1301 => Some(CipherSuiteName::TLS_AES_128_GCM_SHA256),
            0x1302 => Some(CipherSuiteName::TLS_AES_256_GCM_SHA384),
            0x1303 => Some(CipherSuiteName::TLS_CHACHA20_POLY1305_SHA256),
            0x1304 => Some(CipherSuiteName::TLS_AES_128_CCM_SHA256),
            0x1305 => Some(CipherSuiteName::TLS_AES_128_CCM_8_SHA256),
            _ => None,
        }
    }

    /// Convert a value to its name, failing on unknown values
    pub fn name(self) -> (r: Option<CipherSuiteName>)
        ensures
            r == self.spec_name(),
    {
        match self.0 {
            0x1301 => Some(CipherSuiteName::TLS_AES_128_GCM_SHA256),
            0x1302 => Some(CipherSuiteName::TLS_AES_256_GCM_SHA384),
            0x1303 => Some(CipherSuiteName::TLS_CHACHA20_POLY1305_SHA256),
            0x1304 => Some(CipherSuiteName::TLS_AES_128_CCM_SHA256),
            0x1305 => Some(CipherSuiteName::TLS_AES_128_CCM_8_SHA256),
            _ => None,
        }
    }
}

impl Encode for CipherSuite {
    open spec fn encoding(&self) -> Seq<u8> {
        be2(self.0)
    }

    fn encode(&self, dest: &mut Vec<u8>) {
        push_u16(dest, self.0);
        assert(dest@ == old(dest)@ + self.encoding());
    }
}

impl Decode for CipherSuite {
    open spec fn parse(s: Seq<u8>) -> Result<(CipherSuite, nat), InvalidMessage> {
        match u16::parse(s) {
            Ok((v, n)) => Ok((CipherSuite(v), n)),
            Err(e) => Err(e),
        }
    }

    fn decode(buf: &mut Reader) -> (r: Result<Self, InvalidMessage>) {
        match u16::decode(buf) {
            Ok(v) => Ok(CipherSuite(v)),
            Err(e) => Err(e),
        }
    }
}

/// Naming a value and taking the value of the name give back the same value, for every
/// known name, and the value of a name is the value it was read from.
pub proof fn law_cipher_suite_names(n: CipherSuiteName, t: CipherSuite)
    ensures
        CipherSuite(n.spec_value()).spec_name() == Some(n),
        t.spec_name() matches Some(m) ==> m.spec_value() == t.0,
{
}

/// Signature schemes used for certificate verification
#[derive(Debug, Clone, Copy, PartialEq, Eq, Structural)]
pub struct SignatureScheme(pub u16);

/// The known names of [`SignatureScheme`] values
#[allow(non_camel_case_types)]
#[derive(Debug, Clone, Copy, PartialEq, Eq, Structural)]
pub enum SignatureSchemeName {
    rsa_pkcs1_sha256,
    rsa_pkcs1_sha384,
    rsa_pkcs1_sha512,
    ecdsa_secp256r1_sha256,
    ecdsa_secp384r1_sha384,
    ecdsa_secp521r1_sha512,
    rsa_pss_rsae_sha256,
    rsa_pss_rsae_sha384,
    rsa_pss_rsae_sha512,
    ed25519,
    ed448,
    rsa_pss_pss_sha256,
    rsa_pss_pss_sha384,
    rsa_pss_pss_sha512,
    rsa_pkcs1_sha1,
    ecdsa_sha1,
}

impl SignatureSchemeName {
    /// The wire value of this name
    pub open spec fn spec_value(self) -> u16 {
        match self {
            SignatureSchemeName::rsa_pkcs1_sha256 => 0x0401,
            SignatureSchemeName::rsa_pkcs1_sha384 => 0x0501,
            SignatureSchemeName::rsa_pkcs1_sha512 => 0x0601,
            SignatureSchemeName::ecdsa_secp256r1_sha256 => 0x0403,
            SignatureSchemeName::ecdsa_secp384r1_sha384 => 0x0503,
            SignatureSchemeName::ecdsa_secp521r1_sha512 => 0x0603,
            SignatureSchemeName::rsa_pss_rsae_sha256 => 0x0804,
            SignatureSchemeName::rsa_pss_rsae_sha384 => 0x0805,
            SignatureSchemeName::rsa_pss_rsae_sha512 => 0x0806,
            SignatureSchemeName::ed25519 => 0x0807,
            SignatureSchemeName::ed448 => 0x0808,
            SignatureSchemeName::rsa_pss_pss_sha256 => 0x0809,
            SignatureSchemeName::rsa_pss_pss_sha384 => 0x080a,
            SignatureSchemeName::rsa_pss_pss_sha512 => 0x080b,
            SignatureSchemeName::rsa_pkcs1_sha1 => 0x0201,
            SignatureSchemeName::ecdsa_sha1 => 0x0203,
        }
    }

    /// Convert a name to its value
    pub fn value(self) -> (r: SignatureScheme)
        ensures
            r.0 == self.spec_value(),
    {
        match self {
            SignatureSchemeName::rsa_pkcs1_sha256 => SignatureScheme(0x0401),
            SignatureSchemeName::rsa_pkcs1_sha384 => SignatureScheme(0x0501),
            SignatureSchemeName::rsa_pkcs1_sha512 => SignatureScheme(0x0601),
            SignatureSchemeName::ecdsa_secp256r1_sha256 => SignatureScheme(0x0403),
            SignatureSchemeName::ecdsa_secp384r1_sha384 => SignatureScheme(0x0503),
            SignatureSchemeName::ecdsa_secp521r1_sha512 => SignatureScheme(0x0603),
            SignatureSchemeName::rsa_pss_rsae_sha256 => SignatureScheme(0x0804),
            SignatureSchemeName::rsa_pss_rsae_sha384 => SignatureScheme(0x0805),
            SignatureSchemeName::rsa_pss_rsae_sha512 => SignatureScheme(0x0806),
            SignatureSchemeName::ed25519 => SignatureScheme(0x0807),
            SignatureSchemeName::ed448 => SignatureScheme(0x0808),
            SignatureSchemeName::rsa_pss_pss_sha256 => SignatureScheme(0x0809),
            SignatureSchemeName::rsa_pss_pss_sha384 => SignatureScheme(0x080a),
            SignatureSchemeName::rsa_pss_pss_sha512 => SignatureScheme(0x080b),
            SignatureSchemeName::rsa_pkcs1_sha1 => SignatureScheme(0x0201),
            SignatureSchemeName::ecdsa_sha1 => SignatureScheme(0x0203),
        }
    }
}

impl SignatureScheme {
    /// The name of this value, if it is a known one
    pub open spec fn spec_name(self) -> Option<SignatureSchemeName> {
        match self.0 {
            0x0401 => Some(SignatureSchemeName::rsa_pkcs1_sha256),
            0x0501 => Some(SignatureSchemeName::rsa_pkcs1_sha384),
            0x0601 => Some(SignatureSchemeName::rsa_pkcs1_sha512),
            0x0403 => Some(SignatureSchemeName::ecdsa_secp256r1_sha256),
            0x0503 => Some(SignatureSchemeName::ecdsa_secp384r1_sha384),
            0x0603 => Some(SignatureSchemeName::ecdsa_secp521r1_sha512),
            0x0804 => Some(SignatureSchemeName::rsa_pss_rsae_sha256),
            0x0805 => Some(SignatureSchemeName::rsa_pss_rsae_sha384),
            0x0806 => Some(SignatureSchemeName::rsa_pss_rsae_sha512),
            0x0807 => Some(SignatureSchemeName::ed25519),
            0x0808 => Some(SignatureSchemeName::ed448),
            0x0809 => Some(SignatureSchemeName::rsa_pss_pss_sha256),
            0x080a => Some(SignatureSchemeName::rsa_pss_pss_sha384),
            0x080b => Some(SignatureSchemeName::rsa_pss_pss_sha512),
            0x0201 => Some(SignatureSchemeName::rsa_pkcs1_sha1),
            0x0203 => Some(SignatureSchemeName::ecdsa_sha1),
            _ => None,
        }
    }

    /// Convert a value to its name, failing on unknown values
    pub fn name(self) -> (r: Option<SignatureSchemeName>)
        ensures
            r == self.spec_name(),
    {
        match self.0 {
            0x0401 => Some(SignatureSchemeName::rsa_pkcs1_sha256),
            0x0501 => Some(SignatureSchemeName::rsa_pkcs1_sha384),
            0x0601 => Some(SignatureSchemeName::rsa_pkcs1_sha512),
            0x0403 => Some(SignatureSchemeName::ecdsa_secp256r1_sha256),
            0x0503 => Some(SignatureSchemeName::ecdsa_secp384r1_sha384),
            0x0603 => Some(SignatureSchemeName::ecdsa_secp521r1_sha512),
            0x0804 => Some(SignatureSchemeName::rsa_pss_rsae_sha256),
            0x0805 => Some(SignatureSchemeName::rsa_pss_rsae_sha384),
            0x0806 => Some(SignatureSchemeName::rsa_pss_rsae_sha512),
            0x0807 => Some(SignatureSchemeName::ed25519),
            0x0808 => Some(SignatureSchemeName::ed448),
            0x0809 => Some(SignatureSchemeName::rsa_pss_pss_sha256),
            0x080a => Some(SignatureSchemeName::rsa_pss_pss_sha384),
            0x080b => Some(SignatureSchemeName::rsa_pss_pss_sha512),
            0x0201 => Some(SignatureSchemeName::rsa_pkcs1_sha1),
            0x0203 => Some(SignatureSchemeName::ecdsa_sha1),
            _ => None,
        }
    }
}

impl Encode for SignatureScheme {
    open spec fn encoding(&self) -> Seq<u8> {
        be2(self.0)
    }

    fn encode(&self, dest: &mut Vec<u8>) {
        push_u16(dest, self.0);
        assert(dest@ == old(dest)@ + self.encoding());
    }
}

impl Decode for SignatureScheme {
    open spec fn parse(s: Seq<u8>) -> Result<(SignatureScheme, nat), InvalidMessage> {
        match u16::parse(s) {
            Ok((v, n)) => Ok((SignatureScheme(v), n)),
            Err(e) => Err(e),
        }
    }

    fn decode(buf: &mut Reader) -> (r: Result<Self, InvalidMessage>) {
        match u16::decode(buf) {
            Ok(v) => Ok(SignatureScheme(v)),
            Err(e) => Err(e),
        }
    }
}

/// Naming a value and taking the value of the name give back the same value, for every
/// known name, and the value of a name is the value it was read from.
pub proof fn law_signature_scheme_names(n: SignatureSchemeName, t: SignatureScheme)
    ensures
        SignatureScheme(n.spec_value()).spec_name() == Some(n),
        t.spec_name() matches Some(m) ==> m.spec_value() == t.0,
{
}

/// Named groups for key exchange
#[derive(Debug, Clone, Copy, PartialEq, Eq, Structural)]
pub struct NamedGroup(pub u16);

/// The known names of [`NamedGroup`] values
#[allow(non_camel_case_types)]
#[derive(Debug, Clone, Copy, PartialEq, Eq, Structural)]
pub enum NamedGroupName {
    secp256r1,
    secp384r1,
    secp521r1,
    x25519,
    x448,
    ffdhe2048,
    ffdhe3072,
    ffdhe4096,
    ffdhe6144,
    ffdhe8192,
}

impl NamedGroupName {
    /// The wire value of this name
    pub open spec fn spec_value(self) -> u16 {
        match self {
            NamedGroupName::secp256r1 => 0x0017,
            NamedGroupName::secp384r1 => 0x0018,
            NamedGroupName::secp521r1 => 0x0019,
            NamedGroupName::x25519 => 0x001d,
            NamedGroupName::x448 => 0x001e,
            NamedGroupName::ffdhe2048 => 0x0100,
            NamedGroupName::ffdhe3072 => 0x0101,
            NamedGroupName::ffdhe4096 => 0x0102,
            NamedGroupName::ffdhe6144 => 0x0103,
            NamedGroupName::ffdhe8192 => 0x0104,
        }
    }

    /// Convert a name to its value
    pub fn value(self) -> (r: NamedGroup)
        ensures
            r.0 == self.spec_value(),
    {
        match self {
            NamedGroupName::secp256r1 => NamedGroup(0x0017),
            NamedGroupName::secp384r1 => NamedGroup(0x0018),
            NamedGroupName::secp521r1 => NamedGroup(0x0019),
            NamedGroupName::x25519 => NamedGroup(0x001d),
            NamedGroupName::x448 => NamedGroup(0x001e),
            NamedGroupName::ffdhe2048 => NamedGroup(0x0100),
            NamedGroupName::ffdhe3072 => NamedGroup(0x0101),
            NamedGroupName::ffdhe4096 => NamedGroup(0x0102),
            NamedGroupName::ffdhe6144 => NamedGroup(0x0103),
            NamedGroupName::ffdhe8192 => NamedGroup(0x0104),
        }
    }
}

impl NamedGroup {
    /// The name of this value, if it is a known one
    pub open spec fn spec_name(self) -> Option<NamedGroupName> {
        match self.0 {
            0x0017 => Some(NamedGroupName::secp256r1),
            0x0018 => Some(NamedGroupName::secp384r1),
            0x0019 => Some(NamedGroupName::secp521r1),
            0x001d => Some(NamedGroupName::x25519),
            0x001e => Some(NamedGroupName::x448),
            0x0100 => Some(NamedGroupName::ffdhe2048),
            0x0101 => Some(NamedGroupName::ffdhe3072),
            0x0102 => Some(NamedGroupName::ffdhe4096),
            0x0103 => Some(NamedGroupName::ffdhe6144),
            0x0104 => Some(NamedGroupName::ffdhe8192),
            _ => None,
        }
    }

    /// Convert a value to its name, failing on unknown values
    pub fn name(self) -> (r: Option<NamedGroupName>)
        ensures
            r == self.spec_name(),
    {
        match self.0 {
            0x0017 => Some(NamedGroupName::secp256r1),
            0x0018 => Some(NamedGroupName::secp384r1),
            0x0019 => Some(NamedGroupName::secp521r1),
            0x001d => Some(NamedGroupName::x25519),
            0x001e => Some(NamedGroupName::x448),
            0x0100 => Some(NamedGroupName::ffdhe2048),
            0x0101 => Some(NamedGroupName::ffdhe3072),
            0x0102 => Some(NamedGroupName::ffdhe4096),
            0x0103 => Some(NamedGroupName::ffdhe6144),
            0x0104 => Some(NamedGroupName::ffdhe8192),
            _ => None,
        }
    }
}

impl Encode for NamedGroup {
    open spec fn encoding(&self) -> Seq<u8> {
        be2(self.0)
    }

    fn encode(&self, dest: &mut Vec<u8>) {
        push_u16(dest, self.0);
        assert(dest@ == old(dest)@ + self.encoding());
    }
}

impl Decode for NamedGroup {
    open spec fn parse(s: Seq<u8>) -> Result<(NamedGroup, nat), InvalidMessage> {
        match u16::parse(s) {
            Ok((v, n)) => Ok((NamedGroup(v), n)),
            Err(e) => Err(e),
        }
    }

    fn decode(buf: &mut Reader) -> (r: Result<Self, InvalidMessage>) {
        match u16::decode(buf) {
            Ok(v) => Ok(NamedGroup(v)),
            Err(e) => Err(e),
        }
    }
}

/// Naming a value and taking the value of the name give back the same value, for every
/// known name, and the value of a name is the value it was read from.
pub proof fn law_named_group_names(n: NamedGroupName, t: NamedGroup)
    ensures
        NamedGroup(n.spec_value()).spec_name() == Some(n),
        t.spec_name() matches Some(m) ==> m.spec_value() == t.0,
{
}

/// The content type of a TLS record
#[derive(Debug, Clone, Copy, PartialEq, Eq, Structural)]
pub struct ContentType(pub u8);

/// The known names of [`ContentType`] values
#[allow(non_camel_case_types)]
#[derive(Debug, Clone, Copy, PartialEq, Eq, Structural)]
pub enum ContentTypeName {
    ChangeCipherSpec,
    Alert,
    Handshake,
    ApplicationData,
    Heartbeat,
}

impl ContentTypeName {
    /// The wire value of this name
    pub open spec fn spec_value(self) -> u8 {
        match self {
            ContentTypeName::ChangeCipherSpec => 20,
            ContentTypeName::Alert => 21,
            ContentTypeName::Handshake => 22,
            ContentTypeName::ApplicationData => 23,
            ContentTypeName::Heartbeat => 24,
        }
    }

    /// Convert a name to its value
    pub fn value(self) -> (r: ContentType)
        ensures
            r.0 == self.spec_value(),
    {
        match self {
            ContentTypeName::ChangeCipherSpec => ContentType(20),
            ContentTypeName::Alert => ContentType(21),
            ContentTypeName::Handshake => ContentType(22),
            ContentTypeName::ApplicationData => ContentType(23),
            ContentTypeName::Heartbeat => ContentType(24),
        }
    }
}

impl ContentType {
    /// The name of this value, if it is a known one
    pub open spec fn spec_name(self) -> Option<ContentTypeName> {
        match self.0 {
            20 => Some(ContentTypeName::ChangeCipherSpec),
            21 => Some(ContentTypeName::Alert),
            22 => Some(ContentTypeName::Handshake),
            23 => Some(ContentTypeName::ApplicationData),
            24 => Some(ContentTypeName::Heartbeat),
            _ => None,
        }
    }

    /// Convert a value to its name, failing on unknown values
    pub fn name(self) -> (r: Option<ContentTypeName>)
        ensures
            r == self.spec_name(),
    {
        match self.0 {
            20 => Some(ContentTypeName::ChangeCipherSpec),
            21 => Some(ContentTypeName::Alert),
            22 => Some(ContentTypeName::Handshake),
            23 => Some(ContentTypeName::ApplicationData),
            24 => Some(ContentTypeName::Heartbeat),
            _ => None,
        }
    }
}

impl Encode for ContentType {
    open spec fn encoding(&self) -> Seq<u8> {
        seq![self.0]
    }

    fn encode(&self, dest: &mut Vec<u8>) {
        dest.push(self.0);
    }
}

impl Decode for ContentType {
    open spec fn parse(s: Seq<u8>) -> Result<(ContentType, nat), InvalidMessage> {
        match u8::parse(s) {
            Ok((v, n)) => Ok((ContentType(v), n)),
            Err(e) => Err(e),
        }
    }

    fn decode(buf: &mut Reader) -> (r: Result<Self, InvalidMessage>) {
        match u8::decode(buf) {
            Ok(v) => Ok(ContentType(v)),
            Err(e) => Err(e),
        }
    }
}

/// Naming a value and taking the value of the name give back the same value, for every
/// known name, and the value of a name is the value it was read from.
pub proof fn law_content_type_names(n: ContentTypeName, t: ContentType)
    ensures
        ContentType(n.spec_value()).spec_name() == Some(n),
        t.spec_name() matches Some(m) ==> m.spec_value() == t.0,
{
}

} // verus!
