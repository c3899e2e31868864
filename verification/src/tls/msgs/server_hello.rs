//! ServerHello / HelloRetryRequest messages (RFC 8446, section 4.1.3)

use vstd::prelude::*;

use crate::{
    bytes::{bytes_to_vec, copy_32},
    tls::{
        codec::{Decode, Encode},
        crypto::keyshare::KeyShareEntry,
        enums::{
            CipherSuite, ExtensionType, ExtensionTypeName, NamedGroup, ProtocolVersion,
            ProtocolVersionName,
        },
        error::InvalidMessage,
        reader::Reader,
    },
};

verus! {

/// The server random value
#[derive(Debug, Clone, Copy)]
pub struct ServerRandom(pub [u8; 32]);

/// The random of a HelloRetryRequest: the SHA-256 of "HelloRetryRequest"
pub open spec fn hello_retry_request_random() -> Seq<u8> {
    seq![
        0xCFu8, 0x21, 0xAD, 0x74, 0xE5, 0x9A, 0x61, 0x11, 0xBE, 0x1D, 0x8C, 0x02, 0x1E, 0x65, 0xB8,
        0x91, 0xC2, 0xA2, 0x11, 0x16, 0x7A, 0xBB, 0x8C, 0x5E, 0x07, 0x9E, 0x09, 0xE2, 0xC8, 0xA8,
        0x33, 0x9C,
    ]
}

/// The last 8 bytes of the random of a server that negotiates TLS 1.2
pub open spec fn downgrade_tls12_sig() -> Seq<u8> {
    seq![0x44u8, 0x4F, 0x57, 0x4E, 0x47, 0x52, 0x44, 0x01]
}

/// The last 8 bytes of the random of a server that negotiates TLS 1.1 or below
pub open spec fn downgrade_tls11_sig() -> Seq<u8> {
    seq![0x44u8, 0x4F, 0x57, 0x4E, 0x47, 0x52, 0x44, 0x00]
}

impl ServerRandom {
    /// Whether the random carries one of the downgrade signatures
    pub open spec fn spec_is_downgrade(self) -> bool {
        self.0@.subrange(24, 32) == downgrade_tls12_sig() || self.0@.subrange(24, 32)
            == downgrade_tls11_sig()
    }

    /// Check if this this random corresponds to a downgrade negotiation
    pub fn is_downgrade(&self) -> (r: bool)
        ensures
            r == self.spec_is_downgrade(),
    {
        let r = &self.0;
        let head = r[24] == 0x44 && r[25] == 0x4F && r[26] == 0x57 && r[27] == 0x4E && r[28]
            == 0x47 && r[29] == 0x52 && r[30] == 0x44;
        let res = head && (r[31] == 0x01 || r[31] == 0x00);
        proof {
            if res {
                if r[31] == 0x01 {
                    assert(r@.subrange(24, 32) =~= downgrade_tls12_sig());
                } else {
                    assert(r@.subrange(24, 32) =~= downgrade_tls11_sig());
                }
            } else {
                if r@.subrange(24, 32) == downgrade_tls12_sig() {
                    assert(r@.subrange(24, 32)[7] == 0x01);
                }
                if r@.subrange(24, 32) == downgrade_tls11_sig() {
                    assert(r@.subrange(24, 32)[7] == 0x00);
                }
            }
        }
        res
    }

    /// Whether this is the special random of a HelloRetryRequest
    pub fn is_hello_retry_request(&self) -> (r: bool)
        ensures
            r == (self.0@ == hello_retry_request_random()),
    {
        let expected: [u8; 32] = [
            0xCF, 0x21, 0xAD, 0x74, 0xE5, 0x9A, 0x61, 0x11, 0xBE, 0x1D, 0x8C, 0x02, 0x1E, 0x65, 0xB8,
            0x91, 0xC2, 0xA2, 0x11, 0x16, 0x7A, 0xBB, 0x8C, 0x5E, 0x07, 0x9E, 0x09, 0xE2, 0xC8, 0xA8,
            0x33, 0x9C,
        ];
        assert(expected@ =~= hello_retry_request_random());
        crate::bytes::bytes_eq(self.0.as_slice(), expected.as_slice())
    }
}

/// The 2 types of key_share extension we can receive, depending if the
/// message is a ServerHello or a HelloRetryRequest
#[derive(Debug, Clone, Copy)]
pub enum ServerKeyShare {
    /// KeyShare extension for a ServerHello, contains the server share
    Entry(KeyShareEntry),
    /// KeyShare extension for a HelloRetryRequest, contains the selected [`NamedGroup`]
    SelectedGroup(NamedGroup),
}

/// The server extensions in a handshake
///
/// Each extension is in an option, which is None if the extension was absent
#[derive(Debug, Clone)]
pub struct ServerExtensions {
    pub supported_version: Option<ProtocolVersion>,
    pub cookie: Option<Vec<u8>>,
    pub key_share: Option<ServerKeyShare>,
}

/// The contents of [`ServerExtensions`]
pub struct ServerExtensionsView {
    pub supported_version: Option<ProtocolVersion>,
    pub cookie: Option<Seq<u8>>,
    pub key_share: Option<ServerKeyShare>,
}

impl View for ServerExtensions {
    type V = ServerExtensionsView;

    open spec fn view(&self) -> ServerExtensionsView {
        ServerExtensionsView {
            supported_version: self.supported_version,
            cookie: match self.cookie {
                Some(c) => Some(c@),
                None => None,
            },
            key_share: self.key_share,
        }
    }
}

/// No extension at all
pub open spec fn no_extensions() -> ServerExtensionsView {
    ServerExtensionsView { supported_version: None, cookie: None, key_share: None }
}

/// The extensions `e` once the body `body` of an extension of type `typ` is added to them
pub open spec fn add_extension(
    e: ServerExtensionsView,
    typ: ExtensionType,
    body: Seq<u8>,
    is_retry_request: bool,
) -> Result<ServerExtensionsView, InvalidMessage> {
    match typ.spec_name() {
        None => Err(InvalidMessage::UnsupportedExtension),
        Some(ExtensionTypeName::KeyShare) => if e.key_share is Some {
            Err(InvalidMessage::IllegalParameter)
        } else if is_retry_request {
            match NamedGroup::parse(body) {
                Err(err) => Err(err),
                Ok((g, _)) => Ok(
                    ServerExtensionsView { key_share: Some(ServerKeyShare::SelectedGroup(g)), ..e },
                ),
            }
        } else {
            match KeyShareEntry::parse(body) {
                Err(err) => Err(err),
                Ok((k, _)) => Ok(
                    ServerExtensionsView { key_share: Some(ServerKeyShare::Entry(k)), ..e },
                ),
            }
        },
        Some(ExtensionTypeName::SupportedVersions) => if e.supported_version is Some {
            Err(InvalidMessage::IllegalParameter)
        } else {
            match ProtocolVersion::parse(body) {
                Err(err) => Err(err),
                Ok((v, _)) => Ok(ServerExtensionsView { supported_version: Some(v), ..e }),
            }
        },
        Some(ExtensionTypeName::Cookie) => if e.cookie is Some {
            Err(InvalidMessage::IllegalParameter)
        } else {
            match u16::parse(body) {
                Err(_) => Err(InvalidMessage::TooShortFor("cookie")),
                Ok((len, _)) => if len == 0 {
                    // The cookie must not be empty
                    Err(InvalidMessage::IllegalParameter)
                } else if body.len() < 2 + len {
                    Err(InvalidMessage::TooShortFor("cookie"))
                } else {
                    Ok(
                        ServerExtensionsView {
                            cookie: Some(body.subrange(2, 2 + len as int)),
                            ..e
                        },
                    )
                },
            }
        },
        // the "extension_data" field of a server_name extension in the server hello should be empty
        Some(ExtensionTypeName::ServerName) => if body.len() != 0 {
            Err(InvalidMessage::IllegalParameter)
        } else {
            Ok(e)
        },
        Some(_) => Err(InvalidMessage::UnsupportedExtension),
    }
}

/// Decoding one extension from `s` into `e`: the new extensions and the bytes taken
pub open spec fn parse_extension(e: ServerExtensionsView, s: Seq<u8>, is_retry_request: bool) -> Result<
    (ServerExtensionsView, nat),
    InvalidMessage,
> {
    match ExtensionType::parse(s) {
        Err(err) => Err(err),
        Ok((typ, n1)) => match u16::parse(s.skip(n1 as int)) {
            Err(err) => Err(err),
            Ok((len, n2)) => if s.len() < n1 + n2 + len {
                Err(InvalidMessage::TooShortFor("extensions"))
            } else {
                match add_extension(
                    e,
                    typ,
                    s.subrange((n1 + n2) as int, (n1 + n2 + len) as int),
                    is_retry_request,
                ) {
                    Err(err) => Err(err),
                    Ok(e2) => Ok((e2, (n1 + n2 + len) as nat)),
                }
            },
        },
    }
}

/// Decoding extensions from `s` into `e` until `s` is used up
pub open spec fn parse_extensions(e: ServerExtensionsView, s: Seq<u8>, is_retry_request: bool) -> Result<
    ServerExtensionsView,
    InvalidMessage,
>
    decreases s.len(),
{
    if s.len() == 0 {
        Ok(e)
    } else {
        match parse_extension(e, s, is_retry_request) {
            Err(err) => Err(err),
            Ok((e2, n)) => if 0 < n <= s.len() {
                parse_extensions(e2, s.skip(n as int), is_retry_request)
            } else {
                Err(InvalidMessage::TooShort)
            },
        }
    }
}

/// Whether every extension present in `e` is one of `accepted`
pub open spec fn contains_only_spec(e: ServerExtensionsView, accepted: Seq<ExtensionTypeName>) -> bool {
    &&& (e.supported_version is None || accepted.contains(ExtensionTypeName::SupportedVersions))
    &&& (e.cookie is None || accepted.contains(ExtensionTypeName::Cookie))
    &&& (e.key_share is None || accepted.contains(ExtensionTypeName::KeyShare))
}

/// Whether `accepted` holds `name`
fn list_contains(accepted: &[ExtensionTypeName], name: ExtensionTypeName) -> (r: bool)
    ensures
        r == accepted@.contains(name),
{
    let mut i: usize = 0;
    while i < accepted.len()
        invariant
            0 <= i <= accepted@.len(),
            forall|j: int| 0 <= j < i ==> accepted@[j] != name,
        decreases accepted@.len() - i,
    {
        if accepted[i] == name {
            return true;
        }
        i = i + 1;
    }
    false
}

impl ServerExtensions {
    /// Create an empty [`ServerExtensions`]
    pub fn new() -> (r: Self)
        ensures
            r@ == no_extensions(),
    {
        ServerExtensions { supported_version: None, cookie: None, key_share: None }
    }

    /// Decode a server extension from a reader and add it to the list.
    ///
    /// The `is_retry_request` parameter is used to differentiate key_share extensions
    /// in ServerHello and HelloRetryRequest messages
    pub fn decode(&mut self, buf: &mut Reader, is_retry_request: bool) -> (r: Result<
        (),
        InvalidMessage,
    >)
        ensures
            match parse_extension(old(self)@, old(buf)@, is_retry_request) {
                Ok((e, n)) => r is Ok && final(self)@ == e && 4 <= n <= old(buf)@.len()
                    && final(buf)@ == old(buf)@.skip(n as int),
                Err(err) => r == Err::<(), InvalidMessage>(err),
            },
    {
        let ghost s = buf@;
        let typ = ExtensionType::decode(buf)?;
        let len = u16::decode(buf)?;
        let body = buf.take_for("extensions", len as usize)?;
        proof {
            assert(s.skip(2).skip(2) =~= s.skip(4));
            assert(s.skip(4).take(len as int) =~= s.subrange(4, 4 + len as int));
        }
        let mut inner = Reader::new(body);
        let name = match typ.name() {
            Some(n) => n,
            None => return Err(InvalidMessage::UnsupportedExtension),
        };
        match name {
            ExtensionTypeName::KeyShare => {
                if self.key_share.is_some() {
                    return Err(InvalidMessage::IllegalParameter);
                }
                let content = if is_retry_request {
                    ServerKeyShare::SelectedGroup(NamedGroup::decode(&mut inner)?)
                } else {
                    ServerKeyShare::Entry(KeyShareEntry::decode(&mut inner)?)
                };
                self.key_share = Some(content);
            },
            ExtensionTypeName::SupportedVersions => {
                if self.supported_version.is_some() {
                    return Err(InvalidMessage::IllegalParameter);
                }
                let version = ProtocolVersion::decode(&mut inner)?;
                self.supported_version = Some(version);
            },
            ExtensionTypeName::Cookie => {
                if self.cookie.is_some() {
                    return Err(InvalidMessage::IllegalParameter);
                }
                let len = u16::decode_for("cookie", &mut inner)?;
                // The cookie must not be empty
                if len == 0 {
                    return Err(InvalidMessage::IllegalParameter);
                }
                let bytes = inner.take_for("cookie", len as usize)?;
                proof {
                    assert(bytes@ =~= body@.subrange(2, 2 + len as int));
                }
                self.cookie = Some(bytes_to_vec(bytes));
            },
            ExtensionTypeName::ServerName => {
                // the "extension_data" field of a server_name extension in the server hello should be empty
                if !inner.is_empty() {
                    return Err(InvalidMessage::IllegalParameter);
                }
            },
            _ => return Err(InvalidMessage::UnsupportedExtension),
        }
        Ok(())
    }

    /// Check if the list does not contain any extension that is not in the `accepted` list
    pub fn contains_only(&self, accepted: &[ExtensionTypeName]) -> (r: bool)
        ensures
            r == contains_only_spec(self@, accepted@),
    {
        (self.supported_version.is_none() || list_contains(
            accepted,
            ExtensionTypeName::SupportedVersions,
        )) && (self.cookie.is_none() || list_contains(accepted, ExtensionTypeName::Cookie)) && (
        self.key_share.is_none() || list_contains(accepted, ExtensionTypeName::KeyShare))
    }
}


/// ServerHello / HelloRetryRequest messages
///
/// For backward compatibility with middleboxes, the ServerHello and HelloRetryRequest messages
/// share the same structure, and can be differentiated by the "random" value
#[derive(Debug, Clone)]
pub enum ServerHello {
    ServerHello(ServerHelloPayload),
    HelloRetryRequest(ServerHelloPayload),
}

/// Shared structure for ServerHello and HelloRetryRequest messages
#[derive(Debug, Clone)]
pub struct ServerHelloPayload {
    pub random: ServerRandom,
    pub cipher_suite: CipherSuite,
    pub extensions: ServerExtensions,
}

/// The contents of a [`ServerHelloPayload`]
pub struct ServerHelloPayloadView {
    pub random: ServerRandom,
    pub cipher_suite: CipherSuite,
    pub extensions: ServerExtensionsView,
}

/// The contents of a [`ServerHello`]
pub enum ServerHelloView {
    ServerHello(ServerHelloPayloadView),
    HelloRetryRequest(ServerHelloPayloadView),
}

impl View for ServerHelloPayload {
    type V = ServerHelloPayloadView;

    open spec fn view(&self) -> ServerHelloPayloadView {
        ServerHelloPayloadView {
            random: self.random,
            cipher_suite: self.cipher_suite,
            extensions: self.extensions@,
        }
    }
}

impl View for ServerHello {
    type V = ServerHelloView;

    open spec fn view(&self) -> ServerHelloView {
        match self {
            ServerHello::ServerHello(p) => ServerHelloView::ServerHello(p@),
            ServerHello::HelloRetryRequest(p) => ServerHelloView::HelloRetryRequest(p@),
        }
    }
}

/// The extensions allowed in a HelloRetryRequest, or else in a ServerHello
pub open spec fn accepted_extensions(is_retry_request: bool) -> Seq<ExtensionTypeName> {
    if is_retry_request {
        seq![ExtensionTypeName::KeyShare, ExtensionTypeName::Cookie, ExtensionTypeName::SupportedVersions]
    } else {
        seq![ExtensionTypeName::KeyShare, ExtensionTypeName::SupportedVersions]
    }
}

/// Decoding a ServerHello from `s`: the message and the bytes taken, or the error
pub open spec fn parse_server_hello(s: Seq<u8>) -> Result<(ServerHelloView, nat), InvalidMessage> {
    match ProtocolVersion::parse(s) {
        Err(e) => Err(e),
        Ok((version, _)) => if version != ProtocolVersion(0x0303) {
            Err(InvalidMessage::UnsupportedProtocolVersion)
        } else if s.len() < 34 {
            Err(InvalidMessage::TooShortFor("server_random"))
        } else {
            let random = ServerRandom(crate::bytes::array_of(s.subrange(2, 34)));
            let is_retry = s.subrange(2, 34) == hello_retry_request_random();
            if random.spec_is_downgrade() {
                Err(InvalidMessage::IllegalParameter)
            } else if s.len() < 35 {
                Err(InvalidMessage::TooShortFor("sh_sess_id"))
            } else if s[34] != 0 {
                Err(InvalidMessage::IllegalParameter)
            } else {
                match CipherSuite::parse(s.skip(35)) {
                    Err(e) => Err(e),
                    Ok((cipher_suite, _)) => if s.len() < 38 {
                        Err(InvalidMessage::TooShortFor("sh_compression"))
                    } else if s[37] != 0 {
                        Err(InvalidMessage::IllegalParameter)
                    } else {
                        match u16::parse(s.skip(38)) {
                            Err(e) => Err(e),
                            Ok((len, _)) => if s.len() < 40 + len {
                                Err(InvalidMessage::TooShortFor("extensions"))
                            } else {
                                match parse_extensions(
                                    no_extensions(),
                                    s.subrange(40, 40 + len as int),
                                    is_retry,
                                ) {
                                    Err(e) => Err(e),
                                    Ok(extensions) => if !contains_only_spec(
                                        extensions,
                                        accepted_extensions(is_retry),
                                    ) {
                                        Err(InvalidMessage::IllegalParameter)
                                    } else {
                                        let payload = ServerHelloPayloadView {
                                            random,
                                            cipher_suite,
                                            extensions,
                                        };
                                        if is_retry {
                                            Ok((ServerHelloView::HelloRetryRequest(payload), (40 + len) as nat))
                                        } else {
                                            Ok((ServerHelloView::ServerHello(payload), (40 + len) as nat))
                                        }
                                    },
                                }
                            },
                        }
                    },
                }
            }
        },
    }
}

impl ServerHello {
    /// Decode a ServerHello or a HelloRetryRequest
    pub fn decode(buf: &mut Reader) -> (r: Result<Self, InvalidMessage>)
        ensures
            match parse_server_hello(old(buf)@) {
                Ok((v, n)) => r matches Ok(h) && h@ == v && n <= old(buf)@.len() && final(buf)@
                    == old(buf)@.skip(n as int),
                Err(e) => r matches Err(e2) && e2 == e,
            },
    {
        let ghost s = buf@;
        let version = ProtocolVersion::decode(buf)?;
        if version != ProtocolVersionName::TLSv1_2.value() {
            return Err(InvalidMessage::UnsupportedProtocolVersion);
        }
        let random_bytes = buf.take_for("server_random", 32)?;
        proof {
            assert(random_bytes@ =~= s.subrange(2, 34));
            assert(s.skip(2).skip(32) =~= s.skip(34));
        }
        let random = ServerRandom(copy_32(random_bytes));

        // We are dealing with a HelloRetryRequest
        let is_hello_retry = random.is_hello_retry_request();

        // Terminate handshakes that try downgrading with "illegal_parameter" alert
        if random.is_downgrade() {
            return Err(InvalidMessage::IllegalParameter);
        }

        // legacy_session_id_echo should be an empty array (0x00) since
        // that's what we send in our ClientHello
        let sess_id = buf.take_byte_for("sh_sess_id")?;
        if sess_id != 0x00 {
            return Err(InvalidMessage::IllegalParameter);
        }
        proof {
            assert(s.skip(34).skip(1) =~= s.skip(35));
        }
        let cipher_suite = CipherSuite::decode(buf)?;
        proof {
            assert(s.skip(35).skip(2) =~= s.skip(37));
        }

        // legacy_compression_method should be 0
        let compression = buf.take_byte_for("sh_compression")?;
        if compression != 0 {
            return Err(InvalidMessage::IllegalParameter);
        }
        proof {
            assert(s.skip(37).skip(1) =~= s.skip(38));
        }

        // Extensions
        let len = u16::decode(buf)?;
        proof {
            assert(s.skip(38).skip(2) =~= s.skip(40));
        }
        let exts_payload = buf.take_for("extensions", len as usize)?;
        proof {
            assert(exts_payload@ =~= s.subrange(40, 40 + len as int));
            assert(s.skip(40).skip(len as int) =~= s.skip(40 + len as int));
        }
        let mut exts_reader = Reader::new(exts_payload);
        let mut extensions = ServerExtensions::new();
        #[verifier::loop_isolation(false)]
        while !exts_reader.is_empty()
            invariant
                parse_extensions(no_extensions(), exts_payload@, is_hello_retry) == parse_extensions(
                    extensions@,
                    exts_reader@,
                    is_hello_retry,
                ),
            decreases exts_reader@.len(),
        {
            let ghost before = exts_reader@;
            let ghost ext_before = extensions@;
            match extensions.decode(&mut exts_reader, is_hello_retry) {
                Ok(()) => {
                    assert(parse_extensions(ext_before, before, is_hello_retry) == parse_extensions(
                        extensions@,
                        exts_reader@,
                        is_hello_retry,
                    ));
                },
                Err(e) => {
                    assert(parse_extensions(ext_before, before, is_hello_retry) == Err::<
                        ServerExtensionsView,
                        InvalidMessage,
                    >(e));
                    return Err(e);
                },
            }
        }
        let accepted = if is_hello_retry {
            vec![ExtensionTypeName::KeyShare, ExtensionTypeName::Cookie, ExtensionTypeName::SupportedVersions]
        } else {
            vec![ExtensionTypeName::KeyShare, ExtensionTypeName::SupportedVersions]
        };
        assert(accepted@ =~= accepted_extensions(is_hello_retry));
        if !extensions.contains_only(accepted.as_slice()) {
            return Err(InvalidMessage::IllegalParameter);
        }
        let payload = ServerHelloPayload { random, cipher_suite, extensions };
        if is_hello_retry {
            Ok(ServerHello::HelloRetryRequest(payload))
        } else {
            Ok(ServerHello::ServerHello(payload))
        }
    }
}

/// Whether extensions hold no key share of a HelloRetryRequest
pub open spec fn no_selected_group(e: ServerExtensionsView) -> bool {
    !(e.key_share matches Some(ServerKeyShare::SelectedGroup(_)))
}

/// The extensions of a ServerHello never hold the key share of a HelloRetryRequest
pub proof fn lemma_parse_extensions_no_selected_group(e: ServerExtensionsView, s: Seq<u8>)
    requires
        no_selected_group(e),
    ensures
        parse_extensions(e, s, false) matches Ok(r) ==> no_selected_group(r),
    decreases s.len(),
{
    if s.len() > 0 {
        match parse_extension(e, s, false) {
            Ok((e2, n)) => {
                if 0 < n <= s.len() {
                    lemma_parse_extensions_no_selected_group(e2, s.skip(n as int));
                }
            },
            Err(_) => {},
        }
    }
}

/// A decoded ServerHello, as opposed to a HelloRetryRequest, never holds the key share of
/// a HelloRetryRequest
pub proof fn lemma_server_hello_no_selected_group(s: Seq<u8>)
    ensures
        parse_server_hello(s) matches Ok((ServerHelloView::ServerHello(p), _)) ==> no_selected_group(
            p.extensions,
        ),
{
    if s.len() >= 40 {
        let len = (s[38] * 256 + s[39]) as int;
        if s.len() >= 40 + len {
            lemma_parse_extensions_no_selected_group(no_extensions(), s.subrange(40, 40 + len));
        }
    }
}

} // verus!
