//! Key shares of the key_share extension (RFC 8446, section 4.2.8)

use vstd::prelude::*;

use crate::{
    bytes::{array_of, copy_32, extend_bytes, lemma_array_of_unique},
    tls::{
        codec::{be2, push_u16, Decode, Encode},
        enums::{NamedGroup, NamedGroupName},
        error::InvalidMessage,
        reader::Reader,
    },
};

verus! {

/// A key share: the group and the public value
#[derive(Debug, Clone, Copy)]
pub enum KeyShareEntry {
    /// An X25519 public key
    X25519([u8; 32]),
}

/// The secret corresponding to a [`KeyShareEntry`]
#[derive(Clone, Copy)]
pub enum KeyShareSecret {
    /// An X25519 secret scalar
    X25519([u8; 32]),
}

impl KeyShareEntry {
    /// Get the [`NamedGroup`] corresponding to this key share
    pub fn named_group(&self) -> (r: NamedGroup)
        ensures
            r == NamedGroup(0x001d),
    {
        match self {
            KeyShareEntry::X25519(_) => NamedGroupName::x25519.value(),
        }
    }

    /// The public value of this key share
    pub open spec fn public_value(self) -> Seq<u8> {
        match self {
            KeyShareEntry::X25519(k) => k@,
        }
    }
}

impl KeyShareSecret {
    /// Get the [`NamedGroup`] corresponding to this key share
    pub fn named_group(&self) -> (r: NamedGroup)
        ensures
            r == NamedGroup(0x001d),
    {
        match self {
            KeyShareSecret::X25519(_) => NamedGroupName::x25519.value(),
        }
    }
}

impl Encode for KeyShareEntry {
    /// The group, then the public value preceded by its two-byte length
    open spec fn encoding(&self) -> Seq<u8> {
        be2(0x001d) + be2(32) + self.public_value()
    }

    fn encode(&self, dest: &mut Vec<u8>) {
        self.named_group().encode(dest);
        match self {
            // For X25519 and X448, the content is the byte string of the public value
            KeyShareEntry::X25519(public_key) => {
                push_u16(dest, 32);
                extend_bytes(dest, public_key.as_slice());
            },
        }
        assert(dest@ =~= old(dest)@ + self.encoding());
    }
}

impl Decode for KeyShareEntry {
    open spec fn parse(s: Seq<u8>) -> Result<(KeyShareEntry, nat), InvalidMessage> {
        match NamedGroup::parse(s) {
            Err(e) => Err(e),
            Ok((g, n)) => match g.spec_name() {
                None => Err(InvalidMessage::InvalidNamedGroup),
                Some(NamedGroupName::x25519) => match u16::parse(s.skip(n as int)) {
                    Err(e) => Err(e),
                    Ok((len, m)) => if len != 32 {
                        Err(InvalidMessage::IllegalParameter)
                    } else if s.len() < n + m + 32 {
                        Err(InvalidMessage::TooShortFor("keyshare"))
                    } else {
                        Ok(
                            (
                                KeyShareEntry::X25519(
                                    array_of(s.subrange((n + m) as int, (n + m + 32) as int)),
                                ),
                                n + m + 32,
                            ),
                        )
                    },
                },
                Some(_) => Err(InvalidMessage::UnsupportedNamedGroup),
            },
        }
    }

    fn decode(buf: &mut Reader) -> (r: Result<Self, InvalidMessage>) {
        let ghost s = buf@;
        let group = NamedGroup::decode(buf)?;
        match group.name() {
            None => Err(InvalidMessage::InvalidNamedGroup),
            Some(NamedGroupName::x25519) => {
                let len = u16::decode(buf)?;
                if len != 32 {
                    return Err(InvalidMessage::IllegalParameter);
                }
                let bytes = buf.take_for("keyshare", 32)?;
                let key = copy_32(bytes);
                proof {
                    assert(s.skip(2).skip(2) =~= s.skip(4));
                    assert(bytes@ =~= s.subrange(4, 36));
                    assert(buf@ =~= s.skip(36));
                }
                Ok(KeyShareEntry::X25519(key))
            },
            Some(_) => Err(InvalidMessage::UnsupportedNamedGroup),
        }
    }
}

/// Decoding the encoding of a key share gives it back, whatever follows it
pub proof fn law_key_share_roundtrip(k: KeyShareEntry, rest: Seq<u8>)
    ensures
        KeyShareEntry::parse(k.encoding() + rest) == Ok::<(KeyShareEntry, nat), InvalidMessage>(
            (k, 36),
        ),
{
    broadcast use vstd::array::group_array_axioms;

    let s = k.encoding() + rest;
    match k {
        KeyShareEntry::X25519(a) => {
            assert(s.subrange(4, 36) =~= a@);
            lemma_array_of_unique(a, a@);
        },
    }
}

} // verus!
