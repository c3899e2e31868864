//! The extended triple Diffie-Hellman key agreement that opens a session
//!
//! The initiator combines its identity secret and a fresh ephemeral secret with the
//! identity key, the signed mid-term prekey and, when there is one, an ephemeral prekey of
//! the responder. The responder combines its own secrets with the initiator's public
//! identity and ephemeral keys, and obtains the same shared secret.

use vstd::prelude::*;

use crate::{
    bytes::{array_of, id_bytes},
    e2e::{
        client::session::E2ESession,
        kdf::spec_kdf,
        keys::{IdentityKeyPair, SymetricKey},
        message::{
            encrypted_payload::{payload_bytes, EncryptedPayloadView, PayloadMessageView},
            E2EMessage, KeyExchangeData, PreKeyBundle,
        },
    },
    primitives::{x25519_public, x25519_shared, xchacha_seal},
};

verus! {

/// The Diffie-Hellman outputs in the order the key derivation takes them
pub open spec fn dh_concat(dh1: Seq<u8>, dh2: Seq<u8>, dh3: Seq<u8>, dh4: Option<Seq<u8>>) -> Seq<u8> {
    match dh4 {
        Some(d) => dh1 + dh2 + dh3 + d,
        None => dh1 + dh2 + dh3,
    }
}

/// The shared secret of the initiator, from its identity secret `ik_a` and ephemeral secret
/// `ek_a`, and the responder's public identity key, signed prekey and optional ephemeral
/// prekey
pub open spec fn initiator_secret(
    ik_a: Seq<u8>,
    ek_a: Seq<u8>,
    ik_b: Seq<u8>,
    spk_b: Seq<u8>,
    opk_b: Option<Seq<u8>>,
) -> Seq<u8> {
    spec_kdf(
        dh_concat(
            x25519_shared(ik_a, spk_b),
            x25519_shared(ek_a, ik_b),
            x25519_shared(ek_a, spk_b),
            match opk_b {
                Some(o) => Some(x25519_shared(ek_a, o)),
                None => None,
            },
        ),
    )
}

/// The shared secret of the responder, from its identity secret, signed prekey secret and
/// optional ephemeral prekey secret, and the initiator's public identity and ephemeral keys
pub open spec fn responder_secret(
    ik_b: Seq<u8>,
    spk_b: Seq<u8>,
    opk_b: Option<Seq<u8>>,
    ik_a: Seq<u8>,
    ek_a: Seq<u8>,
) -> Seq<u8> {
    spec_kdf(
        dh_concat(
            x25519_shared(spk_b, ik_a),
            x25519_shared(ik_b, ek_a),
            x25519_shared(spk_b, ek_a),
            match opk_b {
                Some(o) => Some(x25519_shared(o, ek_a)),
                None => None,
            },
        ),
    )
}

/// The public key of an optional secret
pub open spec fn public_opt(s: Option<Seq<u8>>) -> Option<Seq<u8>> {
    match s {
        Some(k) => Some(x25519_public(k)),
        None => None,
    }
}

/// Whether the responder's secret equals the initiator's for every pair of initiator
/// secrets behind the public keys `ik_a` and `ek_a`
pub open spec fn agrees(
    ik_b: Seq<u8>,
    spk_b: Seq<u8>,
    opk_b: Option<Seq<u8>>,
    ik_a: Seq<u8>,
    ek_a: Seq<u8>,
) -> bool {
    forall|sik: Seq<u8>, sek: Seq<u8>|
        #![trigger x25519_public(sik), x25519_public(sek)]
        sik.len() == 32 && sek.len() == 32 && ik_a == x25519_public(sik) && ek_a == x25519_public(
            sek,
        ) ==> responder_secret(ik_b, spk_b, opk_b, ik_a, ek_a) == initiator_secret(
            sik,
            sek,
            x25519_public(ik_b),
            x25519_public(spk_b),
            public_opt(opk_b),
        )
}

/// The associated data of the first message of a session: the initiator's and the
/// responder's public identity keys, then the ids of the initiator's sending and receiving
/// keys
pub open spec fn session_aad(ik_a: Seq<u8>, ik_b: Seq<u8>, i: u128, j: u128) -> Seq<u8> {
    ik_a + ik_b + id_bytes(i) + id_bytes(j)
}

/// The public ephemeral prekey of a bundle, if it has one
pub open spec fn bundle_prekey(bundle: PreKeyBundle) -> Option<Seq<u8>> {
    match bundle.ephemeral_prekey {
        Some(k) => Some(k.key@),
        None => None,
    }
}

/// Whether `msg` and `sess` are what opening a session with `recipient_id` prepares: the
/// initial message, under the token, carrying the key exchange data and `message`
/// encrypted with the new sending key, and the session for those keys
pub open spec fn prepared_open_session(
    ik: IdentityKeyPair,
    bundle: PreKeyBundle,
    recipient_id: u128,
    token: Seq<char>,
    message: Seq<u8>,
    msg: E2EMessage,
    sess: E2ESession,
) -> bool {
    match msg {
        E2EMessage::SendInitialMessage { token: t, recipient_id: rid, data } => {
            let ik_a = x25519_public(ik.x25519_secret@);
            let aad = session_aad(
                ik_a,
                bundle.identity_keys.x25519@,
                data.send_key_id,
                data.receive_key_id,
            );
            &&& t@ == token
            &&& rid == recipient_id
            &&& data.identity_key == ik.spec_public_keys()
            &&& data.identity_key.x25519@ == ik_a
            &&& data.recipient_prekey_id == match bundle.ephemeral_prekey {
                Some(k) => Some(k.id),
                None => None::<u128>,
            }
            &&& sess.correspondant_id == recipient_id
            &&& sess.sending_key_id == data.send_key_id
            &&& sess.receiving_key_id == data.receive_key_id
            &&& data.msg_ciphertext.key_id == data.send_key_id
            &&& exists|ek: Seq<u8>|
                #![trigger x25519_public(ek)]
                ek.len() == 32 && data.ephemeral_prekey@ == x25519_public(ek) && {
                    let s = initiator_secret(
                        ik.x25519_secret@,
                        ek,
                        bundle.identity_keys.x25519@,
                        bundle.midterm_prekey@,
                        bundle_prekey(bundle),
                    );
                    &&& sess.sending_key@ == spec_kdf(s + ik_a)
                    &&& sess.receiving_key@ == spec_kdf(s + bundle.identity_keys.x25519@)
                }
            &&& data.msg_ciphertext.ciphertext@ == xchacha_seal(
                sess.sending_key@,
                data.msg_ciphertext.nonce@,
                aad,
                payload_bytes(PayloadMessageView::ChatMessage(message)),
            )
        },
        _ => false,
    }
}

/// Whether the first message of `kex` is the payload `p` as an initiator seals it for the
/// responder whose identity, signed and optional ephemeral prekey secrets are `ik_b`,
/// `spk_b` and `opk_b`: for some secrets behind the initiator's public identity and
/// ephemeral keys, it is `p` encrypted with the initiator's sending key
pub open spec fn initiator_sealed(
    ik_b: Seq<u8>,
    spk_b: Seq<u8>,
    opk_b: Option<Seq<u8>>,
    kex: KeyExchangeData,
    p: PayloadMessageView,
) -> bool {
    let ik_a = kex.identity_key.x25519@;
    let ek_a = kex.ephemeral_prekey@;
    exists|sik: Seq<u8>, sek: Seq<u8>|
        #![trigger x25519_public(sik), x25519_public(sek)]
        sik.len() == 32 && sek.len() == 32 && ik_a == x25519_public(sik) && ek_a == x25519_public(
            sek,
        ) && kex.msg_ciphertext.ciphertext@ == xchacha_seal(
            spec_kdf(
                initiator_secret(
                    sik,
                    sek,
                    x25519_public(ik_b),
                    x25519_public(spk_b),
                    public_opt(opk_b),
                ) + ik_a,
            ),
            kex.msg_ciphertext.nonce@,
            session_aad(ik_a, x25519_public(ik_b), kex.send_key_id, kex.receive_key_id),
            payload_bytes(p),
        )
}

/// When the responder agrees with the initiator, what the initiator sealed is sealed under
/// the responder's receiving key
pub proof fn lemma_sealed_under_responder_key(
    ik_b: Seq<u8>,
    spk_b: Seq<u8>,
    opk_b: Option<Seq<u8>>,
    kex: KeyExchangeData,
    p: PayloadMessageView,
)
    requires
        agrees(ik_b, spk_b, opk_b, kex.identity_key.x25519@, kex.ephemeral_prekey@),
        initiator_sealed(ik_b, spk_b, opk_b, kex, p),
    ensures
        ({
            let ik_a = kex.identity_key.x25519@;
            kex.msg_ciphertext.ciphertext@ == xchacha_seal(
                spec_kdf(responder_secret(ik_b, spk_b, opk_b, ik_a, kex.ephemeral_prekey@) + ik_a),
                kex.msg_ciphertext.nonce@,
                session_aad(ik_a, x25519_public(ik_b), kex.send_key_id, kex.receive_key_id),
                payload_bytes(p),
            )
        }),
{
    let ik_a = kex.identity_key.x25519@;
    let ek_a = kex.ephemeral_prekey@;
    let (sik, sek) = choose|sik: Seq<u8>, sek: Seq<u8>|
        #![trigger x25519_public(sik), x25519_public(sek)]
        sik.len() == 32 && sek.len() == 32 && ik_a == x25519_public(sik) && ek_a == x25519_public(
            sek,
        ) && kex.msg_ciphertext.ciphertext@ == xchacha_seal(
            spec_kdf(
                initiator_secret(
                    sik,
                    sek,
                    x25519_public(ik_b),
                    x25519_public(spk_b),
                    public_opt(opk_b),
                ) + ik_a,
            ),
            kex.msg_ciphertext.nonce@,
            session_aad(ik_a, x25519_public(ik_b), kex.send_key_id, kex.receive_key_id),
            payload_bytes(p),
        );
    assert(x25519_public(sik) == ik_a && x25519_public(sek) == ek_a);
}

/// The first message that opening a session prepares is the initiator's message sealed
/// for the responder whose secrets stand behind the bundle: so the responder, agreeing with
/// the initiator, opens it (see `handle_open_session`)
pub proof fn law_prepared_message_is_sealed_for_responder(
    ik: IdentityKeyPair,
    bundle: PreKeyBundle,
    recipient_id: u128,
    token: Seq<char>,
    message: Seq<u8>,
    msg: E2EMessage,
    sess: E2ESession,
    ik_b: Seq<u8>,
    spk_b: Seq<u8>,
    opk_b: Option<Seq<u8>>,
)
    requires
        prepared_open_session(ik, bundle, recipient_id, token, message, msg, sess),
        ik.x25519_secret@.len() == 32,
        bundle.identity_keys.x25519@ == x25519_public(ik_b),
        bundle.midterm_prekey@ == x25519_public(spk_b),
        bundle_prekey(bundle) == public_opt(opk_b),
    ensures
        msg matches E2EMessage::SendInitialMessage { data, .. } && initiator_sealed(
            ik_b,
            spk_b,
            opk_b,
            data,
            PayloadMessageView::ChatMessage(message),
        ),
{
    match msg {
        E2EMessage::SendInitialMessage { data, .. } => {
            let ik_a = data.identity_key.x25519@;
            let ek = choose|ek: Seq<u8>|
                #![trigger x25519_public(ek)]
                ek.len() == 32 && data.ephemeral_prekey@ == x25519_public(ek) && {
                    let s = initiator_secret(
                        ik.x25519_secret@,
                        ek,
                        bundle.identity_keys.x25519@,
                        bundle.midterm_prekey@,
                        bundle_prekey(bundle),
                    );
                    &&& sess.sending_key@ == spec_kdf(s + ik_a)
                    &&& sess.receiving_key@ == spec_kdf(s + bundle.identity_keys.x25519@)
                };
            let sik = ik.x25519_secret@;
            assert(x25519_public(sik) == ik_a);
            assert(x25519_public(ek) == data.ephemeral_prekey@);
        },
        _ => {},
    }
}

/// The session a responder opens with `sender_id` from the shared secret `secret`: it
/// sends with the initiator's receiving key, under the id `j` the initiator gave it, and
/// receives with the initiator's sending key, under the id `i`
pub open spec fn responder_session(
    sender_id: u128,
    secret: Seq<u8>,
    ik_a: Seq<u8>,
    ik_b: Seq<u8>,
    i: u128,
    j: u128,
    count: u64,
) -> E2ESession {
    E2ESession {
        correspondant_id: sender_id,
        sending_key_id: j,
        sending_key: array_of(spec_kdf(secret + ik_b)),
        key_msg_count: count,
        receiving_key_id: i,
        receiving_key: array_of(spec_kdf(secret + ik_a)),
    }
}

/// The central law of session opening: a responder whose keys are those of the bundle the
/// initiator used, and who agrees with the initiator on the shared secret (as the
/// responder's side establishes), derives the initiator's keys in mirror, and the first
/// message is the initiator's message encrypted under the responder's receiving key
pub proof fn law_opened_session_mirrors_prepared(
    ik: IdentityKeyPair,
    bundle: PreKeyBundle,
    recipient_id: u128,
    token: Seq<char>,
    message: Seq<u8>,
    msg: E2EMessage,
    sess: E2ESession,
    ik_b: Seq<u8>,
    spk_b: Seq<u8>,
    opk_b: Option<Seq<u8>>,
    sender_id: u128,
    count: u64,
)
    requires
        prepared_open_session(ik, bundle, recipient_id, token, message, msg, sess),
        ik_b.len() == 32,
        spk_b.len() == 32,
        bundle.identity_keys.x25519@ == x25519_public(ik_b),
        bundle.midterm_prekey@ == x25519_public(spk_b),
        bundle_prekey(bundle) == public_opt(opk_b),
        msg matches E2EMessage::SendInitialMessage { data, .. } && agrees(
            ik_b,
            spk_b,
            opk_b,
            data.identity_key.x25519@,
            data.ephemeral_prekey@,
        ),
    ensures
        msg matches E2EMessage::SendInitialMessage { data, .. } && ({
            let ik_a = data.identity_key.x25519@;
            let secret = responder_secret(ik_b, spk_b, opk_b, ik_a, data.ephemeral_prekey@);
            let opened = responder_session(
                sender_id,
                secret,
                ik_a,
                x25519_public(ik_b),
                data.send_key_id,
                data.receive_key_id,
                count,
            );
            &&& opened.receiving_key == sess.sending_key
            &&& opened.receiving_key_id == sess.sending_key_id
            &&& opened.sending_key == sess.receiving_key
            &&& opened.sending_key_id == sess.receiving_key_id
            &&& data.msg_ciphertext.ciphertext@ == xchacha_seal(
                spec_kdf(secret + ik_a),
                data.msg_ciphertext.nonce@,
                session_aad(ik_a, x25519_public(ik_b), data.send_key_id, data.receive_key_id),
                payload_bytes(PayloadMessageView::ChatMessage(message)),
            )
        }),
{
    broadcast use vstd::array::group_array_axioms;

    match msg {
        E2EMessage::SendInitialMessage { data, .. } => {
            let ik_a = data.identity_key.x25519@;
            let ek = choose|ek: Seq<u8>|
                #![trigger x25519_public(ek)]
                ek.len() == 32 && data.ephemeral_prekey@ == x25519_public(ek) && {
                    let s = initiator_secret(
                        ik.x25519_secret@,
                        ek,
                        bundle.identity_keys.x25519@,
                        bundle.midterm_prekey@,
                        bundle_prekey(bundle),
                    );
                    &&& sess.sending_key@ == spec_kdf(s + ik_a)
                    &&& sess.receiving_key@ == spec_kdf(s + bundle.identity_keys.x25519@)
                };
            assert(x25519_public(ik.x25519_secret@) == ik_a);
            assert(x25519_public(ek) == data.ephemeral_prekey@);
            let secret = responder_secret(ik_b, spk_b, opk_b, ik_a, data.ephemeral_prekey@);
            assert(secret == initiator_secret(
                ik.x25519_secret@,
                ek,
                bundle.identity_keys.x25519@,
                bundle.midterm_prekey@,
                bundle_prekey(bundle),
            ));
            assert(array_of(spec_kdf(secret + ik_a))@ == sess.sending_key@);
            assert(array_of(spec_kdf(secret + ik_a)) =~= sess.sending_key);
            assert(array_of(spec_kdf(secret + x25519_public(ik_b))) =~= sess.receiving_key);
        },
        _ => {},
    }
}

} // verus!
