//! What the client handle of the asynchronous mode decides
//!
//! The handle sends requests through the sending worker and waits for their responses;
//! each step here takes a response and says what follows from it.

use vstd::prelude::*;

use crate::{
    bytes::bytes_to_vec,
    e2e::{
        client::{
            client::check_handle_response,
            error::{spec_error_of_code, Error, Result},
            session::E2ESession,
            state::{message_prepared, E2EClientState},
            x3dh::prepared_open_session,
        },
        keys::storage_backend::E2EStorageBackend,
        message::{
            encrypted_payload::{payload_bytes, PayloadMessageView},
            E2EMessage, E2EPacket, PreKeyBundle,
        },
        peer::{Peer, PeerView},
    },
    primitives::sha256,
};

verus! {

/// The profile of a user: its id and username
#[derive(Debug, Clone)]
pub struct UserProfile {
    pub id: u128,
    pub username: String,
}

/// What sending a message to a user starts with
#[derive(Debug, Clone)]
pub enum SendAction {
    /// A session is open: send this packet
    Send(E2EPacket),
    /// No session is open yet: request the prekey bundle of the user with this message
    RequestBundle(E2EMessage),
}

/// The profile of a known peer, when its username is known
pub fn known_profile(peer: Option<Peer>) -> (r: Option<UserProfile>)
    ensures
        peer is Some && peer->0.username is Some ==> (r matches Some(u) && u.id == peer->0.id
            && u.username@ == peer->0.username->0@),
        !(peer is Some && peer->0.username is Some) ==> r is None,
{
    match peer {
        Some(p) => match p.username {
            Some(username) => Some(UserProfile { id: p.id, username }),
            None => None,
        },
        None => None,
    }
}

/// The profile of the server's response to a profile request
pub fn profile_from_response(resp: E2EMessage) -> (r: Result<UserProfile>)
    ensures
        resp matches E2EMessage::UserProfile { id, username } ==> (r matches Ok(u) && u.id == id
            && u.username@ == username@),
        resp matches E2EMessage::Error { code } ==> (r matches Err(e) && e == spec_error_of_code(
            code,
        )),
        !(resp is UserProfile) && !(resp is Error) ==> (r matches Err(
            Error::UnexpectedE2EMessage(m),
        ) && m == resp),
{
    match check_handle_response(resp) {
        Ok(E2EMessage::UserProfile { id, username }) => Ok(UserProfile { id, username }),
        Ok(m) => Err(Error::UnexpectedE2EMessage(m)),
        Err(e) => Err(e),
    }
}

/// The peer to save for a profile fetched from the server: its id and username, and no
/// fingerprint yet
pub fn peer_of_profile(profile: &UserProfile) -> (r: Peer)
    ensures
        r@ == (PeerView {
            id: profile.id,
            username: Some(profile.username@),
            fingerprint: None,
        }),
{
    Peer { id: profile.id, username: Some(profile.username.clone()), fingerprint: None }
}

/// The peer a storage knows under the id `to`, or a peer with only that id
pub open spec fn known_peer_of(stored: Option<PeerView>, to: u128) -> PeerView {
    match stored {
        Some(p) => p,
        None => PeerView { id: to, username: None, fingerprint: None },
    }
}

/// The known peer, or a peer with only the id `to`
pub open spec fn known_peer(stored: Option<Peer>, to: u128) -> PeerView {
    match stored {
        Some(p) => p@,
        None => PeerView { id: to, username: None, fingerprint: None },
    }
}

/// Compare the fingerprint of the keys of a bundle with the one known for the peer
///
/// A peer with no known fingerprint gets this one, and is returned to be saved; a known
/// fingerprint must be the same.
pub fn check_fingerprint(stored: Option<Peer>, to: u128, bundle: &PreKeyBundle) -> (r: Result<
    Option<Peer>,
>)
    ensures
        known_peer(stored, to).fingerprint is None ==> (r matches Ok(Some(p)) && p@ == PeerView {
            fingerprint: Some(sha256(bundle.identity_keys.spec_bytes())),
            ..known_peer(stored, to)
        }),
        known_peer(stored, to).fingerprint == Some(sha256(bundle.identity_keys.spec_bytes()))
            ==> r matches Ok(None),
        known_peer(stored, to).fingerprint is Some && known_peer(stored, to).fingerprint != Some(
            sha256(bundle.identity_keys.spec_bytes()),
        ) ==> (r matches Err(Error::FingerprintMismatch(p, n)) && p@ == known_peer(stored, to)
            && n@ == sha256(bundle.identity_keys.spec_bytes())),
{
    let peer_fingerprint = bundle.identity_keys.fingerprint();
    let mut peer = match stored {
        Some(p) => p,
        None => Peer::default(to),
    };
    match &peer.fingerprint {
        Some(fp) => {
            if crate::bytes::bytes_eq(fp.as_slice(), peer_fingerprint.as_slice()) {
                Ok(None)
            } else {
                let mismatched = bytes_to_vec(peer_fingerprint.as_slice());
                Err(Error::FingerprintMismatch(peer, mismatched))
            }
        },
        None => {
            peer.fingerprint = Some(bytes_to_vec(peer_fingerprint.as_slice()));
            Ok(Some(peer))
        },
    }
}

/// Start sending a serialized chat message to a user: encrypt it with the open session, or
/// ask for the user's prekey bundle when no session is open
pub fn begin_send<S: E2EStorageBackend>(
    state: &mut E2EClientState<S>,
    to: u128,
    message: Vec<u8>,
) -> (r: Result<SendAction>)
    requires
        old(state).inv(),
    ensures
        final(state).inv(),
        final(state).account == old(state).account,
        !old(state).sessions@.contains_key(to) ==> (r matches Ok(
            SendAction::RequestBundle(E2EMessage::PreKeyBundleRequest { token, id }),
        ) && token@ == old(state).account.token@ && id == to && final(state).sessions@ == old(
            state,
        ).sessions@ && final(state).storage == old(state).storage),
        old(state).sessions@.contains_key(to) ==> !(r matches Ok(SendAction::RequestBundle(_))),
        old(state).sessions@.contains_key(to) ==> message_prepared(
            *old(state),
            *final(state),
            to,
            message@,
            match r {
                Ok(SendAction::Send(p)) => Ok(p.message),
                Ok(SendAction::RequestBundle(m)) => Ok(m),
                Err(e) => Err(e),
            },
        ),
        r matches Ok(SendAction::Send(p)) ==> p.request_id == 0,
{
    match state.prepare_message(to, message) {
        Ok(m) => Ok(SendAction::Send(E2EPacket::untagged(m))),
        Err(Error::NoSession(_)) => Ok(
            SendAction::RequestBundle(
                E2EMessage::PreKeyBundleRequest { token: state.account.token.clone(), id: to },
            ),
        ),
        Err(e) => Err(e),
    }
}

/// Continue sending a message to a user with no open session, from the server's response
/// to the bundle request: check the fingerprint of the user's keys, and prepare the message
/// that opens the session
///
/// Returns the peer to save when its fingerprint was unknown, the message to send, and the
/// session to keep once the server acknowledged it.
pub fn open_session_from_bundle<S: E2EStorageBackend>(
    state: &mut E2EClientState<S>,
    to: u128,
    resp: E2EMessage,
    message: Vec<u8>,
) -> (r: Result<(Option<Peer>, E2EMessage, E2ESession)>)
    requires
        old(state).inv(),
    ensures
        final(state).inv(),
        final(state).account == old(state).account,
        final(state).sessions@ == old(state).sessions@,
        final(state).storage == old(state).storage,
        !(resp is PreKeyBundle) ==> r is Err,
        resp matches E2EMessage::Error { code } ==> (r matches Err(e) && e == spec_error_of_code(
            code,
        )),
        !(resp is PreKeyBundle) && !(resp is Error) ==> (r matches Err(
            Error::UnexpectedE2EMessage(m),
        ) && m == resp),
        resp matches E2EMessage::PreKeyBundle(b) ==> ({
            let known = known_peer_of(old(state).storage.model().peers.get(to), to);
            let fp = sha256(b.identity_keys.spec_bytes());
            &&& known.fingerprint is Some && known.fingerprint != Some(fp) ==> r is Err
            &&& known.fingerprint is Some && known.fingerprint != Some(fp) && !(r matches Err(
                Error::StorageBackendError(_),
            )) ==> (r matches Err(Error::FingerprintMismatch(p, n)) && p@ == known && n@ == fp)
            &&& S::never_fails() && known.fingerprint is Some && known.fingerprint != Some(fp) ==> (
            r matches Err(Error::FingerprintMismatch(p, n)) && p@ == known && n@ == fp)
            &&& S::never_fails() && (known.fingerprint is None || known.fingerprint == Some(fp))
                && old(state).storage.model().identity_keypair is Some && payload_bytes(
                PayloadMessageView::ChatMessage(message@),
            ).len() < 64 * 0xffff_ffffnat ==> r is Ok
            &&& r matches Ok((to_save, msg, sess)) ==> ({
                &&& old(state).storage.model().identity_keypair matches Some(ik)
                    && prepared_open_session(
                    ik,
                    b,
                    to,
                    old(state).account.token@,
                    message@,
                    msg,
                    sess,
                )
                &&& known.fingerprint is None ==> (to_save matches Some(p) && p@ == PeerView {
                    fingerprint: Some(fp),
                    ..known
                })
                &&& known.fingerprint is Some ==> to_save is None
            })
        }),
{
    let bundle = match check_handle_response(resp) {
        Ok(E2EMessage::PreKeyBundle(bundle)) => bundle,
        Ok(m) => return Err(Error::UnexpectedE2EMessage(m)),
        Err(e) => return Err(e),
    };
    let stored = match state.storage.peer(to) {
        Ok(p) => p,
        Err(e) => return Err(Error::StorageBackendError(e)),
    };
    let to_save = match check_fingerprint(stored, to, &bundle) {
        Ok(p) => p,
        Err(e) => return Err(e),
    };
    match state.prepare_open_new_session(to, bundle, message) {
        Ok((msg, sess)) => {
            Ok((to_save, msg, sess))
        },
        Err(e) => Err(e),
    }
}

/// Finish opening a session: once the server acknowledged the opening message, keep the
/// session
pub fn finish_open_session<S: E2EStorageBackend>(
    state: &mut E2EClientState<S>,
    resp: E2EMessage,
    session: E2ESession,
) -> (r: Result<()>)
    requires
        old(state).inv(),
    ensures
        final(state).inv(),
        final(state).account == old(state).account,
        !(resp is Okay) ==> r is Err && final(state).sessions@ == old(state).sessions@
            && final(state).storage == old(state).storage,
        r is Ok ==> resp is Okay && final(state).sessions@ == old(state).sessions@.insert(
            session.correspondant_id,
            session,
        ),
        resp matches E2EMessage::Error { code } ==> (r matches Err(e) && e == spec_error_of_code(
            code,
        )),
        !(resp is Okay) && !(resp is Error) ==> (r matches Err(Error::UnexpectedE2EMessage(m))
            && m == resp),
        resp is Okay ==> (r matches Err(e) ==> e is StorageBackendError),
        resp is Okay && S::never_fails() ==> r is Ok,
        resp is Okay && r is Ok ==> final(state).storage.model().sessions == old(
            state,
        ).storage.model().sessions.insert(session.correspondant_id, session),
{
    match check_handle_response(resp) {
        Ok(E2EMessage::Okay) => {},
        Ok(m) => return Err(Error::UnexpectedE2EMessage(m)),
        Err(e) => return Err(e),
    }
    state.update_session(session)
}

} // verus!
