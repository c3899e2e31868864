//! A TLS client connection: the state machine with its sender and receiver
//!
//! The network itself is outside: the connection takes the bytes read from it, and hands
//! out the bytes to write to it.

use vstd::prelude::*;

use crate::{
    primitives::unix_time_now,
    bytes::{bytes_to_vec, extend_bytes},
    tls::{
        connection::{
            decryption_state::DecryptionState,
            receiver::{application_records, decryption_keys, records_data, whole_records, Receiver},
            sender::{chunks, protected_records, Sender},
            state::{keys_wf, State},
        },
        error::{Error, InvalidMessage},
        msgs::{
            client_hello::{ConnectionConfig, RootCertificate, ServerName},
            Message,
        },
        record_layer::{parse_record, RecordView, CIPHERTEXT_FRAGMENT_MAX_LEN},
    },
};

verus! {

/// TLS Client configuration
#[derive(Debug, Clone)]
pub struct ClientConfig {
    /// The root CA certificates
    pub root_certificates: Vec<RootCertificate>,
}

impl ClientConfig {
    pub fn new(root_certificates: Vec<RootCertificate>) -> (r: Self)
        ensures
            r.root_certificates@ == root_certificates@,
    {
        ClientConfig { root_certificates }
    }
}

/// A TLS client connection
pub struct Connection {
    pub state: Result<State, Error>,
    pub config: ConnectionConfig,
    pub receiver: Receiver,
    pub sender: Sender,
}

impl Connection {
    /// Whether the parts of the connection fit together
    pub open spec fn wf(&self) -> bool {
        &&& self.receiver.wf()
        &&& keys_wf(&self.sender, &self.receiver.decryption_state)
        &&& self.state matches Ok(st) ==> st.wf()
    }

    /// Create a new TLS connection to a server
    pub fn new(config: ClientConfig, server_name: ServerName) -> (r: Self)
        ensures
            r.wf(),
            r.state matches Ok(State::Start),
            r.config.root_certificates@ == config.root_certificates@,
            r.config.server_name == server_name,
            r.sender.output_buffer@ == Seq::<u8>::empty(),
    {
        Connection {
            config: ConnectionConfig { root_certificates: config.root_certificates, server_name },
            state: Ok(State::Start),
            receiver: Receiver::new(),
            sender: Sender::new(),
        }
    }

    /// Start the TLS handshake: queue the ClientHello
    ///
    /// When the operating system gives no random bytes, nothing is queued and the
    /// connection stays at its start.
    pub fn start_handshake(&mut self) -> (r: Result<(), Error>)
        requires
            old(self).wf(),
        ensures
            final(self).wf(),
            old(self).state matches Err(e) ==> r == Err::<(), Error>(e),
            old(self).state matches Ok(State::Start) ==> (r is Ok && final(self).state matches Ok(
                State::WaitServerHello(_),
            )) || (r == Err::<(), Error>(Error::NoRandomness) && final(self).state == Ok::<
                State,
                Error,
            >(State::Start)),
            old(self).state matches Ok(st) && !(st is Start) ==> r == Err::<(), Error>(
                Error::InvalidState,
            ),
    {
        // Get the state and replace it with an error in case we try to use it
        let mut taken: Result<State, Error> = Err(Error::UnfinishedHandshake);
        core::mem::swap(&mut self.state, &mut taken);
        let st = match taken {
            Ok(s) => s,
            Err(e) => {
                // There was already an error
                self.state = Err(e);
                return Err(e);
            },
        };
        let next = match st.handshake(self.config.clone(), &mut self.sender) {
            Ok(n) => n,
            Err(Error::NoRandomness) => {
                // Nothing was sent: the handshake can be started again
                self.state = Ok(State::Start);
                return Err(Error::NoRandomness);
            },
            Err(e) => return Err(e),
        };
        self.state = Ok(next);
        Ok(())
    }

    /// The buffered TLS records to write to the network; they leave the connection
    pub fn take_output(&mut self) -> (r: Vec<u8>)
        ensures
            r@ == old(self).sender.output_buffer@,
            final(self).sender.output_buffer@ == Seq::<u8>::empty(),
            final(self).sender.encryption_state == old(self).sender.encryption_state,
            final(self).receiver == old(self).receiver,
            final(self).state == old(self).state,
            final(self).config == old(self).config,
    {
        let mut out: Vec<u8> = Vec::new();
        core::mem::swap(&mut self.sender.output_buffer, &mut out);
        out
    }

    /// Whether the bytes read from the network can be taken: record sequence numbers must
    /// not run out
    pub fn can_receive(&self, n: usize) -> (r: bool)
        requires
            self.wf(),
        ensures
            r == (self.receiver.decryption_state.sequence_number() + self.receiver.input_buffer@.len()
                + n < u64::MAX),
    {
        let seq = match &self.receiver.decryption_state {
            crate::tls::connection::decryption_state::DecryptionState::Enabled(k) => k.sequence_number,
            crate::tls::connection::decryption_state::DecryptionState::Disabled => 0,
        };
        let room = u64::MAX - seq;
        (self.receiver.input_buffer.len() as u64) < room && (n as u64) < room - (
        self.receiver.input_buffer.len() as u64)
    }

    /// Take bytes read from the network
    ///
    /// You should call [`process_new_packets`](Self::process_new_packets) to process
    /// the received packets afterwards
    pub fn receive_bytes(&mut self, bytes: &[u8])
        requires
            old(self).wf(),
            old(self).receiver.decryption_state.sequence_number() + old(
                self).receiver.input_buffer@.len() + bytes@.len() < u64::MAX,
        ensures
            final(self).wf(),
            final(self).receiver.input_buffer@ == old(self).receiver.input_buffer@ + bytes@,
    {
        extend_bytes(&mut self.receiver.input_buffer, bytes);
    }

    /// Returns `true` if the connection needs to read more data from the network
    pub fn wants_read(&self) -> (r: bool)
        ensures
            r == (self.receiver.input_buffer@.len() == 0),
    {
        self.receiver.input_buffer.len() == 0
    }

    /// Returns `true` when the connection needs to write data to the network
    pub fn wants_write(&self) -> (r: bool)
        ensures
            r == (self.sender.output_buffer@.len() != 0),
    {
        self.sender.output_buffer.len() != 0
    }

    /// Whether the handshake is still going on
    pub fn is_handshaking(&self) -> (r: bool)
        ensures
            r == (self.state matches Ok(st) && st.spec_is_handshaking()),
    {
        match &self.state {
            Ok(st) => st.is_handshaking(),
            Err(_) => false,
        }
    }

    /// Process the new packets left in the input buffer
    pub fn process_new_packets(&mut self) -> (r: Result<(), Error>)
        requires
            old(self).wf(),
        ensures
            r is Ok ==> final(self).wf(),
            old(self).state matches Err(e) ==> r == Err::<(), Error>(e),
            old(self).state is Ok && r is Err ==> final(self).state == Err::<State, Error>(
                Error::UnfinishedHandshake,
            ),
            r is Ok ==> final(self).receiver.input_buffer@ == old(self).receiver.input_buffer@.skip(
                old(self).receiver.input_buffer@.len() - final(self).receiver.input_buffer@.len(),
            ),
            old(self).receiver.data_buffer@.is_prefix_of(final(self).receiver.data_buffer@),
            old(self).state is Ok && parse_record(old(self).receiver.input_buffer@) == Ok::<
                Option<(RecordView, nat)>,
                InvalidMessage,
            >(None) ==> r is Ok && final(self).state == old(self).state && final(self).sender
                == old(self).sender && final(self).receiver.input_buffer@
                == old(self).receiver.input_buffer@ && final(self).receiver.data_buffer@
                == old(self).receiver.data_buffer@,
            r is Ok ==> (whole_records(old(self).receiver.input_buffer@) matches Some(recs) && exists|
                dss: Seq<DecryptionState>,
            |
                #![trigger records_data(dss, recs)]
                dss.len() == recs.len() && (dss.len() > 0 ==> dss[0]
                    == old(self).receiver.decryption_state) && final(self).receiver.data_buffer@
                    == old(self).receiver.data_buffer@ + records_data(dss, recs)),
            ({
                let recs = whole_records(old(self).receiver.input_buffer@)->0;
                let d = application_records(
                    decryption_keys(old(self).receiver.decryption_state),
                    old(self).receiver.decryption_state.sequence_number() as int,
                    recs,
                );
                old(self).state is Ok && old(self).receiver.hs_deframer.buffer@.len() == 0
                    && whole_records(old(self).receiver.input_buffer@) is Some && d is Some ==> r is Ok
                    && final(self).state == old(self).state && final(self).receiver.data_buffer@
                    == old(self).receiver.data_buffer@ + d->0
            }),
    {
        let now = unix_time_now();
        self.receiver.process_new_packets(&mut self.state, &mut self.sender, now)
    }

    /// Take up to `max` bytes of the application data received
    pub fn read(&mut self, max: usize) -> (r: Vec<u8>)
        ensures
            r@ == old(self).receiver.data_buffer@.take(
                if max < old(self).receiver.data_buffer@.len() {
                    max as int
                } else {
                    old(self).receiver.data_buffer@.len() as int
                },
            ),
            final(self).receiver.data_buffer@ == old(self).receiver.data_buffer@.skip(r@.len() as int),
            final(self).receiver.input_buffer == old(self).receiver.input_buffer,
            final(self).receiver.decryption_state == old(self).receiver.decryption_state,
            final(self).sender == old(self).sender,
            final(self).state == old(self).state,
    {
        let n = if max < self.receiver.data_buffer.len() {
            max
        } else {
            self.receiver.data_buffer.len()
        };
        let out = bytes_to_vec(&self.receiver.data_buffer[0..n]);
        let rest = bytes_to_vec(&self.receiver.data_buffer[n..self.receiver.data_buffer.len()]);
        self.receiver.data_buffer = rest;
        out
    }

    /// Queue application data to send; the handshake must be done, so that it is protected
    pub fn write(&mut self, data: &[u8]) -> (r: Result<(), Error>)
        requires
            old(self).wf(),
        ensures
            final(self).wf(),
            !(old(self).state matches Ok(State::Connected(_))) ==> r == Err::<(), Error>(
                Error::InvalidState,
            ) && final(self).sender == old(self).sender,
            old(self).state matches Ok(State::Connected(_)) && old(self).sender.encryption_state is Enabled
                ==> r is Ok,
            // the data goes out as protected application_data records, in order
            old(self).state matches Ok(State::Connected(_)) && old(self).sender.encryption_state is Enabled
                && !old(self).sender.encryption_state.spec_needs_rekey() ==> ({
                let st = old(self).sender.encryption_state;
                final(self).sender.output_buffer@ == old(self).sender.output_buffer@
                    + protected_records(
                    st,
                    st.sequence_number() as nat,
                    23,
                    chunks(data@, (CIPHERTEXT_FRAGMENT_MAX_LEN - st.spec_overhead()) as nat),
                )
            }),
    {
        match &self.state {
            Ok(State::Connected(_)) => {},
            _ => return Err(Error::InvalidState),
        }
        if !self.sender.encryption_state.enabled() {
            return Err(Error::InvalidState);
        }
        self.sender.send(Message::ApplicationData(bytes_to_vec(data)));
        Ok(())
    }
}

} // verus!
