//! Receives, decrypts and defragments TLS records

use vstd::prelude::*;

use crate::{
    bytes::{bytes_to_vec, extend_bytes},
    tls::{
        connection::{
            decryption_state::{opened_record, DecryptionState},
            sender::Sender,
            state::{event_well_formed, keys_wf, ReceiveEvent, State},
        },
        enums::{ContentType, ContentTypeName},
        error::{Error, InvalidMessage},
        msgs::{
            handshake::lemma_parse_handshake_no_selected_group, parse_message, Message,
            MessageView,
        },
        reader::Reader,
        record_layer::{
            handshake_deframer::{partial_message, whole_messages, HandshakeDeframer}, next_record, parse_record, Record, RecordView,
        },
    },
};

verus! {

/// The message a record carries, read with the decryption state `ds`
pub open spec fn record_message(ds: DecryptionState, rec: RecordView) -> Result<MessageView, Error> {
    match ds {
        DecryptionState::Enabled(k) => opened_record(k.key@, k.iv@, k.sequence_number, rec),
        DecryptionState::Disabled => match parse_message(rec.payload, ContentType(rec.typ)) {
            Ok(m) => Ok(m),
            Err(e) => Err(Error::InvalidMessage(e)),
        },
    }
}

/// The application data a record carries, read with the decryption state `ds`
pub open spec fn record_data(ds: DecryptionState, rec: RecordView) -> Seq<u8> {
    match record_message(ds, rec) {
        Ok(MessageView::ApplicationData(b)) => b,
        _ => Seq::empty(),
    }
}

/// The application data of records, each read with its decryption state
pub open spec fn records_data(dss: Seq<DecryptionState>, recs: Seq<RecordView>) -> Seq<u8>
    decreases recs.len(),
{
    if recs.len() == 0 || dss.len() == 0 {
        Seq::empty()
    } else {
        records_data(dss.drop_last(), recs.drop_last()) + record_data(dss.last(), recs.last())
    }
}

/// The whole records at the start of `s`, in order, or `None` when a record header
/// announces a fragment too long for a record
pub open spec fn whole_records(s: Seq<u8>) -> Option<Seq<RecordView>>
    decreases s.len(),
{
    match parse_record(s) {
        Ok(Some((rec, n))) => if 0 < n <= s.len() {
            match whole_records(s.skip(n as int)) {
                Some(rest) => Some(seq![rec] + rest),
                None => None,
            }
        } else {
            None
        },
        Ok(None) => Some(Seq::empty()),
        Err(_) => None,
    }
}

/// The application data of records that each carry application data, read in order
/// starting with the keys `keys` (none when decryption is disabled) at record number
/// `seq`; `None` when one of them carries anything else
pub open spec fn application_records(
    keys: Option<(Seq<u8>, Seq<u8>)>,
    seq: int,
    recs: Seq<RecordView>,
) -> Option<Seq<u8>>
    decreases recs.len(),
{
    if recs.len() == 0 {
        Some(Seq::empty())
    } else {
        let m = match keys {
            Some((key, iv)) => opened_record(key, iv, seq as u64, recs[0]),
            None => match parse_message(recs[0].payload, ContentType(recs[0].typ)) {
                Ok(m) => Ok(m),
                Err(e) => Err(Error::InvalidMessage(e)),
            },
        };
        let next = if keys is Some { seq + 1 } else { seq };
        match m {
            Ok(MessageView::ApplicationData(b)) => match application_records(
                keys,
                next,
                recs.drop_first(),
            ) {
                Some(rest) => Some(b + rest),
                None => None,
            },
            _ => None,
        }
    }
}

/// The keys of a decryption state, when it is enabled
pub open spec fn decryption_keys(ds: DecryptionState) -> Option<(Seq<u8>, Seq<u8>)> {
    match ds {
        DecryptionState::Enabled(k) => Some((k.key@, k.iv@)),
        DecryptionState::Disabled => None,
    }
}

/// Receives, decrypts and defragments TLS records
#[derive(Debug)]
pub struct Receiver {
    /// Bytes received from the network and not yet processed
    pub input_buffer: Vec<u8>,
    /// Application data received
    pub data_buffer: Vec<u8>,
    pub decryption_state: DecryptionState,
    pub hs_deframer: HandshakeDeframer,
}

impl Receiver {
    pub fn new() -> (r: Self)
        ensures
            r.input_buffer@ == Seq::<u8>::empty(),
            r.data_buffer@ == Seq::<u8>::empty(),
            r.decryption_state is Disabled,
            r.hs_deframer.buffer@ == Seq::<u8>::empty(),
    {
        Receiver {
            input_buffer: Vec::new(),
            data_buffer: Vec::new(),
            decryption_state: DecryptionState::new(),
            hs_deframer: HandshakeDeframer::new(),
        }
    }

    /// Set the new Secret to use for traffic key calculation
    ///
    /// This recomputes the traffic keys and enables decryption if it was not enabled
    pub fn set_new_traffic_secret(&mut self, secret: &[u8])
        requires
            secret@.len() == 32,
        ensures
            final(self).decryption_state.wf(),
            final(self).decryption_state matches DecryptionState::Enabled(k) && k.secret@ == secret@
                && k.sequence_number == 0,
            final(self).input_buffer@ == old(self).input_buffer@,
            final(self).data_buffer@ == old(self).data_buffer@,
            final(self).hs_deframer.buffer@ == old(self).hs_deframer.buffer@,
    {
        self.decryption_state.set_new_traffic_secret(secret);
    }

    /// Update the traffic secret and compute the new keys
    pub fn perform_key_update(&mut self)
        requires
            old(self).decryption_state.wf(),
        ensures
            final(self).decryption_state.wf(),
            old(self).decryption_state is Disabled ==> final(self).decryption_state is Disabled,
            old(self).decryption_state matches DecryptionState::Enabled(k) ==> (
            final(self).decryption_state matches DecryptionState::Enabled(n) && n.secret@
                == crate::tls::connection::traffic_keys::next_traffic_secret(k.secret@)
                && n.sequence_number == 0),
            final(self).input_buffer@ == old(self).input_buffer@,
            final(self).data_buffer@ == old(self).data_buffer@,
            final(self).hs_deframer.buffer@ == old(self).hs_deframer.buffer@,
    {
        self.decryption_state.perform_key_update();
    }

    /// Process one whole record: decrypt it when decryption is enabled, keep its
    /// application data, and hand its change_cipher_spec, alert and whole handshake
    /// messages to the state machine in state `st`; returns the new state
    ///
    /// A change_cipher_spec record the state accepts is dropped. A record of application
    /// data goes straight to the data, and the state stays the same.
    #[verifier::rlimit(100)]
    #[verifier::spinoff_prover]
    pub fn process_record(
        &mut self,
        st: State,
        sender: &mut Sender,
        record: Record,
        now: Option<u64>,
    ) -> (r: Result<State, Error>)
        requires
            old(self).decryption_state.sequence_number() < u64::MAX,
            keys_wf(&*old(sender), &old(self).decryption_state),
            st.wf(),
            record.payload@.len() <= 0xffff,
        ensures
            keys_wf(&*final(sender), &final(self).decryption_state),
            final(self).decryption_state.sequence_number() <= old(
                self,
            ).decryption_state.sequence_number() + 1,
            final(self).input_buffer@ == old(self).input_buffer@,
            r matches Ok(s) ==> s.wf(),
            r is Ok ==> final(self).data_buffer@ == old(self).data_buffer@ + record_data(
                old(self).decryption_state,
                record@,
            ),
            old(self).data_buffer@.is_prefix_of(final(self).data_buffer@),
            // handshake messages are not interleaved with other records
            old(self).hs_deframer.buffer@.len() > 0 && record.typ.0 != 20 && (record_message(
                old(self).decryption_state,
                record@,
            ) matches Ok(m) && !(m is HandshakeData) && !(m is Handshake)) ==> r == Err::<State, Error>(
                Error::InvalidMessage(InvalidMessage::UnexpectedMessage),
            ),
            // application data goes straight through
            old(self).hs_deframer.buffer@.len() == 0 && record_message(
                old(self).decryption_state,
                record@,
            ) is Ok && record_message(old(self).decryption_state, record@)->Ok_0 is ApplicationData
                ==> {
                &&& r == Ok::<State, Error>(st)
                &&& *final(sender) == *old(sender)
                &&& final(self).hs_deframer.buffer@.len() == 0
                &&& decryption_keys(final(self).decryption_state) == decryption_keys(
                    old(self).decryption_state,
                )
                &&& final(self).decryption_state.sequence_number() == if old(
                    self,
                ).decryption_state is Enabled {
                    old(self).decryption_state.sequence_number() + 1
                } else {
                    0
                }
            },
    {
        let mut st = st;
        // Discard change_cipher_spec messages if we need to
        match st.discard_ccs(&record) {
            Ok(true) => {
                assert(record_data(self.decryption_state, record@) =~= Seq::<u8>::empty());
                assert(self.data_buffer@ =~= self.data_buffer@ + Seq::<u8>::empty());
                return Ok(st);
            },
            Ok(false) => {},
            Err(e) => return Err(e),
        }
        let ghost ds0 = self.decryption_state;
        // Decrypt the payload if necessary
        let msg = if self.decryption_state.enabled() {
            match self.decryption_state.decrypt(record) {
                Ok(m) => m,
                Err(e) => return Err(e),
            }
        } else {
            let mut reader = Reader::new(record.payload.as_slice());
            match Message::decode(&mut reader, record.typ) {
                Ok(m) => m,
                Err(e) => return Err(Error::InvalidMessage(e)),
            }
        };
        assert(record_message(ds0, record@) == Ok::<MessageView, Error>(msg@));
        // "Handshake messages MUST NOT be interleaved with other record types"
        if !self.hs_deframer.is_aligned() && msg.content_type() != ContentTypeName::Handshake {
            return Err(Error::InvalidMessage(InvalidMessage::UnexpectedMessage));
        }
        let ghost data0 = self.data_buffer@;
        // Decide what we do with the message
        let event = match msg {
            Message::ApplicationData(bytes) => {
                extend_bytes(&mut self.data_buffer, bytes.as_slice());
                assert(data0.is_prefix_of(self.data_buffer@)) by {
                    assert(self.data_buffer@.take(data0.len() as int) =~= data0);
                }
                None
            },
            Message::HandshakeData(bytes) => {
                self.hs_deframer.add(bytes);
                assert(self.data_buffer@ =~= data0 + Seq::<u8>::empty());
                None
            },
            Message::Handshake { .. } => {
                // decoding never defragments handshakes
                assert(false);
                None
            },
            Message::ChangeCipherSpec => {
                assert(self.data_buffer@ =~= data0 + Seq::<u8>::empty());
                Some(ReceiveEvent::ChangeCipherSpec)
            },
            Message::Alert => {
                assert(self.data_buffer@ =~= data0 + Seq::<u8>::empty());
                Some(ReceiveEvent::Alert)
            },
        };
        let ghost data1 = self.data_buffer@;
        proof {
            if self.hs_deframer.buffer@.len() == 0 {
                assert(whole_messages(self.hs_deframer.buffer@).len() == 0);
                assert(partial_message(self.hs_deframer.buffer@) == self.hs_deframer.buffer@);
            }
        }
        let decoded = match self.hs_deframer.decoded() {
            Ok(d) => d,
            Err(e) => return Err(Error::InvalidMessage(e)),
        };
        // Handle the immediate event if we have one
        match event {
            Some(evt) => {
                st = match st.handle(evt, sender, &mut self.decryption_state, now) {
                    Ok(s) => s,
                    Err(e) => return Err(e),
                };
            },
            None => {},
        }
        let ghost sender1 = *sender;
        let ghost ds1 = self.decryption_state;
        let ghost st1 = st;
        let ghost buf1 = self.hs_deframer.buffer@;
        // Handle the defragmented handshakes
        let mut decoded = decoded;
        let ghost all = decoded@;
        let mut i: usize = 0;
        let count = decoded.len();
        while i < count
            invariant
                count == all.len(),
                i <= all.len(),
                decoded@ == all.skip(i as int),
                st.wf(),
                keys_wf(&*sender, &self.decryption_state),
                self.decryption_state.sequence_number() <= ds0.sequence_number() + 1,
                self.data_buffer@ == data1,
                self.input_buffer@ == old(self).input_buffer@,
                all.len() == 0 ==> *sender == sender1 && self.decryption_state == ds1 && st == st1,
                self.hs_deframer.buffer@ == buf1,
                old(self).data_buffer@.is_prefix_of(data1),
                old(self).hs_deframer.buffer@.len() == 0 && (record_message(
                    old(self).decryption_state,
                    record@,
                ) matches Ok(MessageView::ApplicationData(_))) ==> all.len() == 0,
                !(old(self).hs_deframer.buffer@.len() > 0 && record.typ.0 != 20 && (record_message(
                    old(self).decryption_state,
                    record@,
                ) matches Ok(m) && !(m is HandshakeData) && !(m is Handshake))),
                ds0.sequence_number() == old(self).decryption_state.sequence_number(),
                forall|j: int|
                    0 <= j < all.len() ==> (crate::tls::msgs::handshake::parse_handshake(
                        (#[trigger] all[j]).1@,
                    ) matches Ok((h, _)) && all[j].0@ == h),
            decreases all.len() - i,
        {
            let (handshake, bytes) = decoded.remove(0);
            assert(decoded@ =~= all.skip(i + 1));
            proof {
                lemma_parse_handshake_no_selected_group(bytes@);
            }
            let evt = ReceiveEvent::Handshake { handshake, bytes };
            st = match st.handle(evt, sender, &mut self.decryption_state, now) {
                Ok(s) => s,
                Err(e) => return Err(e),
            };
            i = i + 1;
        }
        Ok(st)
    }

    /// Whether the receiver can use its keys, and its records fit the sequence numbers
    pub open spec fn wf(&self) -> bool {
        &&& self.decryption_state.wf()
        &&& self.decryption_state.sequence_number() + self.input_buffer@.len() < u64::MAX
    }

    /// Process the records we received in `input_buffer`: decrypt them when decryption is
    /// enabled, keep their application data, and hand their change_cipher_spec, alert and
    /// whole handshake messages to the state machine
    ///
    /// What is left of the input is the start of a record that is not whole yet. On an
    /// error, the state becomes [`Error::UnfinishedHandshake`].
    #[verifier::rlimit(100)]
    #[verifier::spinoff_prover]
    #[verifier::loop_isolation(false)]
    pub fn process_new_packets(
        &mut self,
        state: &mut Result<State, Error>,
        sender: &mut Sender,
        now: Option<u64>,
    ) -> (r: Result<(), Error>)
        requires
            old(self).wf(),
            keys_wf(&*old(sender), &old(self).decryption_state),
            *old(state) matches Ok(st) ==> st.wf(),
        ensures
            keys_wf(&*final(sender), &final(self).decryption_state),
            *old(state) matches Err(e) ==> r == Err::<(), Error>(e) && *final(state) == *old(state)
                && *final(self) == *old(self) && *final(sender) == *old(sender),
            *old(state) is Ok && r is Err ==> *final(state) == Err::<State, Error>(
                Error::UnfinishedHandshake,
            ),
            r is Ok ==> {
                &&& final(self).wf()
                &&& *final(state) matches Ok(st) && st.wf()
                &&& final(self).input_buffer@.len() <= old(self).input_buffer@.len()
                &&& final(self).input_buffer@ == old(self).input_buffer@.skip(
                    old(self).input_buffer@.len() - final(self).input_buffer@.len(),
                )
                &&& parse_record(final(self).input_buffer@) == Ok::<
                    Option<(crate::tls::record_layer::RecordView, nat)>,
                    InvalidMessage,
                >(None)
            },
            old(self).data_buffer@.is_prefix_of(final(self).data_buffer@),
            // input without a whole record is kept for later, and nothing else changes
            *old(state) is Ok && parse_record(old(self).input_buffer@) == Ok::<
                Option<(crate::tls::record_layer::RecordView, nat)>,
                InvalidMessage,
            >(None) ==> {
                &&& r is Ok
                &&& *final(state) == *old(state)
                &&& *final(sender) == *old(sender)
                &&& final(self).input_buffer@ == old(self).input_buffer@
                &&& final(self).data_buffer@ == old(self).data_buffer@
                &&& final(self).decryption_state == old(self).decryption_state
                &&& final(self).hs_deframer == old(self).hs_deframer
            },
            // handshake messages are not interleaved with other records
            ({
                let recs = whole_records(old(self).input_buffer@)->0;
                *old(state) is Ok && old(self).hs_deframer.buffer@.len() > 0 && whole_records(
                    old(self).input_buffer@,
                ) is Some && recs.len() > 0 && recs[0].typ != 20 && (record_message(
                    old(self).decryption_state,
                    recs[0],
                ) matches Ok(m) && !(m is HandshakeData) && !(m is Handshake)) ==> r == Err::<
                    (),
                    Error,
                >(Error::InvalidMessage(InvalidMessage::UnexpectedMessage)) && *final(state)
                    == Err::<State, Error>(Error::UnfinishedHandshake)
            }),
            // every whole record was processed, in order, and its application data kept
            r is Ok ==> (whole_records(old(self).input_buffer@) matches Some(recs) && exists|
                dss: Seq<DecryptionState>,
            |
                #![trigger records_data(dss, recs)]
                dss.len() == recs.len() && (dss.len() > 0 ==> dss[0] == old(self).decryption_state)
                    && final(self).data_buffer@ == old(self).data_buffer@ + records_data(dss, recs)),
            // records that all carry application data are accepted, whatever the state
            ({
                let recs = whole_records(old(self).input_buffer@)->0;
                let d = application_records(
                    decryption_keys(old(self).decryption_state),
                    old(self).decryption_state.sequence_number() as int,
                    recs,
                );
                *old(state) is Ok && old(self).hs_deframer.buffer@.len() == 0 && whole_records(
                    old(self).input_buffer@,
                ) is Some && d is Some ==> r is Ok && *final(state) == *old(state)
                    && final(self).data_buffer@ == old(self).data_buffer@ + d->0
                    && final(self).hs_deframer.buffer@.len() == 0
            }),
    {
        // Get the state of the state machine
        let mut taken: Result<State, Error> = Err(Error::UnfinishedHandshake);
        core::mem::swap(state, &mut taken);
        let mut st = match taken {
            Ok(s) => s,
            Err(err) => {
                *state = Err(err.clone());
                return Err(err);
            },
        };
        // Take ownership of the input buffer: if we exit with an error, the connection is
        // terminated anyway
        let ghost self0 = *self;
        let mut input: Vec<u8> = Vec::new();
        core::mem::swap(&mut self.input_buffer, &mut input);
        let ghost data0 = self.data_buffer@;
        let ghost st0 = st;
        let ghost sender0 = *sender;
        let ghost nothing_whole = parse_record(input@) == Ok::<
            Option<(RecordView, nat)>,
            InvalidMessage,
        >(None);
        // Whether all the whole records carry application data, with no handshake pending
        let ghost all_data = application_records(
            decryption_keys(self0.decryption_state),
            self0.decryption_state.sequence_number() as int,
            whole_records(input@)->0,
        );
        let ghost only_data = whole_records(input@) is Some && self0.hs_deframer.buffer@.len()
            == 0 && all_data is Some;
        // Whether the first record is refused as interleaved with a partial handshake
        let ghost interleaved = {
            let first = whole_records(input@)->0;
            self0.hs_deframer.buffer@.len() > 0 && whole_records(input@) is Some && first.len() > 0
                && first[0].typ != 20 && (record_message(self0.decryption_state, first[0]) matches Ok(
                m,
            ) && !(m is HandshakeData) && !(m is Handshake))
        };
        // The records processed, and the decryption state each was read with
        let ghost mut recs: Seq<RecordView> = Seq::empty();
        let ghost mut dss: Seq<DecryptionState> = Seq::empty();
        let mut pos: usize = 0;
        let mut done = false;
        assert(input@.skip(0) =~= input@);
        assert(data0 + records_data(dss, recs) =~= data0);
        while !done
            invariant
                pos <= input@.len(),
                st.wf(),
                keys_wf(&*sender, &self.decryption_state),
                self.decryption_state.sequence_number() + (input@.len() - pos) < u64::MAX,
                data0.is_prefix_of(self.data_buffer@),
                *state == Err::<State, Error>(Error::UnfinishedHandshake),
                done ==> parse_record(input@.skip(pos as int)) == Ok::<
                    Option<(RecordView, nat)>,
                    InvalidMessage,
                >(None),
                nothing_whole ==> {
                    &&& pos == 0
                    &&& st == st0
                    &&& *sender == sender0
                    &&& self.data_buffer == self0.data_buffer
                    &&& self.decryption_state == self0.decryption_state
                    &&& self.hs_deframer == self0.hs_deframer
                },
                whole_records(input@) is Some <==> whole_records(input@.skip(pos as int)) is Some,
                whole_records(input@.skip(pos as int)) matches Some(rest) ==> whole_records(
                    input@,
                ) == Some(recs + rest),
                dss.len() == recs.len(),
                dss.len() > 0 ==> dss[0] == self0.decryption_state,
                recs.len() == 0 ==> self.decryption_state == self0.decryption_state,
                recs.len() == 0 ==> pos == 0 && self.hs_deframer == self0.hs_deframer,
                interleaved ==> recs.len() == 0,
                self.data_buffer@ == data0 + records_data(dss, recs),
                only_data ==> {
                    &&& st == st0
                    &&& self.hs_deframer.buffer@.len() == 0
                    &&& whole_records(input@.skip(pos as int)) is Some
                    &&& application_records(
                        decryption_keys(self.decryption_state),
                        self.decryption_state.sequence_number() as int,
                        whole_records(input@.skip(pos as int))->0,
                    ) matches Some(d_rest)
                    &&& data0 + all_data->0 == self.data_buffer@ + d_rest
                },
            decreases input@.len() - pos, if done { 0int } else { 1int },
        {
            let rest = &input[pos..input.len()];
            assert(rest@ =~= input@.skip(pos as int));
            proof {
                if nothing_whole {
                    assert(input@.skip(0) =~= input@);
                }
            }
            let (record, n) = match next_record(rest) {
                Ok(None) => {
                    done = true;
                    continue;
                },
                Ok(Some(rn)) => rn,
                Err(e) => return Err(Error::InvalidMessage(e)),
            };
            assert(!nothing_whole);
            let ghost ds = self.decryption_state;
            let ghost data_before = self.data_buffer@;
            let ghost tail = input@.skip(pos as int);
            proof {
                assert(tail.skip(n as int) =~= input@.skip(pos + n));
                if whole_records(tail) is Some {
                    assert(whole_records(tail) == Some(seq![record@] + whole_records(tail.skip(n as int))->0));
                }
                if only_data {
                    let rest_recs = whole_records(tail.skip(n as int))->0;
                    assert(whole_records(tail)->0.drop_first() =~= rest_recs);
                    assert(whole_records(tail)->0[0] == record@);
                }
            }
            pos = pos + n;
            st = match self.process_record(st, sender, record, now) {
                Ok(s) => s,
                Err(e) => return Err(e),
            };
            proof {
                let r2 = recs.push(record@);
                let d2 = dss.push(ds);
                assert(r2.drop_last() =~= recs);
                assert(d2.drop_last() =~= dss);
                assert(records_data(d2, r2) == records_data(dss, recs) + record_data(ds, record@));
                assert(self.data_buffer@ =~= data0 + records_data(d2, r2));
                if whole_records(input@.skip(pos as int)) is Some {
                    assert(recs + whole_records(tail)->0 =~= r2 + whole_records(input@.skip(pos as int))->0);
                }
                if only_data {
                    let b = record_data(ds, record@);
                    assert(data0 + all_data->0 =~= self.data_buffer@ + application_records(
                        decryption_keys(self.decryption_state),
                        self.decryption_state.sequence_number() as int,
                        whole_records(input@.skip(pos as int))->0,
                    )->0);
                }
                recs = r2;
                dss = d2;
            }
        }
        // get the rest of the buffer back
        self.input_buffer = bytes_to_vec(&input[pos..input.len()]);
        proof {
            if nothing_whole {
                assert(self.input_buffer@ =~= self0.input_buffer@);
            }
            assert(whole_records(input@.skip(pos as int)) == Some(Seq::<RecordView>::empty()));
            assert(recs + Seq::<RecordView>::empty() =~= recs);
            if only_data {
                assert(self.data_buffer@ =~= data0 + all_data->0);
            }
        }
        *state = Ok(st);
        Ok(())
    }
}

} // verus!
