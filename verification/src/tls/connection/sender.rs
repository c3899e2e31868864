//! Encrypts, fragments and sends TLS records

use vstd::prelude::*;

use crate::tls::{
    connection::encryption_state::{
        plaintext_record, sealed_record, EncryptionState, RECORDS_REKEY_LIMIT,
    },
    enums::{ContentType, ContentTypeName},
    msgs::Message,
    record_layer::CIPHERTEXT_FRAGMENT_MAX_LEN,
};

verus! {

/// The pieces of `p` of `n` bytes each, the last one maybe shorter; none for an empty `p`
pub open spec fn chunks(p: Seq<u8>, n: nat) -> Seq<Seq<u8>>
    decreases p.len(),
{
    if n == 0 || p.len() == 0 {
        seq![]
    } else if p.len() <= n {
        seq![p]
    } else {
        seq![p.take(n as int)] + chunks(p.skip(n as int), n)
    }
}

/// The chunks, one after the other
pub open spec fn joined(cs: Seq<Seq<u8>>) -> Seq<u8>
    decreases cs.len(),
{
    if cs.len() == 0 {
        seq![]
    } else {
        cs[0] + joined(cs.drop_first())
    }
}

/// Cutting data into chunks loses nothing and reorders nothing: the chunks, one after the
/// other, are the data, and each is non-empty and holds at most `n` bytes
pub proof fn law_chunks_keep_the_data(p: Seq<u8>, n: nat)
    requires
        n > 0,
    ensures
        joined(chunks(p, n)) == p,
        forall|i: int| 0 <= i < chunks(p, n).len() ==> 0 < (#[trigger] chunks(p, n)[i]).len() <= n,
    decreases p.len(),
{
    if p.len() == 0 {
    } else if p.len() <= n {
        assert(chunks(p, n) == seq![p]);
        assert(seq![p].drop_first() =~= Seq::<Seq<u8>>::empty());
        assert(joined(Seq::<Seq<u8>>::empty()) == Seq::<u8>::empty());
        assert(joined(seq![p]) == seq![p][0] + joined(seq![p].drop_first()));
        assert(joined(seq![p]) =~= p);
    } else {
        let rest = chunks(p.skip(n as int), n);
        law_chunks_keep_the_data(p.skip(n as int), n);
        assert(chunks(p, n) == seq![p.take(n as int)] + rest);
        assert((seq![p.take(n as int)] + rest).drop_first() =~= rest);
        assert(p =~= p.take(n as int) + p.skip(n as int));
        assert forall|i: int| 0 <= i < chunks(p, n).len() implies 0 < (#[trigger] chunks(p, n)[i]).len() <= n by {
            if i > 0 {
                assert(chunks(p, n)[i] == rest[i - 1]);
            }
        }
    }
}

/// The records of fragments, numbered from `seq` on, under the keys of `st`
pub open spec fn protected_records(st: EncryptionState, seq: nat, typ: u8, frags: Seq<Seq<u8>>) -> Seq<
    u8,
>
    decreases frags.len(),
{
    if frags.len() == 0 {
        seq![]
    } else {
        (match st {
            EncryptionState::Enabled(k) => sealed_record(k.key@, k.iv@, seq as u64, typ, frags[0]),
            EncryptionState::Disabled => plaintext_record(typ, frags[0]),
        }) + protected_records(st, seq + 1, typ, frags.drop_first())
    }
}

/// Unprotected records do not depend on where their numbering starts
proof fn lemma_plaintext_records_any_seq(st: EncryptionState, a: nat, b: nat, typ: u8, frags: Seq<Seq<u8>>)
    requires
        st is Disabled,
    ensures
        protected_records(st, a, typ, frags) == protected_records(st, b, typ, frags),
    decreases frags.len(),
{
    if frags.len() > 0 {
        lemma_plaintext_records_any_seq(st, a + 1, b + 1, typ, frags.drop_first());
    }
}

/// The bytes of the KeyUpdate handshake message that does not request an update in return
pub open spec fn key_update_bytes() -> Seq<u8> {
    seq![24u8, 0, 0, 1, 0]
}

/// Whether two encryption states hold the same keys
pub open spec fn same_keys(a: EncryptionState, b: EncryptionState) -> bool {
    match (a, b) {
        (EncryptionState::Enabled(x), EncryptionState::Enabled(y)) => x.secret@ == y.secret@
            && x.key@ == y.key@ && x.iv@ == y.iv@,
        (EncryptionState::Disabled, EncryptionState::Disabled) => true,
        _ => false,
    }
}

/// Encrypts, fragments and sends TLS records
#[derive(Debug)]
pub struct Sender {
    pub encryption_state: EncryptionState,
    /// The records waiting to be written to the network
    pub output_buffer: Vec<u8>,
}

impl Sender {
    pub fn new() -> (r: Self)
        ensures
            r.encryption_state is Disabled,
            r.output_buffer@ == Seq::<u8>::empty(),
    {
        Sender { encryption_state: EncryptionState::new(), output_buffer: Vec::new() }
    }

    /// Set the new Secret to use for traffic key calculation
    ///
    /// This recomputes the traffic keys and enables encryption if it was not enabled
    pub fn set_new_traffic_secret(&mut self, secret: &[u8])
        requires
            secret@.len() == 32,
        ensures
            final(self).encryption_state.wf(),
            final(self).encryption_state matches EncryptionState::Enabled(k) && k.secret@
                == secret@ && k.sequence_number == 0,
            final(self).output_buffer@ == old(self).output_buffer@,
    {
        self.encryption_state.set_new_traffic_secret(secret);
    }

    /// Send a KeyUpdate message, then update the traffic secret and compute the new keys
    pub fn perform_key_update(&mut self)
        requires
            old(self).encryption_state.wf(),
            old(self).encryption_state.sequence_number() < u64::MAX,
        ensures
            final(self).encryption_state.wf(),
            final(self).output_buffer@ == old(self).output_buffer@ + old(self).encryption_state.spec_record(22, key_update_bytes()),
            old(self).encryption_state is Disabled ==> final(self).encryption_state is Disabled,
            old(self).encryption_state matches EncryptionState::Enabled(k) ==> (final(self).encryption_state matches EncryptionState::Enabled(n) && n.secret@
                == crate::tls::connection::traffic_keys::next_traffic_secret(k.secret@)
                && n.sequence_number == 0),
    {
        let key_update: [u8; 5] = [24, 0, 0, 1, 0];
        assert(key_update@ =~= key_update_bytes());
        self.encryption_state.encrypt(
            key_update.as_slice(),
            ContentType(22),
            &mut self.output_buffer,
        );
        self.encryption_state.perform_key_update();
    }

    /// Send a message: it is fragmented into records, each protected when encryption is
    /// enabled; a key update comes first when the record limit of the keys is reached
    #[verifier::rlimit(40)]
    pub fn send(&mut self, msg: Message)
        requires
            old(self).encryption_state.wf(),
            old(self).encryption_state.sequence_number() < u64::MAX,
            !(msg is ChangeCipherSpec),
            !(msg is Alert),
            old(self).encryption_state is Disabled ==> msg.spec_content_type()
                != ContentTypeName::ApplicationData,
        ensures
            final(self).encryption_state.wf(),
            final(self).encryption_state.sequence_number() < u64::MAX,
            !old(self).encryption_state.spec_needs_rekey() ==> ({
                let st = old(self).encryption_state;
                let n = (CIPHERTEXT_FRAGMENT_MAX_LEN - st.spec_overhead()) as nat;
                &&& final(self).output_buffer@ == old(self).output_buffer@ + protected_records(
                    st,
                    st.sequence_number() as nat,
                    msg.spec_content_type().spec_value(),
                    chunks(msg.spec_encoding(), n),
                )
                &&& same_keys(st, final(self).encryption_state)
            }),
    {
        // Rekey if necessary
        if self.encryption_state.needs_rekey() {
            assert(self.encryption_state.sequence_number() < u64::MAX) by {
                assert(RECORDS_REKEY_LIMIT < u64::MAX);
            }
            self.perform_key_update();
        }
        let mut payload = match msg.encoded_length_hint() {
            Some(len) => Vec::with_capacity(len),
            None => Vec::new(),
        };
        msg.encode(&mut payload);
        assert(payload@ =~= msg.spec_encoding());
        let typ: ContentType = msg.content_type().value();

        // Fragment the message
        let overhead = self.encryption_state.ciphertext_overhead();
        let size: usize = (CIPHERTEXT_FRAGMENT_MAX_LEN as usize) - overhead;
        let ghost st = self.encryption_state;
        let ghost seq0 = st.sequence_number() as nat;
        let ghost out0 = self.output_buffer@;
        let ghost p = payload@;
        let mut off: usize = 0;
        assert(p.skip(0) =~= p);
        while off < payload.len()
            invariant
                payload@ == p,
                off <= p.len(),
                size == (CIPHERTEXT_FRAGMENT_MAX_LEN - st.spec_overhead()) as nat,
                size >= 16623,
                typ.0 == msg.spec_content_type().spec_value(),
                st is Disabled ==> typ.0 != 23,
                self.encryption_state.wf(),
                same_keys(st, self.encryption_state),
                self.encryption_state.spec_overhead() == st.spec_overhead(),
                seq0 < RECORDS_REKEY_LIMIT,
                self.encryption_state.sequence_number() >= seq0,
                st is Disabled ==> self.encryption_state.sequence_number() == 0,
                st is Enabled ==> size == 16623,
                st is Enabled && off < p.len() ==> 16623 * (self.encryption_state.sequence_number()
                    - seq0) == off,
                st is Enabled ==> 16623 * (self.encryption_state.sequence_number() - seq0) <= off
                    + 16623,
                out0 + protected_records(st, seq0, typ.0, chunks(p, size as nat)) == self.output_buffer@
                    + protected_records(
                    st,
                    self.encryption_state.sequence_number() as nat,
                    typ.0,
                    chunks(p.skip(off as int), size as nat),
                ),
            decreases p.len() - off,
        {
            let end: usize = if payload.len() - off > size {
                off + size
            } else {
                payload.len()
            };
            let fragment = &payload[off..end];
            let ghost rest = p.skip(off as int);
            assert(fragment@ =~= chunks(rest, size as nat)[0]);
            assert(chunks(rest, size as nat).drop_first() =~= chunks(p.skip(end as int), size as nat))
                by {
                if rest.len() > size {
                    assert(rest.skip(size as int) =~= p.skip(end as int));
                } else {
                    assert(p.skip(end as int) =~= Seq::<u8>::empty());
                }
            }
            let ghost before = self.encryption_state.sequence_number() as nat;
            let ghost out_before = self.output_buffer@;
            self.encryption_state.encrypt(fragment, typ, &mut self.output_buffer);
            proof {
                let frags = chunks(rest, size as nat);
                assert(frags.len() > 0);
                assert(protected_records(st, before, typ.0, frags) == (match st {
                    EncryptionState::Enabled(k) => sealed_record(k.key@, k.iv@, before as u64, typ.0, frags[0]),
                    EncryptionState::Disabled => plaintext_record(typ.0, frags[0]),
                }) + protected_records(st, before + 1, typ.0, frags.drop_first()));
                if st is Disabled {
                    lemma_plaintext_records_any_seq(st, before + 1, 0, typ.0, frags.drop_first());
                }
            }
            off = end;
        }
        proof {
            assert(p.skip(off as int) =~= Seq::<u8>::empty());
        }
    }
}

} // verus!
