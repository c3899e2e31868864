//! Known peers

use vstd::prelude::*;
use vstd::string::StringExecFns;

use crate::bytes::bytes_to_vec;
use crate::tls::hex::{digit_str, hex_digit};

verus! {

/// Another user
#[derive(Debug, Clone)]
pub struct Peer {
    pub id: u128,
    pub username: Option<String>,
    /// Optional public key fingerprint for verification
    pub fingerprint: Option<Vec<u8>>,
}

/// The contents of a [`Peer`]
pub struct PeerView {
    pub id: u128,
    pub username: Option<Seq<char>>,
    pub fingerprint: Option<Seq<u8>>,
}

impl View for Peer {
    type V = PeerView;

    open spec fn view(&self) -> PeerView {
        PeerView {
            id: self.id,
            username: match self.username {
                Some(u) => Some(u@),
                None => None,
            },
            fingerprint: match self.fingerprint {
                Some(f) => Some(f@),
                None => None,
            },
        }
    }
}

/// The last `k` hexadecimal digits of `v`, most significant first
pub open spec fn hex_digits(v: nat, k: nat) -> Seq<char>
    decreases k,
{
    if k == 0 {
        Seq::empty()
    } else {
        hex_digits(v / 16, (k - 1) as nat) + seq![hex_digit((v % 16) as u8)]
    }
}

/// The text of a UUID: its 32 lower-case hexadecimal digits, most significant first, in
/// groups of 8, 4, 4, 4 and 12 separated by hyphens
pub open spec fn uuid_text(id: u128) -> Seq<char> {
    let d = hex_digits(id as nat, 32);
    d.subrange(0, 8) + seq!['-'] + d.subrange(8, 12) + seq!['-'] + d.subrange(12, 16) + seq!['-']
        + d.subrange(16, 20) + seq!['-'] + d.subrange(20, 32)
}

proof fn lemma_hex_digits_len(v: nat, k: nat)
    ensures
        hex_digits(v, k).len() == k,
    decreases k,
{
    if k > 0 {
        lemma_hex_digits_len(v / 16, (k - 1) as nat);
    }
}

/// The text of a UUID, as `uuid` writes it
pub fn uuid_to_string(id: u128) -> (r: String)
    ensures
        r@ == uuid_text(id),
{
    // The digits, least significant first
    let mut nibbles: Vec<u8> = Vec::new();
    let mut v: u128 = id;
    let ghost mut suffix: Seq<char> = Seq::empty();
    let mut j: usize = 0;
    while j < 32
        invariant
            j <= 32,
            nibbles@.len() == j,
            forall|i: int| 0 <= i < j ==> #[trigger] nibbles@[i] < 16,
            suffix.len() == j,
            forall|i: int| 0 <= i < j ==> suffix[j - 1 - i] == hex_digit(#[trigger] nibbles@[i]),
            hex_digits(id as nat, 32) == hex_digits(v as nat, (32 - j) as nat) + suffix,
        decreases 32 - j,
    {
        let n = (v % 16) as u8;
        proof {
            let k = (32 - j) as nat;
            assert(hex_digits(v as nat, k) == hex_digits((v / 16) as nat, (k - 1) as nat) + seq![hex_digit(n)]);
            assert(hex_digits(id as nat, 32) =~= hex_digits((v / 16) as nat, (k - 1) as nat) + (seq![hex_digit(n)] + suffix));
            suffix = seq![hex_digit(n)] + suffix;
        }
        nibbles.push(n);
        v = v / 16;
        j = j + 1;
    }
    assert(hex_digits(v as nat, 0) =~= Seq::<char>::empty());
    assert(suffix =~= hex_digits(id as nat, 32));
    let mut r = String::new();
    let mut k: usize = 0;
    while k < 32
        invariant
            k <= 32,
            nibbles@.len() == 32,
            forall|i: int| 0 <= i < 32 ==> #[trigger] nibbles@[i] < 16,
            forall|i: int| 0 <= i < 32 ==> suffix[31 - i] == hex_digit(#[trigger] nibbles@[i]),
            suffix == hex_digits(id as nat, 32),
            suffix.len() == 32,
            r@ == uuid_prefix(suffix, k as int),
        decreases 32 - k,
    {
        if k == 8 || k == 12 || k == 16 || k == 20 {
            proof {
                reveal_strlit("-");
            }
            r.append("-");
        }
        r.append(digit_str(nibbles[31 - k]));
        proof {
            assert(nibbles@[31 - k] < 16);
            assert(suffix[k as int] == hex_digit(nibbles@[31 - k as int]));
        }
        k = k + 1;
        proof {
            lemma_uuid_prefix_step(suffix, k as int);
        }
        assert(r@ =~= uuid_prefix(suffix, k as int));
    }
    proof {
        lemma_hex_digits_len(id as nat, 32);
        lemma_uuid_prefix_groups(suffix);
    }
    r
}

/// All 32 digits with their hyphens are the digits in groups of 8, 4, 4, 4 and 12
proof fn lemma_uuid_prefix_groups(d: Seq<char>)
    requires
        d.len() == 32,
    ensures
        uuid_prefix(d, 32) == d.subrange(0, 8) + seq!['-'] + d.subrange(8, 12) + seq!['-']
            + d.subrange(12, 16) + seq!['-'] + d.subrange(16, 20) + seq!['-'] + d.subrange(20, 32),
{
    reveal_with_fuel(uuid_prefix, 33);
    assert(uuid_prefix(d, 32) =~= d.subrange(0, 8) + seq!['-'] + d.subrange(8, 12) + seq!['-']
        + d.subrange(12, 16) + seq!['-'] + d.subrange(16, 20) + seq!['-'] + d.subrange(20, 32));
}

/// The first `k` digits of `d`, with the hyphens that come before them
pub open spec fn uuid_prefix(d: Seq<char>, k: int) -> Seq<char>
    decreases k,
{
    if k <= 0 {
        Seq::empty()
    } else {
        uuid_prefix(d, k - 1) + (if k - 1 == 8 || k - 1 == 12 || k - 1 == 16 || k - 1 == 20 {
            seq!['-']
        } else {
            Seq::empty()
        }) + seq![d[k - 1]]
    }
}

proof fn lemma_uuid_prefix_step(d: Seq<char>, k: int)
    requires
        k > 0,
    ensures
        uuid_prefix(d, k) == uuid_prefix(d, k - 1) + (if k - 1 == 8 || k - 1 == 12 || k - 1 == 16
            || k - 1 == 20 {
            seq!['-']
        } else {
            Seq::empty()
        }) + seq![d[k - 1]],
{
}

/// The characters `Peer#`
pub open spec fn peer_prefix() -> Seq<char> {
    seq!['P', 'e', 'e', 'r', '#']
}

impl Peer {
    /// The display name of a peer: its username, or `Peer#` and its id
    pub open spec fn spec_name(self) -> Seq<char> {
        match self.username {
            Some(u) => u@,
            None => peer_prefix() + uuid_text(self.id),
        }
    }

    /// Get the display name for this peer
    pub fn name(&self) -> (r: String)
        ensures
            r@ == self.spec_name(),
    {
        if let Some(name) = &self.username {
            return name.clone();
        }
        let mut r = String::from_str("Peer#");
        proof {
            reveal_strlit("Peer#");
        }
        let id = uuid_to_string(self.id);
        r.append(id.as_str());
        assert(r@ =~= self.spec_name());
        r
    }

    /// A copy of this peer
    pub fn duplicate(&self) -> (r: Self)
        ensures
            r@ == self@,
    {
        let username = match &self.username {
            Some(u) => Some(u.clone()),
            None => None,
        };
        let fingerprint = match &self.fingerprint {
            Some(f) => Some(bytes_to_vec(f.as_slice())),
            None => None,
        };
        Peer { id: self.id, username, fingerprint }
    }

    /// Create a default [`Peer`] with only its id
    pub fn default(id: u128) -> (r: Self)
        ensures
            r@ == (PeerView { id, username: None, fingerprint: None }),
    {
        Self { id, username: None, fingerprint: None }
    }
}

} // verus!
