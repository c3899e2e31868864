//! LRU Cache for [`EncryptedPayload`]s that cannot be decrypted yet
//!
//! Messages can arrive out of order around a key rotation: a message encrypted with the
//! next key may come before the message that announces that key. Such messages wait here,
//! by user and by key, until the key is known.

use std::collections::VecDeque;

use vstd::multiset::Multiset;
use vstd::prelude::*;

use crate::e2e::message::encrypted_payload::{EncryptedPayload, EncryptedPayloadView};

verus! {

// region:    The LRU cache of the `lru` crate

/// An LRU cache
#[verifier::external_type_specification]
#[verifier::external_body]
#[verifier::reject_recursive_types(K)]
#[verifier::reject_recursive_types(V)]
#[verifier::reject_recursive_types(S)]
pub struct ExLruCache<K, V, S>(lru::LruCache<K, V, S>);

/// The hasher of an LRU cache
#[verifier::external_type_specification]
#[verifier::external_body]
pub struct ExDefaultHasher(lru::DefaultHasher);

/// The queues of a cache by key, most recently used first
pub uninterp spec fn key_queues(c: lru::LruCache<u128, VecDeque<EncryptedPayload>>) -> Seq<
    (u128, Seq<EncryptedPayloadView>),
>;

/// The capacity a cache of queues was made with
pub uninterp spec fn key_queues_cap(c: lru::LruCache<u128, VecDeque<EncryptedPayload>>) -> nat;

/// The caches of a cache of user caches by user, most recently used first
pub uninterp spec fn user_caches(c: lru::LruCache<u128, UserPayloadCache>) -> Seq<
    (u128, UserPayloadCacheView),
>;

/// The capacity a cache of user caches was made with
pub uninterp spec fn user_caches_cap(c: lru::LruCache<u128, UserPayloadCache>) -> nat;

/// The views of payloads
pub open spec fn views(s: Seq<EncryptedPayload>) -> Seq<EncryptedPayloadView> {
    s.map_values(|p: EncryptedPayload| p@)
}

/// The index of the entry of key `k`, or `-1`
pub open spec fn find<X>(s: Seq<(u128, X)>, k: u128) -> int
    decreases s.len(),
{
    if s.len() == 0 {
        -1
    } else if s[0].0 == k {
        0
    } else {
        let i = find(s.drop_first(), k);
        if i < 0 {
            -1
        } else {
            i + 1
        }
    }
}

/// Whether no key has two entries
pub open spec fn distinct_keys<X>(s: Seq<(u128, X)>) -> bool {
    forall|i: int, j: int| 0 <= i < j < s.len() ==> s[i].0 != s[j].0
}

/// `find` gives the entry of the key, or says there is none
pub proof fn lemma_find<X>(s: Seq<(u128, X)>, k: u128)
    ensures
        -1 <= find(s, k) < s.len(),
        find(s, k) >= 0 ==> s[find(s, k)].0 == k,
        find(s, k) < 0 ==> forall|i: int| 0 <= i < s.len() ==> s[i].0 != k,
    decreases s.len(),
{
    if s.len() > 0 {
        lemma_find(s.drop_first(), k);
        if s[0].0 != k && find(s.drop_first(), k) < 0 {
            assert forall|i: int| 0 <= i < s.len() implies s[i].0 != k by {
                if i > 0 {
                    assert(s[i] == s.drop_first()[i - 1]);
                }
            }
        }
    }
}

/// The entries once the entry `i` moves to the front
pub open spec fn promoted<X>(s: Seq<(u128, X)>, i: int) -> Seq<(u128, X)> {
    seq![s[i]] + s.remove(i)
}

/// `lru::LruCache::unbounded`: an empty cache that never evicts on its own, as its capacity
/// is `usize::MAX`.
#[verifier::external_body]
fn queues_unbounded() -> (r: lru::LruCache<u128, VecDeque<EncryptedPayload>>)
    ensures
        key_queues(r) == Seq::<(u128, Seq<EncryptedPayloadView>)>::empty(),
        key_queues_cap(r) == usize::MAX,
{
    lru::LruCache::unbounded()
}

/// `lru::LruCache::pop`: removes the entry of `k` and returns its queue, if there is one.
#[verifier::external_body]
fn queues_pop(c: &mut lru::LruCache<u128, VecDeque<EncryptedPayload>>, k: u128) -> (r: Option<VecDeque<EncryptedPayload>>)
    ensures
        find(key_queues(*old(c)), k) < 0 ==> r is None && key_queues(*final(c)) == key_queues(*old(c)),
        find(key_queues(*old(c)), k) >= 0 ==> (r matches Some(q) && views(q@) == key_queues(*old(c))[find(key_queues(*old(c)), k)].1 && key_queues(*final(c))
                == key_queues(*old(c)).remove(find(key_queues(*old(c)), k))),
        distinct_keys(key_queues(*final(c))),
        key_queues_cap(*final(c)) == key_queues_cap(*old(c)),
{
    c.pop(&k)
}

/// `lru::LruCache::promote`: marks the entry of `k`, if there is one, as the most recently
/// used.
#[verifier::external_body]
fn queues_promote(c: &mut lru::LruCache<u128, VecDeque<EncryptedPayload>>, k: u128)
    ensures
        find(key_queues(*old(c)), k) < 0 ==> key_queues(*final(c)) == key_queues(*old(c)),
        find(key_queues(*old(c)), k) >= 0 ==> key_queues(*final(c)) == promoted(
            key_queues(*old(c)),
            find(key_queues(*old(c)), k),
        ),
        distinct_keys(key_queues(*final(c))),
        key_queues_cap(*final(c)) == key_queues_cap(*old(c)),
{
    c.promote(&k)
}

/// `lru::LruCache::pop_lru`: removes and returns the least recently used entry, if any.
#[verifier::external_body]
fn queues_pop_lru(c: &mut lru::LruCache<u128, VecDeque<EncryptedPayload>>) -> (r: Option<(u128, VecDeque<EncryptedPayload>)>)
    ensures
        key_queues(*old(c)).len() == 0 ==> r is None && key_queues(*final(c)) == key_queues(*old(c)),
        key_queues(*old(c)).len() > 0 ==> (r matches Some((k, q)) && k == key_queues(*old(c)).last().0
            && views(q@) == key_queues(*old(c)).last().1 && key_queues(*final(c)) == key_queues(
            *old(c),
        ).drop_last()),
        distinct_keys(key_queues(*final(c))),
        key_queues_cap(*final(c)) == key_queues_cap(*old(c)),
{
    c.pop_lru()
}

/// `lru::LruCache::push`: puts the entry first; the entry it replaces, or else the least
/// recently used one when the cache is full, is returned.
#[verifier::external_body]
fn queues_push(
    c: &mut lru::LruCache<u128, VecDeque<EncryptedPayload>>,
    k: u128,
    v: VecDeque<EncryptedPayload>,
) -> (r: Option<(u128, VecDeque<EncryptedPayload>)>)
    ensures
        find(key_queues(*old(c)), k) >= 0 ==> (r matches Some((k2, q)) && k2 == k && views(q@)
            == key_queues(*old(c))[find(key_queues(*old(c)), k)].1 && key_queues(*final(c)) == seq![
            (k, views(v@)),
        ] + key_queues(*old(c)).remove(find(key_queues(*old(c)), k))),
        find(key_queues(*old(c)), k) < 0 && key_queues(*old(c)).len() >= key_queues_cap(*old(c))
            ==> (r matches Some((k2, q)) && k2 == key_queues(*old(c)).last().0 && views(q@)
            == key_queues(*old(c)).last().1 && key_queues(*final(c)) == seq![(k, views(v@))]
            + key_queues(*old(c)).drop_last()),
        find(key_queues(*old(c)), k) < 0 && key_queues(*old(c)).len() < key_queues_cap(*old(c))
            ==> r is None && key_queues(*final(c)) == seq![(k, views(v@))] + key_queues(*old(c)),
        distinct_keys(key_queues(*final(c))),
        key_queues_cap(*final(c)) == key_queues_cap(*old(c)),
{
    c.push(k, v)
}

// endregion: The LRU cache of the `lru` crate

// region:    User caches

/// The total number of payloads in queues
pub open spec fn total_len(s: Seq<(u128, Seq<EncryptedPayloadView>)>) -> nat
    decreases s.len(),
{
    if s.len() == 0 {
        0
    } else {
        s[0].1.len() + total_len(s.drop_first())
    }
}

/// A LRU Cache for undecipherable messages for a specific user
///
/// The cache never holds empty queues, its capacity is never 0, and `total_messages` is the
/// number of payloads it holds, across all keys.
pub struct UserPayloadCache {
    /// Total number of messages across all keys
    total_messages: usize,
    /// The total number of messages allowed
    capacity: usize,
    /// Cached messages for each key
    cache: lru::LruCache<u128, VecDeque<EncryptedPayload>>,
}

/// The contents of a [`UserPayloadCache`]
pub struct UserPayloadCacheView {
    pub total_messages: nat,
    pub capacity: nat,
    /// The queue of payloads of each key, most recently used key first
    pub queues: Seq<(u128, Seq<EncryptedPayloadView>)>,
    /// How many keys the queues can hold
    pub keys_capacity: nat,
}

impl View for UserPayloadCache {
    type V = UserPayloadCacheView;

    closed spec fn view(&self) -> UserPayloadCacheView {
        UserPayloadCacheView {
            total_messages: self.total_messages as nat,
            capacity: self.capacity as nat,
            queues: key_queues(self.cache),
            keys_capacity: key_queues_cap(self.cache),
        }
    }
}

impl UserPayloadCacheView {
    /// The invariant of the cache
    pub open spec fn wf(self) -> bool {
        &&& self.capacity > 0
        &&& self.keys_capacity == usize::MAX
        &&& self.total_messages == total_len(self.queues)
        &&& self.total_messages <= self.capacity
        &&& distinct_keys(self.queues)
        &&& forall|i: int| 0 <= i < self.queues.len() ==> (#[trigger] self.queues[i]).1.len() > 0
    }
}

/// A user's cache once the queue of `key` is taken out of it
pub open spec fn user_without_key(u: UserPayloadCacheView, key: u128) -> UserPayloadCacheView {
    let j = find(u.queues, key);
    let rest = if j >= 0 {
        u.queues.remove(j)
    } else {
        u.queues
    };
    UserPayloadCacheView { queues: rest, total_messages: total_len(rest), ..u }
}

/// The caches of the users once the queue of `user` and `key` is taken: the user's cache,
/// if it still holds payloads, becomes the most recently used; the others stay
pub open spec fn users_after_take(c: PayloadCacheView, user: u128, key: u128) -> Seq<
    (u128, UserPayloadCacheView),
> {
    let i = find(c.users, user);
    if i < 0 {
        c.users
    } else {
        let u = user_without_key(c.users[i].1, key);
        if u.queues.len() == 0 {
            c.users.remove(i)
        } else {
            seq![(user, u)] + c.users.remove(i)
        }
    }
}

/// The total of a sequence with an entry first
proof fn lemma_total_len_cons(x: (u128, Seq<EncryptedPayloadView>), s: Seq<(u128, Seq<EncryptedPayloadView>)>)
    ensures
        total_len(seq![x] + s) == x.1.len() + total_len(s),
{
    assert((seq![x] + s).drop_first() =~= s);
}

/// The total without entry `i`
proof fn lemma_total_len_remove(s: Seq<(u128, Seq<EncryptedPayloadView>)>, i: int)
    requires
        0 <= i < s.len(),
    ensures
        total_len(s.remove(i)) + s[i].1.len() == total_len(s),
    decreases s.len(),
{
    if i == 0 {
        assert(s.remove(0) =~= s.drop_first());
    } else {
        lemma_total_len_remove(s.drop_first(), i - 1);
        assert(s.remove(i) =~= seq![s[0]] + s.drop_first().remove(i - 1));
        lemma_total_len_cons(s[0], s.drop_first().remove(i - 1));
    }
}

/// The total without the last entry
proof fn lemma_total_len_drop_last(s: Seq<(u128, Seq<EncryptedPayloadView>)>)
    requires
        s.len() > 0,
    ensures
        total_len(s.drop_last()) + s.last().1.len() == total_len(s),
{
    assert(s.drop_last() =~= s.remove(s.len() - 1));
    lemma_total_len_remove(s, s.len() - 1);
}

/// Queues that are never empty are no more than the payloads they hold
proof fn lemma_total_len_bounds_keys(s: Seq<(u128, Seq<EncryptedPayloadView>)>)
    requires
        forall|i: int| 0 <= i < s.len() ==> (#[trigger] s[i]).1.len() > 0,
    ensures
        s.len() <= total_len(s),
    decreases s.len(),
{
    if s.len() > 0 {
        assert forall|i: int| 0 <= i < s.drop_first().len() implies (#[trigger] s.drop_first()[i]).1.len()
            > 0 by {
            assert(s.drop_first()[i] == s[i + 1]);
        }
        lemma_total_len_bounds_keys(s.drop_first());
    }
}

/// Keys stay distinct when an entry is removed
proof fn lemma_distinct_remove<X>(s: Seq<(u128, X)>, i: int)
    requires
        distinct_keys(s),
        0 <= i < s.len(),
    ensures
        distinct_keys(s.remove(i)),
        forall|j: int| 0 <= j < s.remove(i).len() ==> s.remove(i)[j].0 != s[i].0,
{
    assert forall|a: int, b: int| 0 <= a < b < s.remove(i).len() implies s.remove(i)[a].0 != s.remove(i)[b].0 by {
        let a2 = if a < i { a } else { a + 1 };
        let b2 = if b < i { b } else { b + 1 };
        assert(s.remove(i)[a] == s[a2]);
        assert(s.remove(i)[b] == s[b2]);
    }
    assert forall|j: int| 0 <= j < s.remove(i).len() implies s.remove(i)[j].0 != s[i].0 by {
        let j2 = if j < i { j } else { j + 1 };
        assert(s.remove(i)[j] == s[j2]);
    }
}

/// The queues once `payload` is added to the queue of `key`, which moves first
pub open spec fn with_payload(
    queues: Seq<(u128, Seq<EncryptedPayloadView>)>,
    key: u128,
    payload: EncryptedPayloadView,
) -> Seq<(u128, Seq<EncryptedPayloadView>)> {
    let i = find(queues, key);
    if i >= 0 {
        seq![(key, queues[i].1.push(payload))] + queues.remove(i)
    } else {
        seq![(key, seq![payload])] + queues
    }
}

/// The queues of a full cache once it made room for a payload of `key`, with the payloads
/// it evicted: the least recently used key other than `key` loses all its payloads, or,
/// when `key` is the only key, its oldest payload goes
pub open spec fn evicted_for(e0: Seq<(u128, Seq<EncryptedPayloadView>)>, key: u128) -> (
    Seq<(u128, Seq<EncryptedPayloadView>)>,
    Seq<EncryptedPayloadView>,
) {
    let e1 = if find(e0, key) >= 0 {
        promoted(e0, find(e0, key))
    } else {
        e0
    };
    let last = e1.last();
    if last.0 == key {
        (
            if last.1.len() > 1 {
                seq![(key, last.1.drop_first())] + e1.drop_last()
            } else {
                e1.drop_last()
            },
            seq![last.1[0]],
        )
    } else {
        (e1.drop_last(), last.1)
    }
}

/// Every payload the queues hold, whatever its key
pub open spec fn all_payloads(qs: Seq<(u128, Seq<EncryptedPayloadView>)>) -> Multiset<
    EncryptedPayloadView,
>
    decreases qs.len(),
{
    if qs.len() == 0 {
        Multiset::empty()
    } else {
        qs[0].1.to_multiset().add(all_payloads(qs.drop_first()))
    }
}

proof fn lemma_all_payloads_cons(
    x: (u128, Seq<EncryptedPayloadView>),
    s: Seq<(u128, Seq<EncryptedPayloadView>)>,
)
    ensures
        all_payloads(seq![x] + s) == x.1.to_multiset().add(all_payloads(s)),
{
    assert((seq![x] + s).drop_first() =~= s);
}

proof fn lemma_all_payloads_remove(qs: Seq<(u128, Seq<EncryptedPayloadView>)>, i: int)
    requires
        0 <= i < qs.len(),
    ensures
        all_payloads(qs) == qs[i].1.to_multiset().add(all_payloads(qs.remove(i))),
    decreases qs.len(),
{
    if i == 0 {
        assert(qs.remove(0) =~= qs.drop_first());
    } else {
        lemma_all_payloads_remove(qs.drop_first(), i - 1);
        assert(qs.remove(i) =~= seq![qs[0]] + qs.drop_first().remove(i - 1));
        lemma_all_payloads_cons(qs[0], qs.drop_first().remove(i - 1));
        assert(all_payloads(qs) =~= qs[i].1.to_multiset().add(all_payloads(qs.remove(i))));
    }
}

/// Adding a payload to the queue of a key adds exactly that payload to what the queues
/// hold
pub proof fn law_with_payload_adds_it(
    qs: Seq<(u128, Seq<EncryptedPayloadView>)>,
    key: u128,
    p: EncryptedPayloadView,
)
    ensures
        all_payloads(with_payload(qs, key, p)) == all_payloads(qs).insert(p),
{
    broadcast use vstd::seq_lib::group_to_multiset_ensures;

    lemma_find(qs, key);
    let i = find(qs, key);
    if i >= 0 {
        lemma_all_payloads_remove(qs, i);
        lemma_all_payloads_cons((key, qs[i].1.push(p)), qs.remove(i));
        assert(qs[i].1.push(p).to_multiset() =~= qs[i].1.to_multiset().insert(p));
        assert(all_payloads(with_payload(qs, key, p)) =~= all_payloads(qs).insert(p));
    } else {
        lemma_all_payloads_cons((key, seq![p]), qs);
        assert(seq![p] =~= Seq::<EncryptedPayloadView>::empty().push(p));
        assert(all_payloads(with_payload(qs, key, p)) =~= all_payloads(qs).insert(p));
    }
}

/// Making room loses no payload: the payloads that stay and those evicted are those the
/// queues held
pub proof fn law_eviction_loses_nothing(e0: Seq<(u128, Seq<EncryptedPayloadView>)>, key: u128)
    requires
        e0.len() > 0,
        forall|i: int| 0 <= i < e0.len() ==> (#[trigger] e0[i]).1.len() > 0,
    ensures
        all_payloads(evicted_for(e0, key).0).add(evicted_for(e0, key).1.to_multiset())
            == all_payloads(e0),
{
    broadcast use vstd::seq_lib::group_to_multiset_ensures;

    lemma_find(e0, key);
    let e1 = if find(e0, key) >= 0 {
        promoted(e0, find(e0, key))
    } else {
        e0
    };
    if find(e0, key) >= 0 {
        let i = find(e0, key);
        lemma_all_payloads_remove(e0, i);
        lemma_all_payloads_cons(e0[i], e0.remove(i));
    }
    assert(all_payloads(e1) == all_payloads(e0));
    assert(e1.len() > 0);
    let n = e1.len() - 1;
    let last = e1.last();
    assert(last.1.len() > 0) by {
        if find(e0, key) >= 0 {
            let i = find(e0, key);
            if n == 0 {
                assert(e1[0] == e0[i]);
            } else {
                assert(e1[n] == e0.remove(i)[n - 1]);
                let j = if n - 1 < i { n - 1 } else { n };
                assert(e0.remove(i)[n - 1] == e0[j]);
            }
        }
    }
    lemma_all_payloads_remove(e1, n);
    assert(e1.remove(n) =~= e1.drop_last());
    // the payloads of the last entry
    assert(last.1.to_multiset() =~= seq![last.1[0]].to_multiset().add(last.1.drop_first().to_multiset())) by {
        assert(last.1 =~= seq![last.1[0]] + last.1.drop_first());
        vstd::seq_lib::lemma_multiset_commutative(seq![last.1[0]], last.1.drop_first());
    }
    if last.0 == key {
        if last.1.len() > 1 {
            lemma_all_payloads_cons((key, last.1.drop_first()), e1.drop_last());
        } else {
            assert(last.1.drop_first() =~= Seq::<EncryptedPayloadView>::empty());
        }
    }
    assert(all_payloads(evicted_for(e0, key).0).add(evicted_for(e0, key).1.to_multiset())
        =~= all_payloads(e0));
}

/// Pushing a payload keeps every payload: the payloads the queues hold afterwards, with
/// those evicted, are those they held before and the new one
pub proof fn law_push_keeps_every_payload(
    c0: UserPayloadCacheView,
    key: u128,
    p: EncryptedPayloadView,
    c1: UserPayloadCacheView,
    evicted: Seq<EncryptedPayloadView>,
)
    requires
        c0.wf(),
        c0.total_messages < c0.capacity ==> c1.queues == with_payload(c0.queues, key, p)
            && evicted.len() == 0,
        c0.total_messages >= c0.capacity ==> evicted == evicted_for(c0.queues, key).1
            && c1.queues == with_payload(evicted_for(c0.queues, key).0, key, p),
    ensures
        all_payloads(c1.queues).add(evicted.to_multiset()) == all_payloads(c0.queues).insert(p),
{
    broadcast use vstd::seq_lib::group_to_multiset_ensures;

    if c0.total_messages < c0.capacity {
        law_with_payload_adds_it(c0.queues, key, p);
        assert(evicted =~= Seq::<EncryptedPayloadView>::empty());
        assert(all_payloads(c1.queues).add(evicted.to_multiset()) =~= all_payloads(c0.queues).insert(p));
    } else {
        assert(c0.queues.len() > 0) by {
            if c0.queues.len() == 0 {
                assert(total_len(c0.queues) == 0);
            }
        }
        law_eviction_loses_nothing(c0.queues, key);
        law_with_payload_adds_it(evicted_for(c0.queues, key).0, key, p);
        assert(all_payloads(c1.queues).add(evicted.to_multiset()) =~= all_payloads(c0.queues).insert(p));
    }
}

impl UserPayloadCache {
    /// Create a new [`UserPayloadCache`]
    ///
    /// `capacity` is the maximum number of messages stored per user. When going over
    /// the limit, the cache evicts the messages of the least-recently used key, or
    /// the oldest message for the key. It must not be 0.
    pub fn new(capacity: usize) -> (r: Self)
        requires
            capacity > 0,
        ensures
            r@.wf(),
            r@.capacity == capacity,
            r@.total_messages == 0,
            r@.queues == Seq::<(u128, Seq<EncryptedPayloadView>)>::empty(),
    {
        let cache = queues_unbounded();
        UserPayloadCache { total_messages: 0, capacity, cache }
    }

    /// Whether the cache keeps its invariant
    pub open spec fn inner_wf(&self) -> bool {
        self@.wf()
    }

    /// Whether the cache holds no payload
    pub fn is_empty(&self) -> (r: bool)
        requires
            self.inner_wf(),
        ensures
            r == (self@.queues.len() == 0),
    {
        proof {
            lemma_total_len_bounds_keys(self@.queues);
        }
        self.total_messages == 0
    }

    /// Take the cached payloads of `key`
    pub fn pop(&mut self, key_id: u128) -> (r: Option<VecDeque<EncryptedPayload>>)
        requires
            old(self).inner_wf(),
        ensures
            final(self).inner_wf(),
            final(self)@.capacity == old(self)@.capacity,
            find(old(self)@.queues, key_id) < 0 ==> r is None && final(self)@ == old(self)@,
            find(old(self)@.queues, key_id) >= 0 ==> (r matches Some(q) && views(q@) == old(
                self,
            )@.queues[find(old(self)@.queues, key_id)].1 && final(self)@.queues == old(
                self,
            )@.queues.remove(find(old(self)@.queues, key_id))),
            final(self)@ == user_without_key(old(self)@, key_id),
    {
        let ghost e = self@.queues;
        proof {
            lemma_find(e, key_id);
        }
        let msgs = queues_pop(&mut self.cache, key_id);
        match &msgs {
            Some(queue) => {
                proof {
                    lemma_total_len_remove(e, find(e, key_id));
                    lemma_distinct_remove(e, find(e, key_id));
                    assert forall|i: int| 0 <= i < e.remove(find(e, key_id)).len() implies (#[trigger] e.remove(find(e, key_id))[i]).1.len() > 0 by {
                        let j = if i < find(e, key_id) { i } else { i + 1 };
                        assert(e.remove(find(e, key_id))[i] == e[j]);
                    }
                }
                self.total_messages = self.total_messages - queue.len();
            },
            None => {},
        }
        msgs
    }

    /// Add a payload to the queue of `key_id`, when the cache has room for it
    fn add_payload(&mut self, key_id: u128, payload: EncryptedPayload)
        requires
            old(self).inner_wf(),
            old(self)@.total_messages < old(self)@.capacity,
        ensures
            final(self).inner_wf(),
            final(self)@.capacity == old(self)@.capacity,
            final(self)@.total_messages == old(self)@.total_messages + 1,
            final(self)@.queues == with_payload(old(self)@.queues, key_id, payload@),
    {
        let ghost e = self@.queues;
        let ghost pv = payload@;
        proof {
            lemma_find(e, key_id);
        }
        let mut queue = match queues_pop(&mut self.cache, key_id) {
            Some(q) => q,
            None => VecDeque::new(),
        };
        let ghost e2 = self@.queues;
        proof {
            if find(e, key_id) >= 0 {
                lemma_total_len_remove(e, find(e, key_id));
                lemma_distinct_remove(e, find(e, key_id));
                assert forall|k: int| 0 <= k < e2.len() implies (#[trigger] e2[k]).1.len() > 0 by {
                    let k2 = if k < find(e, key_id) { k } else { k + 1 };
                    assert(e2[k] == e[k2]);
                }
            } else {
                assert(views(queue@) =~= Seq::<EncryptedPayloadView>::empty());
            }
            lemma_total_len_bounds_keys(e2);
            lemma_find(e2, key_id);
        }
        let ghost before = views(queue@);
        queue.push_back(payload);
        assert(views(queue@) =~= before.push(pv));
        let _ = queues_push(&mut self.cache, key_id, queue);
        self.total_messages = self.total_messages + 1;
        proof {
            let f = self@.queues;
            lemma_total_len_cons((key_id, before.push(pv)), e2);
            assert forall|a: int, b: int| 0 <= a < b < f.len() implies f[a].0 != f[b].0 by {
                if a == 0 {
                    assert(f[b] == e2[b - 1]);
                } else {
                    assert(f[a] == e2[a - 1]);
                    assert(f[b] == e2[b - 1]);
                }
            }
            assert forall|k: int| 0 <= k < f.len() implies (#[trigger] f[k]).1.len() > 0 by {
                if k > 0 {
                    assert(f[k] == e2[k - 1]);
                }
            }
            if find(e, key_id) >= 0 {
                assert(f =~= with_payload(e, key_id, pv));
            } else {
                assert(before.push(pv) =~= seq![pv]);
                assert(f =~= with_payload(e, key_id, pv));
            }
        }
    }

    /// Make room for one more payload in a full cache: the least recently used key other
    /// than `key_id` loses all its payloads, or, when `key_id` is the only key, its oldest
    /// payload goes. Returns the evicted payloads.
    #[verifier::rlimit(60)]
    fn evict(&mut self, key_id: u128) -> (r: Vec<EncryptedPayload>)
        requires
            old(self).inner_wf(),
            old(self)@.total_messages >= old(self)@.capacity,
        ensures
            final(self).inner_wf(),
            final(self)@.capacity == old(self)@.capacity,
            r@.len() > 0,
            final(self)@.total_messages == old(self)@.total_messages - r@.len(),
            final(self)@.total_messages < final(self)@.capacity,
            final(self)@.queues == evicted_for(old(self)@.queues, key_id).0,
            views(r@) == evicted_for(old(self)@.queues, key_id).1,
    {
        let ghost e0 = self@.queues;
        proof {
            lemma_find(e0, key_id);
        }
        // Bump the current key to MRU in case it was LRU
        queues_promote(&mut self.cache, key_id);
        let ghost e1 = self@.queues;
        proof {
            if find(e0, key_id) >= 0 {
                let i = find(e0, key_id);
                lemma_total_len_remove(e0, i);
                lemma_total_len_cons(e0[i], e0.remove(i));
                assert forall|j: int| 0 <= j < e1.len() implies (#[trigger] e1[j]).1.len() > 0 by {
                    if j > 0 {
                        let j2 = if j - 1 < i { j - 1 } else { j };
                        assert(e1[j] == e0.remove(i)[j - 1]);
                        assert(e0.remove(i)[j - 1] == e0[j2]);
                    }
                }
            }
            assert(total_len(e1) == total_len(e0));
            if e1.len() == 0 {
                assert(total_len(e1) == 0);
            }
        }
        let (id, mut queue) = match queues_pop_lru(&mut self.cache) {
            Some(entry) => entry,
            None => {
                assert(false);
                return Vec::new();
            },
        };
        let ghost e2 = self@.queues;
        proof {
            lemma_total_len_drop_last(e1);
            assert(e1.last() == e1[e1.len() - 1]);
            assert(e2 =~= e1.remove(e1.len() - 1));
            lemma_distinct_remove(e1, e1.len() - 1);
            assert forall|k: int| 0 <= k < e2.len() implies (#[trigger] e2[k]).1.len() > 0 by {
                assert(e2[k] == e1[k]);
            }
            lemma_total_len_bounds_keys(e2);
        }
        let mut ev: Vec<EncryptedPayload> = Vec::new();
        if id == key_id {
            // The only queue is for this key, pop the oldest message
            let ghost qv = views(queue@);
            let oldest_msg = match queue.pop_front() {
                Some(m) => m,
                None => {
                    assert(false);
                    return Vec::new();
                },
            };
            ev.push(oldest_msg);
            proof {
                lemma_find(e2, key_id);
                assert(views(ev@) =~= seq![qv[0]]);
            }
            // Put back what is left of the queue in the cache
            let ghost rest = views(queue@);
            assert(rest =~= qv.drop_first());
            if queue.len() > 0 {
                let _ = queues_push(&mut self.cache, key_id, queue);
                proof {
                    let f = self@.queues;
                    lemma_total_len_cons((key_id, rest), e2);
                    assert forall|a: int, b: int| 0 <= a < b < f.len() implies f[a].0 != f[b].0 by {
                        if a == 0 {
                            assert(f[b] == e2[b - 1]);
                        } else {
                            assert(f[a] == e2[a - 1]);
                            assert(f[b] == e2[b - 1]);
                        }
                    }
                    assert forall|k: int| 0 <= k < f.len() implies (#[trigger] f[k]).1.len() > 0 by {
                        if k > 0 {
                            assert(f[k] == e2[k - 1]);
                        }
                    }
                }
            }
            self.total_messages = self.total_messages - 1;
        } else {
            self.total_messages = self.total_messages - queue.len();
            let ghost qv = views(queue@);
            while queue.len() > 0
                invariant
                    views(ev@) + views(queue@) == qv,
                decreases queue@.len(),
            {
                let ghost before_ev = ev@;
                let ghost before_q = queue@;
                match queue.pop_front() {
                    Some(m) => {
                        ev.push(m);
                        proof {
                            assert(views(ev@) =~= views(before_ev).push(m@));
                            assert(views(before_q) =~= seq![m@] + views(queue@));
                            assert(views(ev@) + views(queue@) =~= views(before_ev) + views(before_q));
                        }
                    },
                    None => {},
                }
            }
            proof {
                assert(views(queue@) =~= Seq::<EncryptedPayloadView>::empty());
                assert(views(ev@) + views(queue@) =~= views(ev@));
            }
        }
        ev
    }

    /// Add a payload to the queue of `key_id`, and return the evicted payloads
    ///
    /// When the cache is full, the least recently used key other than `key_id` loses all
    /// its payloads; when `key_id` is the only key, its oldest payload goes.
    pub fn push(&mut self, key_id: u128, payload: EncryptedPayload) -> (r: Option<Vec<EncryptedPayload>>)
        requires
            old(self).inner_wf(),
        ensures
            final(self).inner_wf(),
            final(self)@.capacity == old(self)@.capacity,
            final(self)@.total_messages <= final(self)@.capacity,
            old(self)@.total_messages < old(self)@.capacity ==> r is None && final(self)@.queues
                == with_payload(old(self)@.queues, key_id, payload@),
            old(self)@.total_messages >= old(self)@.capacity ==> (r matches Some(ev) && ev@.len() > 0
                && final(self)@.total_messages == old(self)@.total_messages + 1 - ev@.len()
                && views(ev@) == evicted_for(old(self)@.queues, key_id).1 && final(self)@.queues
                == with_payload(evicted_for(old(self)@.queues, key_id).0, key_id, payload@)),
            r is None ==> final(self)@.total_messages == old(self)@.total_messages + 1,
    {
        let mut evicted: Option<Vec<EncryptedPayload>> = None;
        // Evict messages if pushing exceeds capacity
        if self.total_messages >= self.capacity {
            evicted = Some(self.evict(key_id));
        }
        // Add the message to the cache
        self.add_payload(key_id, payload);
        evicted
    }
}

// region:    The cache of all users

/// `lru::LruCache::new`: an empty cache of user caches that holds at most `cap` users.
#[verifier::external_body]
fn users_new(cap: usize) -> (r: lru::LruCache<u128, UserPayloadCache>)
    requires
        cap > 0,
    ensures
        user_caches(r) == Seq::<(u128, UserPayloadCacheView)>::empty(),
        user_caches_cap(r) == cap,
{
    lru::LruCache::new(core::num::NonZeroUsize::new(cap).unwrap())
}

/// `lru::LruCache::pop`: removes the cache of `k` and returns it, if there is one.
#[verifier::external_body]
fn users_pop(c: &mut lru::LruCache<u128, UserPayloadCache>, k: u128) -> (r: Option<UserPayloadCache>)
    ensures
        find(user_caches(*old(c)), k) < 0 ==> r is None && user_caches(*final(c)) == user_caches(*old(c)),
        find(user_caches(*old(c)), k) >= 0 ==> (r matches Some(u) && u@ == user_caches(
            *old(c),
        )[find(user_caches(*old(c)), k)].1 && user_caches(*final(c)) == user_caches(*old(c)).remove(
            find(user_caches(*old(c)), k),
        )),
        distinct_keys(user_caches(*final(c))),
        user_caches_cap(*final(c)) == user_caches_cap(*old(c)),
{
    c.pop(&k)
}

/// `lru::LruCache::push`: puts the cache of `k` first; the entry it replaces, or else the
/// least recently used one when the cache is full, is returned.
#[verifier::external_body]
fn users_push(c: &mut lru::LruCache<u128, UserPayloadCache>, k: u128, v: UserPayloadCache) -> (r: Option<(u128, UserPayloadCache)>)
    ensures
        find(user_caches(*old(c)), k) >= 0 ==> (r matches Some((k2, u)) && k2 == k && u@
            == user_caches(*old(c))[find(user_caches(*old(c)), k)].1 && user_caches(*final(c))
            == seq![(k, v@)] + user_caches(*old(c)).remove(find(user_caches(*old(c)), k))),
        find(user_caches(*old(c)), k) < 0 && user_caches(*old(c)).len() >= user_caches_cap(*old(c))
            ==> (r matches Some((k2, u)) && k2 == user_caches(*old(c)).last().0 && u@
            == user_caches(*old(c)).last().1 && user_caches(*final(c)) == seq![(k, v@)]
            + user_caches(*old(c)).drop_last()),
        find(user_caches(*old(c)), k) < 0 && user_caches(*old(c)).len() < user_caches_cap(*old(c))
            ==> r is None && user_caches(*final(c)) == seq![(k, v@)] + user_caches(*old(c)),
        distinct_keys(user_caches(*final(c))),
        user_caches_cap(*final(c)) == user_caches_cap(*old(c)),
{
    c.push(k, v)
}

/// LRU Cache for undecipherable messages, to handle out-of-order messages with key rotation
///
/// Limits the number of users and the total number of messages per user
pub struct PayloadCache {
    /// Maximum number of messages for each users
    max_msgs_per_user: usize,
    /// Caches for each users
    user_caches: lru::LruCache<u128, UserPayloadCache>,
}

/// The contents of a [`PayloadCache`]
pub struct PayloadCacheView {
    pub max_msgs_per_user: nat,
    pub users_capacity: nat,
    /// The cache of each user, most recently used user first
    pub users: Seq<(u128, UserPayloadCacheView)>,
}

impl View for PayloadCache {
    type V = PayloadCacheView;

    closed spec fn view(&self) -> PayloadCacheView {
        PayloadCacheView {
            max_msgs_per_user: self.max_msgs_per_user as nat,
            users_capacity: user_caches_cap(self.user_caches),
            users: user_caches(self.user_caches),
        }
    }
}

impl PayloadCacheView {
    /// The invariant of the cache: each user cache keeps its own, with the same capacity
    pub open spec fn wf(self) -> bool {
        &&& self.max_msgs_per_user > 0
        &&& self.users_capacity > 0
        &&& self.users.len() <= self.users_capacity
        &&& distinct_keys(self.users)
        &&& forall|i: int|
            0 <= i < self.users.len() ==> (#[trigger] self.users[i]).1.wf() && self.users[i].1.capacity
                == self.max_msgs_per_user
    }
}

/// The payloads the cache keeps for a user and a key
pub open spec fn cached_payloads(c: PayloadCacheView, user: u128, key_id: u128) -> Seq<EncryptedPayloadView> {
    let queues = PayloadCache::user_queues(c, user);
    let j = find(queues, key_id);
    if j >= 0 {
        queues[j].1
    } else {
        Seq::empty()
    }
}

/// Whether the cache `c1` is `c0` once it kept a payload of `user` for `key_id`
pub open spec fn kept(
    c0: PayloadCacheView,
    c1: PayloadCacheView,
    user: u128,
    key_id: u128,
    p: EncryptedPayloadView,
) -> bool {
    &&& c1.wf()
    &&& c1.max_msgs_per_user == c0.max_msgs_per_user
    &&& c1.users.len() > 0
    &&& c1.users[0].0 == user
    &&& PayloadCache::has_room(c0, user) ==> c1.users[0].1.queues == with_payload(
        PayloadCache::user_queues(c0, user),
        key_id,
        p,
    )
}

/// Whether the cache `c1` is `c0` once the payloads of `user` for `key_id` were taken,
/// and `r` what came out: the user's whole cache leaves, and its queue for the key comes out
pub open spec fn taken(
    c0: PayloadCacheView,
    user: u128,
    key_id: u128,
    c1: PayloadCacheView,
    r: Option<Seq<EncryptedPayloadView>>,
) -> bool {
    let i = find(c0.users, user);
    &&& c1.wf()
    &&& c1.max_msgs_per_user == c0.max_msgs_per_user
    &&& i < 0 ==> r is None && c1 == c0
    &&& c1.users_capacity == c0.users_capacity
    &&& c1.users == users_after_take(c0, user, key_id)
    &&& i >= 0 ==> ({
        let u = c0.users[i].1;
        let j = find(u.queues, key_id);
        &&& j < 0 ==> r is None
        &&& j >= 0 ==> r == Some(u.queues[j].1)
    })
}

/// A payload kept for a user and a key, when the user's cache had room for it, comes out
/// last the next time the payloads of that user and key are taken, after those kept
/// before it
pub proof fn law_kept_payload_is_taken_last(
    c0: PayloadCacheView,
    c1: PayloadCacheView,
    c2: PayloadCacheView,
    user: u128,
    key_id: u128,
    p: EncryptedPayloadView,
    r: Option<Seq<EncryptedPayloadView>>,
)
    requires
        c0.wf(),
        PayloadCache::has_room(c0, user),
        kept(c0, c1, user, key_id, p),
        taken(c1, user, key_id, c2, r),
    ensures
        r == Some(cached_payloads(c0, user, key_id).push(p)),
{
    let q0 = PayloadCache::user_queues(c0, user);
    lemma_find(q0, key_id);
    assert(find(c1.users, user) == 0);
    let queues = c1.users[0].1.queues;
    assert(queues == with_payload(q0, key_id, p));
    assert(find(queues, key_id) == 0);
    if find(q0, key_id) < 0 {
        assert(Seq::<EncryptedPayloadView>::empty().push(p) =~= seq![p]);
    }
}

impl PayloadCache {
    /// Create a new [`PayloadCache`].
    ///
    /// `users_capacity` is the maximum number of users allowed to have a cache. If a new
    /// user is inserted, the cache will evict the least-recently used one.
    ///
    /// `messages_capacity` is the maximum number of messages stored per user. When going over
    /// the limit, the cache will try to evict the messages of the least-recently used key, or
    /// the oldest message for the key.
    ///
    /// Neither capacity can be 0.
    pub fn new(users_capacity: usize, messages_capacity: usize) -> (r: Self)
        requires
            users_capacity > 0,
            messages_capacity > 0,
        ensures
            r@.wf(),
            r@.users == Seq::<(u128, UserPayloadCacheView)>::empty(),
            r@.max_msgs_per_user == messages_capacity,
            r@.users_capacity == users_capacity,
    {
        PayloadCache { max_msgs_per_user: messages_capacity, user_caches: users_new(users_capacity) }
    }

    /// The queues of a user, none for a user with no cache
    pub open spec fn user_queues(self_view: PayloadCacheView, user_id: u128) -> Seq<
        (u128, Seq<EncryptedPayloadView>),
    > {
        let i = find(self_view.users, user_id);
        if i >= 0 {
            self_view.users[i].1.queues
        } else {
            Seq::empty()
        }
    }

    /// Whether the cache of a user can take one more payload without evicting any: a user
    /// with no cache yet gets an empty one
    pub open spec fn has_room(self_view: PayloadCacheView, user_id: u128) -> bool {
        let i = find(self_view.users, user_id);
        i >= 0 ==> self_view.users[i].1.total_messages < self_view.users[i].1.capacity
    }

    /// Add a payload of a user for a key, and return the payloads the user's cache evicted
    ///
    /// The user's cache becomes the most recently used; a new user takes the place of the
    /// least recently used one when the cache is full.
    #[verifier::rlimit(40)]
    pub fn push(&mut self, user_id: u128, key_id: u128, payload: EncryptedPayload) -> (r: Option<
        Vec<EncryptedPayload>,
    >)
        requires
            old(self)@.wf(),
        ensures
            final(self)@.wf(),
            final(self)@.max_msgs_per_user == old(self)@.max_msgs_per_user,
            final(self)@.users.len() > 0,
            final(self)@.users[0].0 == user_id,
            r is None ==> final(self)@.users[0].1.queues == with_payload(
                Self::user_queues(old(self)@, user_id),
                key_id,
                payload@,
            ),
            r matches Some(ev) ==> ev@.len() > 0,
            Self::has_room(old(self)@, user_id) ==> r is None,
            kept(old(self)@, final(self)@, user_id, key_id, payload@),
    {
        let ghost e = self@.users;
        proof {
            lemma_find(e, user_id);
        }
        let mut cache = match users_pop(&mut self.user_caches, user_id) {
            Some(c) => c,
            None => UserPayloadCache::new(self.max_msgs_per_user),
        };
        let ghost e2 = self@.users;
        proof {
            if find(e, user_id) >= 0 {
                lemma_distinct_remove(e, find(e, user_id));
                assert forall|k: int| 0 <= k < e2.len() implies (#[trigger] e2[k]).1.wf()
                    && e2[k].1.capacity == self@.max_msgs_per_user by {
                    let k2 = if k < find(e, user_id) { k } else { k + 1 };
                    assert(e2[k] == e[k2]);
                }
            }
            lemma_find(e2, user_id);
        }
        let evicted = cache.push(key_id, payload);
        let _ = users_push(&mut self.user_caches, user_id, cache);
        proof {
            let f = self@.users;
            assert forall|a: int, b: int| 0 <= a < b < f.len() implies f[a].0 != f[b].0 by {
                if a == 0 {
                    assert(f[b].0 != user_id);
                }
            }
            assert forall|k: int| 0 <= k < f.len() implies (#[trigger] f[k]).1.wf() && f[k].1.capacity
                == self@.max_msgs_per_user by {
                if k > 0 {
                    assert(f[k] == e2[k - 1]);
                }
            }
        }
        evicted
    }

    /// Take the cached payloads of a user for a key
    ///
    /// The cache of the user leaves the cache whole: the payloads of the user's other keys go
    /// with it.
    pub fn pop(&mut self, user_id: u128, key_id: u128) -> (r: Option<VecDeque<EncryptedPayload>>)
        requires
            old(self)@.wf(),
        ensures
            final(self)@.wf(),
            final(self)@.max_msgs_per_user == old(self)@.max_msgs_per_user,
            taken(
                old(self)@,
                user_id,
                key_id,
                final(self)@,
                match r {
                    Some(q) => Some(views(q@)),
                    None => None,
                },
            ),
    {
        let ghost e = self@.users;
        proof {
            lemma_find(e, user_id);
        }
        match users_pop(&mut self.user_caches, user_id) {
            None => None,
            Some(mut cache) => {
                proof {
                    lemma_distinct_remove(e, find(e, user_id));
                    let e2 = e.remove(find(e, user_id));
                    assert forall|k: int| 0 <= k < e2.len() implies (#[trigger] e2[k]).1.wf()
                        && e2[k].1.capacity == self@.max_msgs_per_user by {
                        let k2 = if k < find(e, user_id) { k } else { k + 1 };
                        assert(e2[k] == e[k2]);
                    }
                    assert(cache@ == e[find(e, user_id)].1);
                }
                let r = cache.pop(key_id);
                if !cache.is_empty() {
                    let _ = users_push(&mut self.user_caches, user_id, cache);
                    proof {
                        let e2 = e.remove(find(e, user_id));
                        lemma_find(e2, user_id);
                        assert forall|k: int| 0 <= k < self@.users.len() implies (#[trigger] self@.users[k]).1.wf()
                            && self@.users[k].1.capacity == self@.max_msgs_per_user by {
                            if k > 0 {
                                assert(self@.users[k] == e2[k - 1]);
                            }
                        }
                    }
                }
                r
            },
        }
    }
}

// endregion: The cache of all users

} // verus!
