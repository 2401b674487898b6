use vstd::prelude::*;
use crate::text::same_str;

verus! {

/// How many usernames each cache keeps.
pub const CAPACITY: usize = 1000;

/// How long, in seconds, an entry stays fresh after its last access.
pub const TTL_SECONDS: u64 = 86400;

/// What a request finds in the cache.
#[derive(Clone, Copy, Debug, PartialEq, Eq, Structural)]
pub enum Lookup {
    /// A fresh value is cached: answer with it.
    Hit,
    /// Nothing usable is cached and no computation runs: this caller computes
    /// the value and hands it to `complete`.
    Compute,
    /// Another caller is computing the value: wait for it and look again.
    Wait,
}

/// The cached state of one key.
pub struct CacheEntry<V> {
    pub key: String,
    /// The last computed value, if any.
    pub value: Option<V>,
    /// When the entry was last computed or read, in seconds.
    pub last_access: u64,
    /// A computation of this key runs.
    pub in_flight: bool,
}

/// A cache from usernames to computed values, for at most `capacity` users.
/// An entry stays fresh for `ttl` seconds after its last access, and every
/// read refreshes it; at most one computation per key runs at a time; when a
/// new key comes to a full cache, the least recently used entry leaves.
/// Entries are kept from least to most recently used.
pub struct MemoCache<V> {
    capacity: usize,
    ttl: u64,
    entries: Vec<CacheEntry<V>>,
}

/// `es[i]` is the entry of key `k`.
pub open spec fn key_at<V>(es: Seq<CacheEntry<V>>, k: Seq<char>, i: int) -> bool {
    0 <= i < es.len() && es[i].key@ == k
}

/// No two entries share a key.
pub open spec fn unique_keys<V>(es: Seq<CacheEntry<V>>) -> bool {
    forall|i: int, j: int|
        0 <= i < es.len() && 0 <= j < es.len() && i != j ==> (#[trigger] es[i]).key@
            != (#[trigger] es[j]).key@
}

/// The position of the entry of key `k`, or -1 when there is none.
pub open spec fn find<V>(es: Seq<CacheEntry<V>>, k: Seq<char>) -> int {
    if exists|i: int| key_at(es, k, i) {
        choose|i: int| key_at(es, k, i)
    } else {
        -1
    }
}

/// The value cached for key `k`, if any.
pub open spec fn cached_value<V>(es: Seq<CacheEntry<V>>, k: Seq<char>) -> Option<V> {
    if find(es, k) >= 0 {
        es[find(es, k)].value
    } else {
        None
    }
}

/// An entry last accessed at `last` is fresh at `now`.
pub open spec fn is_fresh(last: u64, now: u64, ttl: u64) -> bool {
    now < last + ttl
}

/// The entries after the new entry `e` comes in: when the cache is full, the
/// least recently used entry leaves first.
pub open spec fn with_new_entry<V>(es: Seq<CacheEntry<V>>, capacity: nat, e: CacheEntry<V>) -> Seq<
    CacheEntry<V>,
> {
    if es.len() >= capacity {
        es.drop_first().push(e)
    } else {
        es.push(e)
    }
}

/// What a request for `key` at `now` finds, and the entries after it.
pub open spec fn lookup_step<V>(
    es: Seq<CacheEntry<V>>,
    capacity: nat,
    ttl: u64,
    key: String,
    now: u64,
) -> (Lookup, Seq<CacheEntry<V>>) {
    let i = find(es, key@);
    if i >= 0 {
        let e = es[i];
        if e.value is Some && is_fresh(e.last_access, now, ttl) {
            (Lookup::Hit, es.remove(i).push(CacheEntry { last_access: now, ..e }))
        } else if e.in_flight {
            (Lookup::Wait, es)
        } else {
            (Lookup::Compute, es.update(i, CacheEntry { in_flight: true, ..e }))
        }
    } else {
        (
            Lookup::Compute,
            with_new_entry(es, capacity, CacheEntry { key, value: None, last_access: now, in_flight: true }),
        )
    }
}

/// The entries after `value` was computed for `key` at `now`.
pub open spec fn complete_step<V>(
    es: Seq<CacheEntry<V>>,
    capacity: nat,
    key: String,
    value: V,
    now: u64,
) -> Seq<CacheEntry<V>> {
    let e = CacheEntry { key, value: Some(value), last_access: now, in_flight: false };
    let i = find(es, key@);
    if i >= 0 {
        es.remove(i).push(e)
    } else {
        with_new_entry(es, capacity, e)
    }
}

/// The entries of a cache of `capacity` keys are well formed.
pub open spec fn entries_wf<V>(es: Seq<CacheEntry<V>>, capacity: nat) -> bool {
    capacity > 0 && es.len() <= capacity && unique_keys(es)
}

proof fn lemma_find_at<V>(es: Seq<CacheEntry<V>>, k: Seq<char>, i: int)
    requires
        unique_keys(es),
        key_at(es, k, i),
    ensures
        find(es, k) == i,
{
    let j = choose|j: int| key_at(es, k, j);
    assert(key_at(es, k, j));
    if j != i {
        assert(es[i].key@ != es[j].key@);
    }
}

proof fn lemma_find_none<V>(es: Seq<CacheEntry<V>>, k: Seq<char>)
    requires
        forall|i: int| 0 <= i < es.len() ==> (#[trigger] es[i]).key@ != k,
    ensures
        find(es, k) == -1,
{
}

proof fn lemma_new_entry_wf<V>(es: Seq<CacheEntry<V>>, capacity: nat, e: CacheEntry<V>)
    requires
        entries_wf(es, capacity),
        find(es, e.key@) == -1,
    ensures
        entries_wf(with_new_entry(es, capacity, e), capacity),
        find(with_new_entry(es, capacity, e), e.key@) == with_new_entry(es, capacity, e).len() - 1,
{
    let r = with_new_entry(es, capacity, e);
    if exists|i: int| key_at(es, e.key@, i) {
        let i = choose|i: int| key_at(es, e.key@, i);
        assert(key_at(es, e.key@, i));
        assert(false);
    }
    assert forall|i: int, j: int|
        0 <= i < r.len() && 0 <= j < r.len() && i != j implies (#[trigger] r[i]).key@
        != (#[trigger] r[j]).key@ by {
        if es.len() >= capacity {
            if i < r.len() - 1 && j < r.len() - 1 {
                assert(r[i] == es[i + 1] && r[j] == es[j + 1]);
            } else if i < r.len() - 1 {
                assert(r[i] == es[i + 1]);
                assert(!key_at(es, e.key@, i + 1));
            } else {
                assert(r[j] == es[j + 1]);
                assert(!key_at(es, e.key@, j + 1));
            }
        } else {
            if i < r.len() - 1 && j < r.len() - 1 {
            } else if i < r.len() - 1 {
                assert(!key_at(es, e.key@, i));
            } else {
                assert(!key_at(es, e.key@, j));
            }
        }
    }
    lemma_find_at(r, e.key@, r.len() - 1);
}

proof fn lemma_move_to_back_wf<V>(es: Seq<CacheEntry<V>>, capacity: nat, i: int, e: CacheEntry<V>)
    requires
        entries_wf(es, capacity),
        0 <= i < es.len(),
        e.key@ == es[i].key@,
    ensures
        entries_wf(es.remove(i).push(e), capacity),
        find(es.remove(i).push(e), e.key@) == es.len() - 1,
{
    let r = es.remove(i).push(e);
    assert forall|a: int, b: int|
        0 <= a < r.len() && 0 <= b < r.len() && a != b implies (#[trigger] r[a]).key@
        != (#[trigger] r[b]).key@ by {
        let ia = if a < i { a } else { a + 1 };
        let ib = if b < i { b } else { b + 1 };
        if a < r.len() - 1 && b < r.len() - 1 {
            assert(r[a] == es[ia] && r[b] == es[ib]);
        } else if a < r.len() - 1 {
            assert(r[a] == es[ia]);
        } else {
            assert(r[b] == es[ib]);
        }
    }
    lemma_find_at(r, e.key@, r.len() - 1);
}

proof fn lemma_update_wf<V>(es: Seq<CacheEntry<V>>, capacity: nat, i: int, e: CacheEntry<V>)
    requires
        entries_wf(es, capacity),
        0 <= i < es.len(),
        e.key@ == es[i].key@,
    ensures
        entries_wf(es.update(i, e), capacity),
        find(es.update(i, e), e.key@) == i,
{
    let r = es.update(i, e);
    assert forall|a: int, b: int|
        0 <= a < r.len() && 0 <= b < r.len() && a != b implies (#[trigger] r[a]).key@
        != (#[trigger] r[b]).key@ by {
        assert(es[a].key@ != es[b].key@);
    }
    lemma_find_at(r, e.key@, i);
}

/// The entries after the computation of `key` was given up: the key is no
/// longer in flight, and the next request for it computes it.
pub open spec fn abandon_step<V>(es: Seq<CacheEntry<V>>, key: Seq<char>) -> Seq<CacheEntry<V>> {
    let i = find(es, key);
    if i >= 0 {
        es.update(i, CacheEntry { in_flight: false, ..es[i] })
    } else {
        es
    }
}

/// Every request keeps the cache well formed.
pub proof fn lemma_lookup_wf<V>(
    es: Seq<CacheEntry<V>>,
    capacity: nat,
    ttl: u64,
    key: String,
    now: u64,
)
    requires
        entries_wf(es, capacity),
    ensures
        entries_wf(lookup_step(es, capacity, ttl, key, now).1, capacity),
        find(lookup_step(es, capacity, ttl, key, now).1, key@) >= 0,
{
    let i = find(es, key@);
    if i >= 0 {
        let e = es[i];
        lemma_find_at(es, key@, choose|j: int| key_at(es, key@, j));
        if e.value is Some && is_fresh(e.last_access, now, ttl) {
            lemma_move_to_back_wf(es, capacity, i, CacheEntry { last_access: now, ..e });
        } else if e.in_flight {
        } else {
            lemma_update_wf(es, capacity, i, CacheEntry { in_flight: true, ..e });
        }
    } else {
        lemma_new_entry_wf(es, capacity, CacheEntry { key, value: None, last_access: now, in_flight: true });
    }
}

/// Storing a computed value keeps the cache well formed, and the value is
/// then what the cache holds for its key.
pub proof fn lemma_complete_wf<V>(
    es: Seq<CacheEntry<V>>,
    capacity: nat,
    key: String,
    value: V,
    now: u64,
)
    requires
        entries_wf(es, capacity),
    ensures
        entries_wf(complete_step(es, capacity, key, value, now), capacity),
        cached_value(complete_step(es, capacity, key, value, now), key@) == Some(value),
{
    let e = CacheEntry { key, value: Some(value), last_access: now, in_flight: false };
    let i = find(es, key@);
    if i >= 0 {
        lemma_find_at(es, key@, choose|j: int| key_at(es, key@, j));
        lemma_move_to_back_wf(es, capacity, i, e);
    } else {
        lemma_new_entry_wf(es, capacity, e);
    }
}

impl<V> MemoCache<V> {
    /// The cache's entries, from least to most recently used.
    pub closed spec fn entries_spec(&self) -> Seq<CacheEntry<V>> {
        self.entries@
    }

    /// How many keys the cache keeps.
    pub closed spec fn capacity_spec(&self) -> nat {
        self.capacity as nat
    }

    /// How long an entry stays fresh after its last access.
    pub closed spec fn ttl_spec(&self) -> u64 {
        self.ttl
    }

    pub open spec fn wf(&self) -> bool {
        entries_wf(self.entries_spec(), self.capacity_spec())
    }

    /// An empty cache for `capacity` keys whose entries stay fresh for `ttl`
    /// seconds after their last access.
    pub fn new(capacity: usize, ttl: u64) -> (r: Self)
        requires
            capacity > 0,
        ensures
            r.wf(),
            r.entries_spec().len() == 0,
            r.capacity_spec() == capacity,
            r.ttl_spec() == ttl,
    {
        MemoCache { capacity, ttl, entries: Vec::new() }
    }

    /// The position of the entry of `key`, if any.
    fn position(&self, key: &String) -> (r: Option<usize>)
        requires
            self.wf(),
        ensures
            match r {
                Some(i) => find(self.entries_spec(), key@) == i,
                None => find(self.entries_spec(), key@) == -1,
            },
    {
        let mut i: usize = 0;
        while i < self.entries.len()
            invariant
                unique_keys(self.entries@),
                i <= self.entries@.len(),
                forall|j: int| 0 <= j < i ==> (#[trigger] self.entries@[j]).key@ != key@,
            decreases self.entries@.len() - i,
        {
            if same_str(self.entries[i].key.as_str(), key.as_str()) {
                proof {
                    lemma_find_at(self.entries@, key@, i as int);
                }
                return Some(i);
            }
            i = i + 1;
        }
        proof {
            lemma_find_none(self.entries@, key@);
        }
        None
    }

    /// Makes room for one new entry: when the cache is full, the least
    /// recently used entry leaves.
    fn push_entry(&mut self, e: CacheEntry<V>)
        requires
            old(self).wf(),
        ensures
            final(self).entries_spec() == with_new_entry(
                old(self).entries_spec(),
                old(self).capacity_spec(),
                e,
            ),
            final(self).capacity_spec() == old(self).capacity_spec(),
            final(self).ttl_spec() == old(self).ttl_spec(),
    {
        if self.entries.len() >= self.capacity {
            let ghost before = self.entries@;
            self.entries.remove(0);
            assert(self.entries@ =~= before.drop_first());
        }
        self.entries.push(e);
    }

    /// Looks `key` up at time `now`. A fresh value is a `Hit` and its entry
    /// is refreshed; a key whose value is being computed is a `Wait`; any
    /// other key becomes in flight, and the caller must compute it.
    pub fn lookup(&mut self, key: &String, now: u64) -> (r: Lookup)
        requires
            old(self).wf(),
        ensures
            final(self).wf(),
            (r, final(self).entries_spec()) == lookup_step(
                old(self).entries_spec(),
                old(self).capacity_spec(),
                old(self).ttl_spec(),
                *key,
                now,
            ),
            final(self).capacity_spec() == old(self).capacity_spec(),
            final(self).ttl_spec() == old(self).ttl_spec(),
    {
        proof {
            lemma_lookup_wf(self.entries@, self.capacity as nat, self.ttl, *key, now);
        }
        match self.position(key) {
            Some(i) => {
                let fresh = now < self.entries[i].last_access || now - self.entries[i].last_access
                    < self.ttl;
                if self.entries[i].value.is_some() && fresh {
                    let mut e = self.entries.remove(i);
                    e.last_access = now;
                    self.entries.push(e);
                    Lookup::Hit
                } else if self.entries[i].in_flight {
                    Lookup::Wait
                } else {
                    let ghost before = self.entries@;
                    let mut e = self.entries.remove(i);
                    e.in_flight = true;
                    self.entries.insert(i, e);
                    assert(self.entries@ =~= before.update(i as int, CacheEntry { in_flight: true, ..before[i as int] }));
                    Lookup::Compute
                }
            },
            None => {
                self.push_entry(
                    CacheEntry { key: key.clone(), value: None, last_access: now, in_flight: true },
                );
                Lookup::Compute
            },
        }
    }

    /// Stores `value`, computed for `key`, at time `now`; the entry is then
    /// fresh and no longer in flight.
    pub fn complete(&mut self, key: &String, value: V, now: u64)
        requires
            old(self).wf(),
        ensures
            final(self).wf(),
            final(self).entries_spec() == complete_step(
                old(self).entries_spec(),
                old(self).capacity_spec(),
                *key,
                value,
                now,
            ),
            cached_value(final(self).entries_spec(), key@) == Some(value),
            final(self).capacity_spec() == old(self).capacity_spec(),
            final(self).ttl_spec() == old(self).ttl_spec(),
    {
        proof {
            lemma_complete_wf(self.entries@, self.capacity as nat, *key, value, now);
        }
        let e = CacheEntry { key: key.clone(), value: Some(value), last_access: now, in_flight: false };
        match self.position(key) {
            Some(i) => {
                self.entries.remove(i);
                self.entries.push(e);
            },
            None => {
                self.push_entry(e);
            },
        }
    }

    /// Gives up the computation of `key`, whose caller will not complete it:
    /// the next request for `key` computes it afresh, unless a fresh value
    /// is cached.
    pub fn abandon(&mut self, key: &String)
        requires
            old(self).wf(),
        ensures
            final(self).wf(),
            final(self).entries_spec() == abandon_step(old(self).entries_spec(), key@),
            final(self).capacity_spec() == old(self).capacity_spec(),
            final(self).ttl_spec() == old(self).ttl_spec(),
    {
        match self.position(key) {
            Some(i) => {
                let ghost before = self.entries@;
                proof {
                    lemma_update_wf(before, self.capacity as nat, i as int, CacheEntry { in_flight: false, ..before[i as int] });
                }
                let mut e = self.entries.remove(i);
                e.in_flight = false;
                self.entries.insert(i, e);
                assert(self.entries@ =~= before.update(i as int, CacheEntry { in_flight: false, ..before[i as int] }));
            },
            None => {},
        }
    }

    /// The value cached for `key`, fresh or not.
    pub fn value(&self, key: &String) -> (r: Option<&V>)
        requires
            self.wf(),
        ensures
            match r {
                Some(v) => cached_value(self.entries_spec(), key@) == Some(*v),
                None => cached_value(self.entries_spec(), key@) is None,
            },
    {
        match self.position(key) {
            Some(i) => match &self.entries[i].value {
                Some(v) => Some(v),
                None => None,
            },
            None => None,
        }
    }

    /// The number of keys the cache holds.
    pub fn len(&self) -> (r: usize)
        ensures
            r == self.entries_spec().len(),
    {
        self.entries.len()
    }
}

/// Within the time to live, a request that follows a computation is a hit
/// and finds the computed value: no second computation runs.
pub proof fn lemma_hit_within_ttl<V>(
    es: Seq<CacheEntry<V>>,
    capacity: nat,
    ttl: u64,
    key: String,
    value: V,
    computed_at: u64,
    now: u64,
)
    requires
        entries_wf(es, capacity),
        computed_at <= now < computed_at + ttl,
    ensures
        ({
            let stored = complete_step(es, capacity, key, value, computed_at);
            let (found, after) = lookup_step(stored, capacity, ttl, key, now);
            found == Lookup::Hit && cached_value(after, key@) == Some(value)
        }),
{
    let stored = complete_step(es, capacity, key, value, computed_at);
    lemma_complete_wf(es, capacity, key, value, computed_at);
    lemma_lookup_wf(stored, capacity, ttl, key, now);
    let i = find(stored, key@);
    lemma_find_at(stored, key@, choose|j: int| key_at(stored, key@, j));
    let e = stored[i];
    lemma_find_at(
        stored.remove(i).push(CacheEntry { last_access: now, ..e }),
        key@,
        stored.len() - 1,
    );
}

/// Every hit refreshes its entry: a second request within the time to live
/// of the first is a hit again and finds the same value.
pub proof fn lemma_hit_refreshes<V>(
    es: Seq<CacheEntry<V>>,
    capacity: nat,
    ttl: u64,
    key: String,
    first: u64,
    second: u64,
)
    requires
        entries_wf(es, capacity),
        lookup_step(es, capacity, ttl, key, first).0 == Lookup::Hit,
        first <= second < first + ttl,
    ensures
        ({
            let after_first = lookup_step(es, capacity, ttl, key, first).1;
            let (found, after_second) = lookup_step(after_first, capacity, ttl, key, second);
            found == Lookup::Hit && cached_value(after_second, key@) == cached_value(es, key@)
                && cached_value(after_first, key@) == cached_value(es, key@)
        }),
{
    let i = find(es, key@);
    lemma_find_at(es, key@, choose|j: int| key_at(es, key@, j));
    let e = es[i];
    let a1 = lookup_step(es, capacity, ttl, key, first).1;
    lemma_lookup_wf(es, capacity, ttl, key, first);
    lemma_find_at(a1, key@, es.len() - 1);
    let e1 = a1[es.len() - 1];
    let a2 = a1.remove(es.len() - 1).push(CacheEntry { last_access: second, ..e1 });
    lemma_lookup_wf(a1, capacity, ttl, key, second);
    lemma_find_at(a2, key@, es.len() - 1);
}

/// Single flight: once a request has started the computation of a key, every
/// later request for it, at any later time and however many there are,
/// waits and leaves the cache as it is, until the value is stored.
pub proof fn lemma_single_flight<V>(
    es: Seq<CacheEntry<V>>,
    capacity: nat,
    ttl: u64,
    key: String,
    started: u64,
    now: u64,
)
    requires
        entries_wf(es, capacity),
        lookup_step(es, capacity, ttl, key, started).0 == Lookup::Compute,
        started <= now,
    ensures
        ({
            let computing = lookup_step(es, capacity, ttl, key, started).1;
            lookup_step(computing, capacity, ttl, key, now) == (Lookup::Wait, computing)
        }),
{
    let computing = lookup_step(es, capacity, ttl, key, started).1;
    lemma_lookup_wf(es, capacity, ttl, key, started);
    let i = find(es, key@);
    if i >= 0 {
        lemma_find_at(es, key@, choose|j: int| key_at(es, key@, j));
        lemma_find_at(computing, key@, i);
    } else {
        lemma_find_at(computing, key@, computing.len() - 1);
    }
}

/// A computation that was given up does not block the key: the next request
/// that finds no fresh value computes it.
pub proof fn lemma_abandon_unblocks<V>(
    es: Seq<CacheEntry<V>>,
    capacity: nat,
    ttl: u64,
    key: String,
    now: u64,
)
    requires
        entries_wf(es, capacity),
        !(cached_value(es, key@) is Some && is_fresh(es[find(es, key@)].last_access, now, ttl)),
    ensures
        lookup_step(abandon_step(es, key@), capacity, ttl, key, now).0 == Lookup::Compute,
{
    let i = find(es, key@);
    if i >= 0 {
        lemma_find_at(es, key@, choose|j: int| key_at(es, key@, j));
        lemma_update_wf(es, capacity, i, CacheEntry { in_flight: false, ..es[i] });
    }
}

/// The callers that waited find the computed value: after the computation
/// is stored, a request within the time to live is a hit on it.
pub proof fn lemma_waiters_receive_value<V>(
    es: Seq<CacheEntry<V>>,
    capacity: nat,
    ttl: u64,
    key: String,
    started: u64,
    value: V,
    computed_at: u64,
    now: u64,
)
    requires
        entries_wf(es, capacity),
        lookup_step(es, capacity, ttl, key, started).0 == Lookup::Compute,
        computed_at <= now < computed_at + ttl,
    ensures
        ({
            let computing = lookup_step(es, capacity, ttl, key, started).1;
            let stored = complete_step(computing, capacity, key, value, computed_at);
            let (found, after) = lookup_step(stored, capacity, ttl, key, now);
            found == Lookup::Hit && cached_value(after, key@) == Some(value)
        }),
{
    let computing = lookup_step(es, capacity, ttl, key, started).1;
    lemma_lookup_wf(es, capacity, ttl, key, started);
    lemma_hit_within_ttl(computing, capacity, ttl, key, value, computed_at, now);
}

} // verus!
