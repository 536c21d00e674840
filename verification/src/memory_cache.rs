//! A bounded in-process cache keyed by 128-bit identifiers. Each entry lives
//! for the policy's time-to-live from its insertion; the cache holds at most
//! the policy's number of entries and total weight, and makes room by
//! evicting the oldest insertions first. The caller supplies the clock, as
//! milliseconds of a monotonic time, and the weight of each entry.

use vstd::prelude::*;

verus! {

/// The limits of an in-process cache.
#[derive(Clone, Copy, Debug)]
pub struct MemoryCachePolicy {
    /// The most entries held at once.
    pub max_entries: u64,
    /// The most total weight, in bytes, held at once.
    pub max_weight_bytes: u64,
    /// How long an entry answers lookups after its insertion, in milliseconds.
    pub time_to_live_millis: u64,
}

impl MemoryCachePolicy {
    pub fn new(max_entries: u64, max_weight_bytes: u64, time_to_live_millis: u64) -> (r: Self)
        ensures
            r == (MemoryCachePolicy { max_entries, max_weight_bytes, time_to_live_millis }),
    {
        MemoryCachePolicy { max_entries, max_weight_bytes, time_to_live_millis }
    }
}

/// The abstract content of one cache entry.
pub struct CacheEntryView<T> {
    pub key: u128,
    pub value: T,
    pub inserted_at_millis: u64,
    pub weight: u32,
}

/// The sum of the entries' weights.
pub open spec fn total_weight<T>(s: Seq<CacheEntryView<T>>) -> int
    decreases s.len(),
{
    if s.len() == 0 {
        0
    } else {
        s[0].weight + total_weight(s.drop_first())
    }
}

/// No key occurs twice.
pub open spec fn keys_distinct<T>(s: Seq<CacheEntryView<T>>) -> bool {
    forall|i: int, j: int| 0 <= i < j < s.len() ==> #[trigger] s[i].key != #[trigger] s[j].key
}

/// The first entry stored under `key`, if any.
pub open spec fn entry_for<T>(s: Seq<CacheEntryView<T>>, key: u128) -> Option<CacheEntryView<T>>
    decreases s.len(),
{
    if s.len() == 0 {
        None
    } else if s[0].key == key {
        Some(s[0])
    } else {
        entry_for(s.drop_first(), key)
    }
}

/// The entries without those stored under `key`, in the same order.
pub open spec fn without_key<T>(s: Seq<CacheEntryView<T>>, key: u128) -> Seq<CacheEntryView<T>>
    decreases s.len(),
{
    if s.len() == 0 {
        s
    } else if s[0].key == key {
        without_key(s.drop_first(), key)
    } else {
        seq![s[0]] + without_key(s.drop_first(), key)
    }
}

/// Whether an entry still answers lookups at time `now`.
pub open spec fn is_fresh<T>(e: CacheEntryView<T>, now: u64, policy: MemoryCachePolicy) -> bool {
    now < e.inserted_at_millis + policy.time_to_live_millis
}

/// What a lookup of `key` at time `now` answers.
pub open spec fn cached_value<T>(s: Seq<CacheEntryView<T>>, key: u128, now: u64, policy: MemoryCachePolicy) -> Option<T> {
    match entry_for(s, key) {
        Some(e) => if is_fresh(e, now, policy) {
            Some(e.value)
        } else {
            None
        },
        None => None,
    }
}

/// Whether the entries exceed the entry count or the total weight of the policy.
pub open spec fn over_budget<T>(s: Seq<CacheEntryView<T>>, policy: MemoryCachePolicy) -> bool {
    s.len() > policy.max_entries || total_weight(s) > policy.max_weight_bytes
}

/// The entries after evicting the oldest insertions until they fit the policy.
pub open spec fn evict_oldest<T>(s: Seq<CacheEntryView<T>>, policy: MemoryCachePolicy) -> Seq<CacheEntryView<T>>
    decreases s.len(),
{
    if s.len() > 0 && over_budget(s, policy) {
        evict_oldest(s.drop_first(), policy)
    } else {
        s
    }
}

/// Whether an entry of this weight can be held at all.
pub open spec fn admits(policy: MemoryCachePolicy, weight: u32) -> bool {
    policy.max_entries >= 1 && weight <= policy.max_weight_bytes
}

/// The entries after inserting `value` under `key` at time `now`: an earlier
/// entry under `key` is replaced; the new entry is the newest insertion, and
/// the oldest insertions are evicted until the entries fit the policy. An
/// entry that could never fit is not stored (the earlier one is still gone).
pub open spec fn after_insert<T>(
    s: Seq<CacheEntryView<T>>,
    policy: MemoryCachePolicy,
    key: u128,
    value: T,
    now: u64,
    weight: u32,
) -> Seq<CacheEntryView<T>> {
    let rest = without_key(s, key);
    if admits(policy, weight) {
        evict_oldest(rest.push(CacheEntryView { key, value, inserted_at_millis: now, weight }), policy)
    } else {
        rest
    }
}

/// Whether the entries respect the policy: distinct keys, and no more
/// entries or total weight than it allows.
pub open spec fn within_budget<T>(s: Seq<CacheEntryView<T>>, policy: MemoryCachePolicy) -> bool {
    &&& keys_distinct(s)
    &&& s.len() <= policy.max_entries
    &&& total_weight(s) <= policy.max_weight_bytes
}

// ------------------------------------------------------------------ lemmas

pub proof fn lemma_total_weight_nonneg<T>(s: Seq<CacheEntryView<T>>)
    ensures
        total_weight(s) >= 0,
    decreases s.len(),
{
    if s.len() > 0 {
        lemma_total_weight_nonneg(s.drop_first());
    }
}

pub proof fn lemma_total_weight_push<T>(s: Seq<CacheEntryView<T>>, e: CacheEntryView<T>)
    ensures
        total_weight(s.push(e)) == total_weight(s) + e.weight,
    decreases s.len(),
{
    if s.len() == 0 {
        assert(s.push(e).drop_first() =~= s);
    } else {
        assert(s.push(e).drop_first() =~= s.drop_first().push(e));
        lemma_total_weight_push(s.drop_first(), e);
    }
}

pub proof fn lemma_total_weight_remove<T>(s: Seq<CacheEntryView<T>>, i: int)
    requires
        0 <= i < s.len(),
    ensures
        total_weight(s.remove(i)) == total_weight(s) - s[i].weight,
    decreases s.len(),
{
    if i == 0 {
        assert(s.remove(i) =~= s.drop_first());
    } else {
        assert(s.remove(i).drop_first() =~= s.drop_first().remove(i - 1));
        lemma_total_weight_remove(s.drop_first(), i - 1);
    }
}

pub proof fn lemma_without_absent<T>(s: Seq<CacheEntryView<T>>, key: u128)
    requires
        forall|j: int| 0 <= j < s.len() ==> (#[trigger] s[j]).key != key,
    ensures
        without_key(s, key) == s,
    decreases s.len(),
{
    if s.len() > 0 {
        lemma_without_absent(s.drop_first(), key);
        assert(seq![s[0]] + s.drop_first() =~= s);
    }
}

pub proof fn lemma_without_at<T>(s: Seq<CacheEntryView<T>>, i: int, key: u128)
    requires
        keys_distinct(s),
        0 <= i < s.len(),
        s[i].key == key,
    ensures
        without_key(s, key) == s.remove(i),
    decreases s.len(),
{
    if i == 0 {
        assert forall|j: int| 0 <= j < s.drop_first().len() implies (#[trigger] s.drop_first()[j]).key != key by {
            assert(s[0].key != s[j + 1].key);
        }
        lemma_without_absent(s.drop_first(), key);
        assert(s.remove(0) =~= s.drop_first());
    } else {
        assert(s[0].key != s[i].key);
        assert(keys_distinct(s.drop_first())) by {
            assert forall|a: int, b: int| 0 <= a < b < s.drop_first().len() implies
                #[trigger] s.drop_first()[a].key != #[trigger] s.drop_first()[b].key by {
                assert(s[a + 1].key != s[b + 1].key);
            }
        }
        lemma_without_at(s.drop_first(), i - 1, key);
        assert(seq![s[0]] + s.drop_first().remove(i - 1) =~= s.remove(i));
    }
}

pub proof fn lemma_entry_for_at<T>(s: Seq<CacheEntryView<T>>, i: int, key: u128)
    requires
        0 <= i < s.len(),
        s[i].key == key,
        forall|j: int| 0 <= j < i ==> (#[trigger] s[j]).key != key,
    ensures
        entry_for(s, key) == Some(s[i]),
    decreases s.len(),
{
    if i > 0 {
        assert(s[0].key != key);
        assert forall|j: int| 0 <= j < i - 1 implies (#[trigger] s.drop_first()[j]).key != key by {
            assert(s[j + 1].key != key);
        }
        lemma_entry_for_at(s.drop_first(), i - 1, key);
    }
}

pub proof fn lemma_entry_for_absent<T>(s: Seq<CacheEntryView<T>>, key: u128)
    requires
        forall|j: int| 0 <= j < s.len() ==> (#[trigger] s[j]).key != key,
    ensures
        entry_for(s, key) is None,
    decreases s.len(),
{
    if s.len() > 0 {
        assert forall|j: int| 0 <= j < s.drop_first().len() implies (#[trigger] s.drop_first()[j]).key != key by {
            assert(s[j + 1].key != key);
        }
        lemma_entry_for_absent(s.drop_first(), key);
    }
}

/// Where the entry that a lookup finds stands.
pub proof fn lemma_entry_for_found<T>(s: Seq<CacheEntryView<T>>, key: u128)
    ensures
        match entry_for(s, key) {
            Some(x) => exists|i: int| 0 <= i < s.len() && s[i] == x && x.key == key
                && forall|j: int| 0 <= j < i ==> (#[trigger] s[j]).key != key,
            None => forall|j: int| 0 <= j < s.len() ==> (#[trigger] s[j]).key != key,
        },
    decreases s.len(),
{
    if s.len() > 0 {
        lemma_entry_for_found(s.drop_first(), key);
        if s[0].key != key {
            match entry_for(s.drop_first(), key) {
                Some(x) => {
                    let i = choose|i: int| 0 <= i < s.drop_first().len() && s.drop_first()[i] == x && x.key == key
                        && forall|j: int| 0 <= j < i ==> (#[trigger] s.drop_first()[j]).key != key;
                    assert(s[i + 1] == x);
                    assert forall|j: int| 0 <= j < i + 1 implies (#[trigger] s[j]).key != key by {
                        if j > 0 {
                            assert(s[j] == s.drop_first()[j - 1]);
                        }
                    }
                },
                None => {
                    assert forall|j: int| 0 <= j < s.len() implies (#[trigger] s[j]).key != key by {
                        if j > 0 {
                            assert(s[j] == s.drop_first()[j - 1]);
                        }
                    }
                },
            }
        }
    }
}

pub proof fn lemma_entry_for_without<T>(s: Seq<CacheEntryView<T>>, key: u128, other: u128)
    ensures
        entry_for(without_key(s, key), key) is None,
        other != key ==> entry_for(without_key(s, key), other) == entry_for(s, other),
    decreases s.len(),
{
    if s.len() > 0 {
        lemma_entry_for_without(s.drop_first(), key, other);
        if s[0].key != key {
            let w = seq![s[0]] + without_key(s.drop_first(), key);
            assert(w.drop_first() =~= without_key(s.drop_first(), key));
        }
    }
}

pub proof fn lemma_entry_for_push<T>(s: Seq<CacheEntryView<T>>, e: CacheEntryView<T>, other: u128)
    requires
        other != e.key,
    ensures
        entry_for(s.push(e), other) == entry_for(s, other),
    decreases s.len(),
{
    if s.len() == 0 {
        assert(s.push(e).drop_first() =~= s);
    } else {
        assert(s.push(e).drop_first() =~= s.drop_first().push(e));
        lemma_entry_for_push(s.drop_first(), e, other);
    }
}

/// Eviction keeps a suffix of the entries: it only drops the oldest ones.
pub proof fn lemma_evict_suffix<T>(s: Seq<CacheEntryView<T>>, policy: MemoryCachePolicy) -> (d: int)
    ensures
        0 <= d <= s.len(),
        evict_oldest(s, policy) == s.subrange(d, s.len() as int),
    decreases s.len(),
{
    if s.len() > 0 && over_budget(s, policy) {
        let d1 = lemma_evict_suffix(s.drop_first(), policy);
        assert(s.drop_first().subrange(d1, s.drop_first().len() as int) =~= s.subrange(d1 + 1, s.len() as int));
        d1 + 1
    } else {
        assert(s.subrange(0, s.len() as int) =~= s);
        0
    }
}

/// Eviction ends with entries that fit the policy.
pub proof fn lemma_evict_fits<T>(s: Seq<CacheEntryView<T>>, policy: MemoryCachePolicy)
    ensures
        !over_budget(evict_oldest(s, policy), policy),
    decreases s.len(),
{
    if s.len() > 0 && over_budget(s, policy) {
        lemma_evict_fits(s.drop_first(), policy);
    }
}

/// An admitted newest entry survives the eviction it triggers.
pub proof fn lemma_evict_keeps_newest<T>(s: Seq<CacheEntryView<T>>, policy: MemoryCachePolicy)
    requires
        s.len() >= 1,
        admits(policy, s.last().weight),
    ensures
        evict_oldest(s, policy).len() >= 1,
        evict_oldest(s, policy).last() == s.last(),
    decreases s.len(),
{
    if s.len() > 0 && over_budget(s, policy) {
        if s.len() == 1 {
            assert(s.drop_first().len() == 0);
            assert(total_weight(s.drop_first()) == 0);
            assert(total_weight(s) == s[0].weight);
        } else {
            assert(s.drop_first().last() == s.last());
            lemma_evict_keeps_newest(s.drop_first(), policy);
        }
    }
}

/// A distinct-keyed sequence keeps distinct keys in any suffix, and a lookup in
/// the suffix either finds nothing or finds what the whole sequence gives.
pub proof fn lemma_entry_for_suffix<T>(s: Seq<CacheEntryView<T>>, d: int, key: u128)
    requires
        keys_distinct(s),
        0 <= d <= s.len(),
    ensures
        keys_distinct(s.subrange(d, s.len() as int)),
        entry_for(s.subrange(d, s.len() as int), key) is None
            || entry_for(s.subrange(d, s.len() as int), key) == entry_for(s, key),
{
    let t = s.subrange(d, s.len() as int);
    assert forall|a: int, b: int| 0 <= a < b < t.len() implies #[trigger] t[a].key != #[trigger] t[b].key by {
        assert(s[a + d].key != s[b + d].key);
    }
    lemma_entry_for_found(t, key);
    match entry_for(t, key) {
        Some(x) => {
            let i = choose|i: int| 0 <= i < t.len() && t[i] == x && x.key == key
                && forall|j: int| 0 <= j < i ==> (#[trigger] t[j]).key != key;
            assert forall|j: int| 0 <= j < i + d implies (#[trigger] s[j]).key != key by {
                assert(s[j].key != s[i + d].key);
            }
            lemma_entry_for_at(s, i + d, key);
        },
        None => {},
    }
}

// --------------------------------------------------------------- the cache

struct CacheEntry<V> {
    key: u128,
    value: V,
    inserted_at_millis: u64,
    weight: u32,
}

spec fn entry_view<V: View>(e: CacheEntry<V>) -> CacheEntryView<V::V> {
    CacheEntryView { key: e.key, value: e.value@, inserted_at_millis: e.inserted_at_millis, weight: e.weight }
}

spec fn entry_views<V: View>(s: Seq<CacheEntry<V>>) -> Seq<CacheEntryView<V::V>> {
    s.map_values(|e: CacheEntry<V>| entry_view(e))
}

/// A bounded in-process cache; its view is its entries, oldest insertion first.
pub struct MemoryCache<V> {
    policy: MemoryCachePolicy,
    entries: Vec<CacheEntry<V>>,
    total_weight: u128,
}

impl<V: View> View for MemoryCache<V> {
    type V = Seq<CacheEntryView<V::V>>;

    closed spec fn view(&self) -> Seq<CacheEntryView<V::V>> {
        entry_views(self.entries@)
    }
}

impl<V: View> MemoryCache<V> {
    pub closed spec fn spec_policy(&self) -> MemoryCachePolicy {
        self.policy
    }

    /// The cache's bookkeeping is consistent and its entries respect its policy.
    pub closed spec fn wf(&self) -> bool {
        &&& within_budget(self@, self.policy)
        &&& self.total_weight == total_weight(self@)
    }

    /// An empty cache with the given limits.
    pub fn new(policy: MemoryCachePolicy) -> (r: Self)
        ensures
            r.wf(),
            r@ == Seq::<CacheEntryView<V::V>>::empty(),
            r.spec_policy() == policy,
    {
        let r = MemoryCache { policy, entries: Vec::new(), total_weight: 0 };
        assert(r@ =~= Seq::<CacheEntryView<V::V>>::empty());
        r
    }

    pub fn policy(&self) -> (r: MemoryCachePolicy)
        ensures
            r == self.spec_policy(),
    {
        self.policy
    }

    /// The position of the entry stored under `key`, if any.
    fn position(&self, key: u128) -> (r: Option<usize>)
        ensures
            match r {
                Some(i) => i < self@.len() && self@[i as int].key == key
                    && forall|j: int| 0 <= j < i ==> (#[trigger] self@[j]).key != key,
                None => forall|j: int| 0 <= j < self@.len() ==> (#[trigger] self@[j]).key != key,
            },
    {
        let mut i: usize = 0;
        while i < self.entries.len()
            invariant
                0 <= i <= self.entries@.len(),
                self@.len() == self.entries@.len(),
                forall|j: int| 0 <= j < i ==> (#[trigger] self@[j]).key != key,
            decreases self.entries@.len() - i,
        {
            assert(self@[i as int] == entry_view(self.entries@[i as int]));
            if self.entries[i].key == key {
                return Some(i);
            }
            i = i + 1;
        }
        None
    }

    /// The value a lookup of `key` at time `now` answers: the entry stored
    /// under `key` while it is fresh; an expired or absent entry is a miss.
    pub fn get(&self, key: u128, now: u64) -> (r: Option<&V>)
        ensures
            match cached_value(self@, key, now, self.spec_policy()) {
                Some(v) => r matches Some(x) && x@ == v,
                None => r is None,
            },
    {
        match self.position(key) {
            Some(i) => {
                proof {
                    lemma_entry_for_at(self@, i as int, key);
                }
                let e = &self.entries[i];
                assert(self@[i as int] == entry_view(self.entries@[i as int]));
                if (now as u128) < (e.inserted_at_millis as u128) + (self.policy.time_to_live_millis as u128) {
                    Some(&e.value)
                } else {
                    None
                }
            },
            None => {
                proof {
                    lemma_entry_for_absent(self@, key);
                }
                None
            },
        }
    }

    /// Forgets the entry stored under `key`.
    pub fn invalidate(&mut self, key: u128)
        requires
            old(self).wf(),
        ensures
            final(self).wf(),
            final(self)@ == without_key(old(self)@, key),
            final(self).spec_policy() == old(self).spec_policy(),
    {
        match self.position(key) {
            Some(i) => {
                let ghost before = self@;
                proof {
                    lemma_without_at(before, i as int, key);
                    lemma_total_weight_remove(before, i as int);
                    lemma_total_weight_nonneg(before.remove(i as int));
                }
                let removed = self.entries.remove(i);
                assert(self@ =~= before.remove(i as int));
                assert(before[i as int] == entry_view(removed));
                self.total_weight = self.total_weight - removed.weight as u128;
                proof {
                    let after = before.remove(i as int);
                    assert forall|a: int, b: int| 0 <= a < b < after.len() implies
                        #[trigger] after[a].key != #[trigger] after[b].key by {
                        let a0 = if a < i { a } else { a + 1 };
                        let b0 = if b < i { b } else { b + 1 };
                        assert(before[a0].key != before[b0].key);
                    }
                }
            },
            None => {
                proof {
                    lemma_without_absent(self@, key);
                }
            },
        }
    }

    /// Stores `value` under `key` at time `now`, with the weight the caller
    /// measured; see `after_insert`.
    pub fn insert(&mut self, key: u128, value: V, now: u64, weight: u32)
        requires
            old(self).wf(),
        ensures
            final(self).wf(),
            final(self)@ == after_insert(old(self)@, old(self).spec_policy(), key, value@, now, weight),
            final(self).spec_policy() == old(self).spec_policy(),
    {
        self.invalidate(key);
        let ghost rest = self@;
        proof {
            lemma_entry_for_without(old(self)@, key, key);
            lemma_entry_for_found(rest, key);
        }
        if self.policy.max_entries < 1 || weight as u64 > self.policy.max_weight_bytes {
            return;
        }
        let ghost e = CacheEntryView { key, value: value@, inserted_at_millis: now, weight };
        let ghost pushed = rest.push(e);
        self.entries.push(CacheEntry { key, value, inserted_at_millis: now, weight });
        assert(self@ =~= pushed);
        proof {
            lemma_total_weight_push(rest, e);
            assert forall|a: int, b: int| 0 <= a < b < pushed.len() implies
                #[trigger] pushed[a].key != #[trigger] pushed[b].key by {
                if b == pushed.len() - 1 {
                    assert(pushed[a] == rest[a]);
                }
            }
        }
        self.total_weight = self.total_weight + weight as u128;
        while self.entries.len() as u64 > self.policy.max_entries || self.total_weight > self.policy.max_weight_bytes as u128
            invariant
                self.policy == old(self).spec_policy(),
                admits(self.policy, weight),
                self@.len() >= 1,
                self@.last() == e,
                e.weight == weight,
                keys_distinct(self@),
                self.total_weight == total_weight(self@),
                evict_oldest(self@, self.policy) == evict_oldest(pushed, self.policy),
            decreases self@.len(),
        {
            let ghost before = self@;
            proof {
                if before.len() == 1 {
                    assert(before.drop_first().len() == 0);
                    assert(total_weight(before.drop_first()) == 0);
                    assert(total_weight(before) == before[0].weight);
                    assert(before[0] == e);
                    assert(self.entries@.len() == 1);
                    assert(false);
                }
                lemma_total_weight_remove(before, 0);
                lemma_total_weight_nonneg(before.remove(0));
            }
            let removed = self.entries.remove(0);
            assert(self@ =~= before.drop_first());
            assert(before[0] == entry_view(removed));
            self.total_weight = self.total_weight - removed.weight as u128;
            proof {
                assert(before.remove(0) =~= before.drop_first());
                assert forall|a: int, b: int| 0 <= a < b < self@.len() implies
                    #[trigger] self@[a].key != #[trigger] self@[b].key by {
                    assert(before[a + 1].key != before[b + 1].key);
                }
            }
        }
    }
}

/// An in-process cache never holds more entries or more total weight than
/// its policy allows, and never two entries under one key.
pub proof fn lemma_cache_stays_within_budget<V: View>(cache: &MemoryCache<V>)
    requires
        cache.wf(),
    ensures
        within_budget(cache@, cache.spec_policy()),
{
}

/// A value inserted into an in-process cache answers every lookup of its key
/// until its time-to-live runs out, and none after; an entry that could never
/// fit the policy is not stored.
pub proof fn lemma_inserted_value_lives_for_its_ttl<T>(
    s: Seq<CacheEntryView<T>>,
    policy: MemoryCachePolicy,
    key: u128,
    value: T,
    now: u64,
    weight: u32,
    later: u64,
)
    ensures
        admits(policy, weight) && later < now + policy.time_to_live_millis
            ==> cached_value(after_insert(s, policy, key, value, now, weight), key, later, policy) == Some(value),
        later >= now + policy.time_to_live_millis
            ==> cached_value(after_insert(s, policy, key, value, now, weight), key, later, policy) is None,
        !admits(policy, weight) ==> cached_value(after_insert(s, policy, key, value, now, weight), key, later, policy) is None,
{
    let rest = without_key(s, key);
    lemma_entry_for_without(s, key, key);
    lemma_entry_for_found(rest, key);
    if admits(policy, weight) {
        let e = CacheEntryView { key, value, inserted_at_millis: now, weight };
        let pushed = rest.push(e);
        let d = lemma_evict_suffix(pushed, policy);
        lemma_evict_keeps_newest(pushed, policy);
        let r = evict_oldest(pushed, policy);
        assert forall|j: int| 0 <= j < r.len() - 1 implies (#[trigger] r[j]).key != key by {
            assert(r[j] == pushed[j + d]);
            assert(pushed[j + d] == rest[j + d]);
        }
        lemma_entry_for_at(r, r.len() - 1, key);
    }
}

/// Inserting under one key never changes what another key holds: its entry
/// stays as it was, or is evicted to make room.
pub proof fn lemma_insert_keeps_or_evicts_others<T>(
    s: Seq<CacheEntryView<T>>,
    policy: MemoryCachePolicy,
    key: u128,
    value: T,
    now: u64,
    weight: u32,
    other: u128,
)
    requires
        keys_distinct(s),
        other != key,
    ensures
        entry_for(after_insert(s, policy, key, value, now, weight), other) is None
            || entry_for(after_insert(s, policy, key, value, now, weight), other) == entry_for(s, other),
{
    let rest = without_key(s, key);
    lemma_entry_for_without(s, key, other);
    if admits(policy, weight) {
        let e = CacheEntryView { key, value, inserted_at_millis: now, weight };
        let pushed = rest.push(e);
        lemma_entry_for_push(rest, e, other);
        lemma_without_distinct(s, key);
        assert forall|a: int, b: int| 0 <= a < b < pushed.len() implies
            #[trigger] pushed[a].key != #[trigger] pushed[b].key by {
            if b == pushed.len() - 1 {
                lemma_entry_for_without(s, key, key);
                lemma_entry_for_found(rest, key);
                assert(pushed[a] == rest[a]);
            }
        }
        let d = lemma_evict_suffix(pushed, policy);
        lemma_entry_for_suffix(pushed, d, other);
    }
}

/// Removing a key keeps the other keys distinct.
pub proof fn lemma_without_distinct<T>(s: Seq<CacheEntryView<T>>, key: u128)
    requires
        keys_distinct(s),
    ensures
        keys_distinct(without_key(s, key)),
    decreases s.len(),
{
    if s.len() > 0 {
        let t = s.drop_first();
        assert forall|a: int, b: int| 0 <= a < b < t.len() implies #[trigger] t[a].key != #[trigger] t[b].key by {
            assert(s[a + 1].key != s[b + 1].key);
        }
        lemma_without_distinct(t, key);
        if s[0].key != key {
            let w = without_key(t, key);
            let r = seq![s[0]] + w;
            assert forall|b: int| 0 <= b < w.len() implies (#[trigger] w[b]).key != s[0].key by {
                lemma_without_member(t, key, b);
                let k = choose|k: int| 0 <= k < t.len() && t[k] == w[b];
                assert(s[0].key != s[k + 1].key);
            }
            assert forall|a: int, b: int| 0 <= a < b < r.len() implies #[trigger] r[a].key != #[trigger] r[b].key by {
                if a == 0 {
                    assert(r[b] == w[b - 1]);
                } else {
                    assert(r[a] == w[a - 1] && r[b] == w[b - 1]);
                }
            }
        }
    }
}

/// Every entry left after removing a key was an entry before.
pub proof fn lemma_without_member<T>(s: Seq<CacheEntryView<T>>, key: u128, b: int)
    requires
        0 <= b < without_key(s, key).len(),
    ensures
        exists|k: int| 0 <= k < s.len() && s[k] == without_key(s, key)[b],
    decreases s.len(),
{
    if s.len() == 0 {
        assert(without_key(s, key) == s);
    }
    let t = s.drop_first();
    if s[0].key == key {
        lemma_without_member(t, key, b);
        let k = choose|k: int| 0 <= k < t.len() && t[k] == without_key(t, key)[b];
        assert(s[k + 1] == t[k]);
    } else if b == 0 {
        assert(s[0] == without_key(s, key)[0]);
    } else {
        assert(without_key(s, key)[b] == without_key(t, key)[b - 1]);
        lemma_without_member(t, key, b - 1);
        let k = choose|k: int| 0 <= k < t.len() && t[k] == without_key(t, key)[b - 1];
        assert(s[k + 1] == t[k]);
    }
}

} // verus!
