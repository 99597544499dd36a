//! A TTL'd metadata cache for the gateway wrapper: each entry holds a value
//! and the time it was fetched, keyed by channel or thread id.  A reader
//! gets the cached value only while it is fresh; once older than the
//! configured TTL it must be fetched again.  The cache is an explicit
//! component, never implicit global state.

use vstd::prelude::*;

verus! {

/// A cached value and when it was fetched, in milliseconds.
pub struct CacheEntry<T> {
    pub value: T,
    pub fetched_at: u64,
}

/// An entry is fresh while it is no older than the TTL.
pub open spec fn spec_fresh<T>(e: CacheEntry<T>, now: u64, ttl: u64) -> bool {
    now as int <= e.fetched_at as int + ttl as int
}

/// The map a cache's entries represent.
pub open spec fn as_map<T>(s: Seq<(String, CacheEntry<T>)>) -> Map<Seq<char>, CacheEntry<T>>
    decreases s.len(),
{
    if s.len() == 0 {
        Map::empty()
    } else {
        as_map(s.drop_last()).insert(s.last().0@, s.last().1)
    }
}

/// Looking a key up in the represented map gives the latest entry stored
/// under it.
proof fn lemma_as_map_last<T>(s: Seq<(String, CacheEntry<T>)>, key: Seq<char>)
    ensures
        as_map(s).contains_key(key) <==> (exists|i: int|
            0 <= i < s.len() && (#[trigger] s[i]).0@ == key),
    decreases s.len(),
{
    if s.len() > 0 {
        lemma_as_map_last(s.drop_last(), key);
        if as_map(s).contains_key(key) {
            if s.last().0@ == key {
                assert(s[s.len() - 1].0@ == key);
            } else {
                let i = choose|i: int| 0 <= i < s.drop_last().len() && (#[trigger] s.drop_last()[i]).0@ == key;
                assert(s[i].0@ == key);
            }
        }
        if exists|i: int| 0 <= i < s.len() && (#[trigger] s[i]).0@ == key {
            let i = choose|i: int| 0 <= i < s.len() && (#[trigger] s[i]).0@ == key;
            if i < s.len() - 1 {
                assert(s.drop_last()[i].0@ == key);
            }
        }
    }
}

/// The cache: an association of keys to timestamped values, with the TTL it
/// was configured with.
pub struct MetadataCache<T> {
    entries: Vec<(String, CacheEntry<T>)>,
    ttl: u64,
}

impl<T> MetadataCache<T> {
    /// The represented map.
    pub closed spec fn view(&self) -> Map<Seq<char>, CacheEntry<T>> {
        as_map(self.entries@)
    }

    /// The configured TTL in milliseconds.
    pub closed spec fn spec_ttl(&self) -> u64 {
        self.ttl
    }

    /// An empty cache with the given TTL.
    pub fn new(ttl_millis: u64) -> (r: MetadataCache<T>)
        ensures
            r@ == Map::<Seq<char>, CacheEntry<T>>::empty(),
            r.spec_ttl() == ttl_millis,
    {
        let r = MetadataCache { entries: Vec::new(), ttl: ttl_millis };
        proof {
            assert(r.entries@.len() == 0);
        }
        r
    }

    /// The configured TTL.
    pub fn ttl_millis(&self) -> (r: u64)
        ensures
            r == self.spec_ttl(),
    {
        self.ttl
    }

    /// Stores a value fetched now under a key, displacing whatever the key
    /// held.
    pub fn put(&mut self, key: String, value: T, now_millis: u64)
        ensures
            final(self)@ == old(self)@.insert(key@, CacheEntry { value, fetched_at: now_millis }),
            final(self).spec_ttl() == old(self).spec_ttl(),
    {
        self.entries.push((key, CacheEntry { value, fetched_at: now_millis }));
        proof {
            assert(self.entries@.drop_last() =~= old(self).entries@);
        }
    }

    /// The value stored under a key, while it is still fresh: present and no
    /// older than the TTL.  A missing or stale entry yields nothing, and the
    /// caller fetches anew.
    pub fn get_fresh(&self, key: &str, now_millis: u64) -> (r: Option<&T>)
        ensures
            match r {
                Some(v) => self@.contains_key(key@) && spec_fresh(
                    self@[key@],
                    now_millis,
                    self.spec_ttl(),
                ) && *v == self@[key@].value,
                None => !self@.contains_key(key@) || !spec_fresh(
                    self@[key@],
                    now_millis,
                    self.spec_ttl(),
                ),
            },
    {
        let mut i = self.entries.len();
        proof {
            lemma_as_map_last(self.entries@, key@);
            assert(self.entries@.subrange(0, self.entries@.len() as int) =~= self.entries@);
        }
        while i > 0
            invariant
                i <= self.entries@.len(),
                forall|k: int| i <= k < self.entries@.len() ==> (#[trigger] self.entries@[k]).0@ != key@,
            decreases i,
        {
            i = i - 1;
            if crate::utils::str_eq(self.entries[i].0.as_str(), key) {
                let entry = &self.entries[i].1;
                proof {
                    lemma_as_map_latest(self.entries@, i as int);
                }
                let fresh = if self.ttl > u64::MAX - entry.fetched_at {
                    true
                } else {
                    now_millis <= entry.fetched_at + self.ttl
                };
                if fresh {
                    return Some(&entry.value);
                } else {
                    return None;
                }
            }
        }
        proof {
            lemma_as_map_last(self.entries@, key@);
        }
        None
    }
}

/// When every later entry has a different key, position `i` holds the
/// entry the represented map stores under its key.
proof fn lemma_as_map_latest<T>(s: Seq<(String, CacheEntry<T>)>, i: int)
    requires
        0 <= i < s.len(),
        forall|k: int| i < k < s.len() ==> (#[trigger] s[k]).0@ != s[i].0@,
    ensures
        as_map(s).contains_key(s[i].0@),
        as_map(s)[s[i].0@] == s[i].1,
    decreases s.len(),
{
    if i == s.len() - 1 {
    } else {
        assert(s.drop_last()[i] == s[i]);
        lemma_as_map_latest(s.drop_last(), i);
        assert(s.last().0@ != s[i].0@);
    }
}

} // verus!
