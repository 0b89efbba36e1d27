use vstd::prelude::*;

use crate::text::{
    all_digits, dec_string, dec_value, find_idx, lemma_dec_round_trip, lemma_dec_string_digits,
    lemma_find_idx_concat, find_char, parse_u64, str_eq, u64_to_string,
};
use vstd::string::{StrSliceExecFns, StringExecFns};

verus! {

/// The value a `get` must return, given the stored entry and the current time:
/// a stored value that has not expired, and a miss otherwise.
pub open spec fn fresh_value(entry: Option<(Seq<char>, u64)>, now_secs: u64) -> Option<Seq<char>> {
    match entry {
        Some((data, expires_at)) => if expires_at >= now_secs {
            Some(data)
        } else {
            None
        },
        None => None,
    }
}

/// The expiry time of an entry written at `now_secs` with a time-to-live,
/// saturating at the largest representable time.
pub open spec fn expiry_of(now_secs: u64, ttl_secs: u64) -> u64 {
    if now_secs + ttl_secs > u64::MAX {
        u64::MAX
    } else {
        (now_secs + ttl_secs) as u64
    }
}

/// A cache storage engine with per-entry time-to-live.
///
/// The store is modelled by `lookup`: the value and expiry time held under a
/// key. A `get` on an expired entry behaves as a miss; a `set` overwrites the
/// key and leaves every other key alone; `delete` removes the key. Backends
/// other than the ones of this crate may implement the same contract.
pub trait CacheBackend: Sized {
    /// The entry stored under a key: its data and its expiry time.
    spec fn lookup(&self, key: Seq<char>) -> Option<(Seq<char>, u64)>;

    /// Retrieves the value stored under `key`, unless it has expired.
    fn get(&self, key: &str, now_secs: u64) -> (r: Option<String>)
        ensures
            r.deep_view() == fresh_value(self.lookup(key@), now_secs),
    ;

    /// Stores `value` under `key` for `ttl_secs` seconds.
    fn set(&mut self, key: &str, value: &str, ttl_secs: u64, now_secs: u64) -> (r: Result<
        (),
        String,
    >)
        ensures
            r is Ok ==> final(self).lookup(key@) == Some((value@, expiry_of(now_secs, ttl_secs))),
            r is Ok ==> forall|k: Seq<char>|
                k != key@ ==> final(self).lookup(k) == old(self).lookup(k),
            r is Err ==> forall|k: Seq<char>| final(self).lookup(k) == old(self).lookup(k),
    ;

    /// Removes the value stored under `key`.
    fn delete(&mut self, key: &str) -> (r: Result<(), String>)
        ensures
            r is Ok ==> final(self).lookup(key@) is None,
            r is Ok ==> forall|k: Seq<char>|
                k != key@ ==> final(self).lookup(k) == old(self).lookup(k),
            r is Err ==> forall|k: Seq<char>| final(self).lookup(k) == old(self).lookup(k),
    ;
}

/// What a `set` leaves under its key is returned by a `get` at any time up to
/// the entry's expiry, and is a miss at any later time: over the model every
/// backend contract must satisfy, storing then reading gives the value back,
/// and a read after the time-to-live has elapsed is a miss.
pub proof fn lemma_cache_set_then_get(
    entry: Option<(Seq<char>, u64)>,
    value: Seq<char>,
    set_at: u64,
    ttl_secs: u64,
    now: u64,
)
    requires
        entry == Some((value, expiry_of(set_at, ttl_secs))),
    ensures
        now <= expiry_of(set_at, ttl_secs) ==> fresh_value(entry, now) == Some(value),
        now > expiry_of(set_at, ttl_secs) ==> fresh_value(entry, now) is None,
{
}

/// One stored entry of the in-memory cache.
struct MemEntry {
    key: String,
    data: String,
    expires_at: u64,
}

/// The entry that a sequence of writes leaves under a key: the latest wins.
spec fn lookup_seq(s: Seq<MemEntry>, key: Seq<char>) -> Option<(Seq<char>, u64)>
    decreases s.len(),
{
    if s.len() == 0 {
        None
    } else if s.last().key@ == key {
        Some((s.last().data@, s.last().expires_at))
    } else {
        lookup_seq(s.drop_last(), key)
    }
}

/// An in-memory cache backend.
pub struct MemoryCache {
    entries: Vec<MemEntry>,
}

impl MemoryCache {
    /// Creates an empty in-memory cache.
    pub fn new() -> (c: Self)
        ensures
            forall|k: Seq<char>| c.lookup(k) is None,
    {
        let c = MemoryCache { entries: Vec::new() };
        proof {
            assert(c.entries@.len() == 0);
        }
        c
    }
}

impl CacheBackend for MemoryCache {
    closed spec fn lookup(&self, key: Seq<char>) -> Option<(Seq<char>, u64)> {
        lookup_seq(self.entries@, key)
    }

    fn get(&self, key: &str, now_secs: u64) -> (r: Option<String>) {
        let mut i = self.entries.len();
        assert(self.entries@.subrange(0, self.entries@.len() as int) =~= self.entries@);
        while i > 0
            invariant
                i <= self.entries@.len(),
                lookup_seq(self.entries@, key@) == lookup_seq(
                    self.entries@.subrange(0, i as int),
                    key@,
                ),
            decreases i,
        {
            i = i - 1;
            proof {
                let p = self.entries@.subrange(0, i + 1);
                assert(p.drop_last() =~= self.entries@.subrange(0, i as int));
                assert(p.last() == self.entries@[i as int]);
            }
            let e = &self.entries[i];
            if str_eq(e.key.as_str(), key) {
                if e.expires_at >= now_secs {
                    return Some(e.data.clone());
                } else {
                    return None;
                }
            }
        }
        proof {
            assert(self.entries@.subrange(0, 0).len() == 0);
        }
        None
    }

    fn set(&mut self, key: &str, value: &str, ttl_secs: u64, now_secs: u64) -> (r: Result<
        (),
        String,
    >)
    // an in-memory store has no medium that can fail: success is owed
        ensures
            r is Ok,
    {
        let expires_at = if ttl_secs > u64::MAX - now_secs {
            u64::MAX
        } else {
            now_secs + ttl_secs
        };
        let entry = MemEntry {
            key: key.to_owned(),
            data: value.to_owned(),
            expires_at,
        };
        self.entries.push(entry);
        proof {
            assert(self.entries@.drop_last() =~= old(self).entries@);
            assert forall|k: Seq<char>| k != key@ implies final(self).lookup(k) == old(
                self,
            ).lookup(k) by {
                assert(self.entries@.last().key@ == key@);
            }
        }
        Ok(())
    }

    fn delete(&mut self, key: &str) -> (r: Result<(), String>)
    // deletion always succeeds, also on a key that holds nothing: it is idempotent
        ensures
            r is Ok,
    {
        let n = self.entries.len();
        let mut kept: Vec<MemEntry> = Vec::new();
        let mut i: usize = 0;
        while i < n
            invariant
                n == old(self).entries@.len(),
                self.entries@ == old(self).entries@,
                0 <= i <= n,
                lookup_seq(kept@, key@) is None,
                forall|k: Seq<char>|
                    k != key@ ==> lookup_seq(kept@, k) == lookup_seq(
                        old(self).entries@.subrange(0, i as int),
                        k,
                    ),
            decreases n - i,
        {
            proof {
                let p = old(self).entries@.subrange(0, i + 1);
                assert(p.drop_last() =~= old(self).entries@.subrange(0, i as int));
                assert(p.last() == old(self).entries@[i as int]);
            }
            let e = &self.entries[i];
            if str_eq(e.key.as_str(), key) {
                // the entry under the deleted key is dropped
                proof {
                    assert forall|k: Seq<char>| k != key@ implies lookup_seq(kept@, k)
                        == lookup_seq(old(self).entries@.subrange(0, i + 1), k) by {
                        let p = old(self).entries@.subrange(0, i + 1);
                        assert(p.last().key@ == key@);
                        assert(p.drop_last() =~= old(self).entries@.subrange(0, i as int));
                    }
                }
            } else {
                let ghost kept0 = kept@;
                let copy = MemEntry {
                    key: e.key.clone(),
                    data: e.data.clone(),
                    expires_at: e.expires_at,
                };
                kept.push(copy);
                proof {
                    assert(kept@.drop_last() =~= kept0);
                    assert(kept@.last().key@ == old(self).entries@[i as int].key@);
                    assert(lookup_seq(kept@, key@) is None);
                    assert forall|k: Seq<char>| k != key@ implies lookup_seq(kept@, k)
                        == lookup_seq(old(self).entries@.subrange(0, i + 1), k) by {
                        let p = old(self).entries@.subrange(0, i + 1);
                        assert(p.last() == old(self).entries@[i as int]);
                        assert(p.drop_last() =~= old(self).entries@.subrange(0, i as int));
                        assert(kept@.last().data@ == p.last().data@);
                        assert(kept@.last().expires_at == p.last().expires_at);
                        if k != kept@.last().key@ {
                            assert(lookup_seq(kept@, k) == lookup_seq(kept0, k));
                            assert(lookup_seq(kept0, k) == lookup_seq(
                                old(self).entries@.subrange(0, i as int),
                                k,
                            ));
                            assert(lookup_seq(p, k) == lookup_seq(p.drop_last(), k));
                        }
                    }
                }
            }
            i = i + 1;
        }
        proof {
            assert(old(self).entries@.subrange(0, n as int) =~= old(self).entries@);
        }
        self.entries = kept;
        Ok(())
    }
}

// ---------------------------------------------------------------------------
// File-backed cache: the verified parts
// ---------------------------------------------------------------------------

/// The stored form of one cache entry: the expiry time in decimal digits on
/// the first line, then the data verbatim.
pub open spec fn entry_encoding(data: Seq<char>, expires_at: u64) -> Seq<char> {
    dec_string(expires_at as nat) + seq!['\n'] + data
}

/// Inversion of `entry_encoding`; `None` on anything malformed, so a partial
/// or corrupt record is never taken for a value.
pub open spec fn entry_decoding(s: Seq<char>) -> Option<(Seq<char>, u64)> {
    let k = find_idx(s, '\n');
    let head = s.subrange(0, k);
    if k < s.len() && head.len() > 0 && all_digits(head) && dec_value(head) <= u64::MAX {
        Some((s.subrange(k + 1, s.len() as int), dec_value(head) as u64))
    } else {
        None
    }
}

/// Decoding undoes encoding: every entry written is read back exactly.
pub proof fn lemma_entry_round_trip(data: Seq<char>, expires_at: u64)
    ensures
        entry_decoding(entry_encoding(data, expires_at)) == Some((data, expires_at)),
{
    let head = dec_string(expires_at as nat);
    let s = entry_encoding(data, expires_at);
    lemma_dec_string_digits(expires_at as nat);
    lemma_dec_round_trip(expires_at as nat);
    assert(forall|i: int| 0 <= i < head.len() ==> head[i] != '\n');
    lemma_find_idx_concat(head, '\n', data);
    assert(s.subrange(0, head.len() as int) =~= head);
    assert(s.subrange(head.len() as int + 1, s.len() as int) =~= data);
}

/// A value stored at `now` with a time-to-live is returned by a `get` at any
/// time up to its expiry, and is a miss afterwards.
pub proof fn lemma_entry_freshness(data: Seq<char>, set_at: u64, ttl_secs: u64, now: u64)
    ensures
        now <= expiry_of(set_at, ttl_secs) ==> fresh_value(
            entry_decoding(entry_encoding(data, expiry_of(set_at, ttl_secs))),
            now,
        ) == Some(data),
        now > expiry_of(set_at, ttl_secs) ==> fresh_value(
            entry_decoding(entry_encoding(data, expiry_of(set_at, ttl_secs))),
            now,
        ) is None,
{
    lemma_entry_round_trip(data, expiry_of(set_at, ttl_secs));
}

/// A cache that stores each entry in a file under a key-derived path.
///
/// This type holds the path scheme, the entry framing and the expiry rule;
/// reading, writing and renaming the files themselves is left to the caller,
/// who must write atomically (to a temporary path, then rename into place).
pub struct FileCache {
    /// The directory that holds the entry files.
    pub cache_dir: String,
    /// Optional namespace that isolates concurrent users of a shared cache.
    pub prefix: Option<String>,
}

/// The key under which an entry is stored, namespaced by the optional prefix.
pub open spec fn namespaced_key(prefix: Option<Seq<char>>, key: Seq<char>) -> Seq<char> {
    match prefix {
        Some(p) => p + seq![':'] + key,
        None => key,
    }
}

/// The file path of an entry: directory, slash, namespaced key, extension.
pub open spec fn entry_path(dir: Seq<char>, prefix: Option<Seq<char>>, key: Seq<char>) -> Seq<char> {
    dir + seq!['/'] + namespaced_key(prefix, key) + ".json"@
}

impl FileCache {
    /// Creates a new file-backed cache over the given directory.
    pub fn new(cache_dir: &str) -> (c: Self)
        ensures
            c.cache_dir@ == cache_dir@,
            c.prefix is None,
    {
        FileCache { cache_dir: cache_dir.to_owned(), prefix: None }
    }

    /// Creates a file-backed cache whose keys are namespaced by a prefix.
    pub fn with_prefix(cache_dir: &str, prefix: &str) -> (c: Self)
        ensures
            c.cache_dir@ == cache_dir@,
            c.prefix matches Some(p) && p@ == prefix@,
    {
        FileCache { cache_dir: cache_dir.to_owned(), prefix: Some(prefix.to_owned()) }
    }

    /// The namespaced form of a key.
    pub fn full_key(&self, key: &str) -> (r: String)
        ensures
            r@ == namespaced_key(
                match self.prefix {
                    Some(p) => Some(p@),
                    None => None,
                },
                key@,
            ),
    {
        match &self.prefix {
            Some(p) => {
                let mut s = p.clone();
                s.append(":");
                let r = s.concat(key);
                proof {
                    reveal_strlit(":");
                    assert(r@ =~= p@ + seq![':'] + key@);
                }
                r
            },
            None => key.to_owned(),
        }
    }

    /// The file path that stores the entry of a key.
    pub fn get_path(&self, key: &str) -> (r: String)
        ensures
            r@ == entry_path(
                self.cache_dir@,
                match self.prefix {
                    Some(p) => Some(p@),
                    None => None,
                },
                key@,
            ),
    {
        let mut s = self.cache_dir.clone();
        s.append("/");
        let s2 = s.concat(self.full_key(key).as_str());
        let r = s2.concat(".json");
        proof {
            reveal_strlit("/");
            assert(r@ =~= entry_path(
                self.cache_dir@,
                match self.prefix {
                    Some(p) => Some(p@),
                    None => None,
                },
                key@,
            ));
        }
        r
    }

    /// Renders an entry for storage: expiry time, then the data.
    pub fn encode_entry(data: &str, expires_at: u64) -> (r: String)
        ensures
            r@ == entry_encoding(data@, expires_at),
    {
        let mut s = u64_to_string(expires_at);
        s.append("\n");
        let r = s.concat(data);
        proof {
            reveal_strlit("\n");
            assert(r@ =~= entry_encoding(data@, expires_at));
        }
        r
    }

    /// Reads a stored entry back; `None` on anything malformed.
    pub fn decode_entry(content: &str) -> (r: Option<(String, u64)>)
        ensures
            r matches Some((d, e)) ==> entry_decoding(content@) == Some((d@, e)),
            r is Some <==> entry_decoding(content@) is Some,
    {
        let len = content.unicode_len();
        let k = find_char(content, '\n');
        if k == len {
            return None;
        }
        let head = content.substring_char(0, k);
        assert(head@ =~= content@.subrange(0, k as int));
        let expires_at = match parse_u64(head) {
            Some(e) => e,
            None => {
                return None;
            },
        };
        let data = content.substring_char(k + 1, len);
        assert(data@ =~= content@.subrange(k + 1, content@.len() as int));
        Some((data.to_owned(), expires_at))
    }

    /// The value a stored file content yields at the given time: the data if
    /// the record decodes and has not expired, a miss otherwise.
    pub fn entry_fresh_value(content: &str, now_secs: u64) -> (r: Option<String>)
        ensures
            r.deep_view() == fresh_value(entry_decoding(content@), now_secs),
    {
        match Self::decode_entry(content) {
            Some((data, expires_at)) => {
                if expires_at >= now_secs {
                    Some(data)
                } else {
                    None
                }
            },
            None => None,
        }
    }

    /// The expiry time an entry written now with a time-to-live must carry.
    pub fn expiry_at(now_secs: u64, ttl_secs: u64) -> (r: u64)
        ensures
            r == expiry_of(now_secs, ttl_secs),
    {
        if ttl_secs > u64::MAX - now_secs {
            u64::MAX
        } else {
            now_secs + ttl_secs
        }
    }
}

} // verus!
