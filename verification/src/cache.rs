//! The content cache: two bounded least-recently-used stores, one for rendered
//! directory listings and one for file bytes, both keyed by the normalized
//! request location.
//!
//! A store is an `lru::LruCache`. Verus cannot look inside it, so what it holds
//! is named by `entries` (most recently used first) and `capacity`, and the
//! calls into it are stated over those two names. Everything above the calls
//! is proved: that keys stay distinct, that the bound holds, and the laws of
//! lookup, insertion and eviction.

use crate::config::Config;
use vstd::prelude::*;

verus! {

/// `lru::LruCache`, as a type whose inside is not looked at.
#[verifier::external_type_specification]
#[verifier::external_body]
#[verifier::reject_recursive_types(K)]
#[verifier::reject_recursive_types(V)]
#[verifier::reject_recursive_types(S)]
pub struct ExLruCache<K, V, S>(lru::LruCache<K, V, S>);

/// `lru::DefaultHasher`, the hasher that an `lru::LruCache` has unless it is
/// given another.
#[verifier::external_type_specification]
#[verifier::external_body]
pub struct ExCacheHasher(lru::DefaultHasher);

/// What a store holds: `(key, value)` pairs, most recently used first.
pub type Entries = Seq<(Seq<char>, Seq<u8>)>;

/// The entries of an `lru::LruCache`, most recently used first.
pub uninterp spec fn entries(cache: lru::LruCache<String, Vec<u8>>) -> Entries;

/// The number of entries an `lru::LruCache` was made, or last resized, to hold.
pub uninterp spec fn capacity(cache: lru::LruCache<String, Vec<u8>>) -> nat;

/// `es` with the entry at `i` moved to the front.
pub open spec fn moved_to_front(es: Entries, i: int) -> Entries {
    seq![es[i]] + es.remove(i)
}

/// Whether the entry at position `i` of `es` has the key `key`.
pub open spec fn stands_at(es: Entries, key: Seq<char>, i: int) -> bool {
    0 <= i < es.len() && es[i].0 == key
}

/// Whether some entry of `es` has the key `key`.
pub open spec fn has_key(es: Entries, key: Seq<char>) -> bool {
    exists|i: int| stands_at(es, key, i)
}

/// `lru::LruCache::sparse`: an empty cache that holds at most `cap` entries.
/// Unlike `LruCache::new` it sets no storage aside, so that no capacity is
/// too large to ask for.
#[verifier::external_body]
fn lru_new(cap: usize) -> (cache: lru::LruCache<String, Vec<u8>>)
    requires
        cap > 0,
    ensures
        entries(cache) == Seq::<(Seq<char>, Seq<u8>)>::empty(),
        capacity(cache) == cap,
{
    lru::LruCache::sparse(std::num::NonZeroUsize::new(cap).unwrap())
}

/// `lru::LruCache::len`: the number of entries held.
#[verifier::external_body]
fn lru_len(cache: &lru::LruCache<String, Vec<u8>>) -> (n: usize)
    ensures
        n == entries(*cache).len(),
{
    cache.len()
}

/// `lru::LruCache::get`: where an entry with the key is held, a copy of its
/// value comes back and the entry moves to the front; otherwise nothing comes
/// back and nothing changes.
#[verifier::external_body]
fn lru_get(cache: &mut lru::LruCache<String, Vec<u8>>, key: &str) -> (found: Option<Vec<u8>>)
    ensures
        capacity(*final(cache)) == capacity(*old(cache)),
        found is Some ==> exists|i: int|
            #[trigger] stands_at(entries(*old(cache)), key@, i) && found.unwrap()@ == entries(
                *old(cache),
            )[i].1 && entries(*final(cache)) == moved_to_front(entries(*old(cache)), i),
        found is None ==> !has_key(entries(*old(cache)), key@),
        found is None ==> entries(*final(cache)) == entries(*old(cache)),
{
    cache.get(key).cloned()
}

/// `lru::LruCache::push`: the pair becomes the front entry. An entry that held
/// the key before is replaced; otherwise, in a cache that holds as many
/// entries as its capacity, the last entry leaves.
#[verifier::external_body]
fn lru_push(cache: &mut lru::LruCache<String, Vec<u8>>, key: String, value: Vec<u8>)
    ensures
        capacity(*final(cache)) == capacity(*old(cache)),
        has_key(entries(*old(cache)), key@) ==> exists|i: int|
            #[trigger] stands_at(entries(*old(cache)), key@, i) && entries(*final(cache))
                == seq![(key@, value@)] + entries(*old(cache)).remove(i),
        !has_key(entries(*old(cache)), key@) && entries(*old(cache)).len() == capacity(
            *old(cache),
        ) ==> entries(*final(cache)) == seq![(key@, value@)] + entries(*old(cache)).drop_last(),
        !has_key(entries(*old(cache)), key@) && entries(*old(cache)).len() != capacity(
            *old(cache),
        ) ==> entries(*final(cache)) == seq![(key@, value@)] + entries(*old(cache)),
{
    let _ = cache.push(key, value);
}

/// `lru::LruCache::resize`: the capacity becomes `cap`; where more than `cap`
/// entries are held, those past the first `cap` leave.
#[verifier::external_body]
fn lru_resize(cache: &mut lru::LruCache<String, Vec<u8>>, cap: usize)
    requires
        cap > 0,
    ensures
        capacity(*final(cache)) == cap,
        cap == capacity(*old(cache)) || entries(*old(cache)).len() <= cap ==> entries(
            *final(cache),
        ) == entries(*old(cache)),
        cap != capacity(*old(cache)) && entries(*old(cache)).len() > cap ==> entries(
            *final(cache),
        ) == entries(*old(cache)).take(cap as int),
{
    cache.resize(std::num::NonZeroUsize::new(cap).unwrap());
}

/// The first position in `es` whose key is `key`, or the length of `es` when
/// no entry has that key.
pub open spec fn index_of(es: Entries, key: Seq<char>) -> int
    decreases es.len(),
{
    if es.len() == 0 {
        0
    } else if es[0].0 == key {
        0
    } else {
        1 + index_of(es.drop_first(), key)
    }
}

/// Whether an entry with `key` is held.
pub open spec fn holds(es: Entries, key: Seq<char>) -> bool {
    index_of(es, key) < es.len()
}

/// The value held under `key`, if any.
pub open spec fn value_of(es: Entries, key: Seq<char>) -> Option<Seq<u8>> {
    if holds(es, key) {
        Some(es[index_of(es, key)].1)
    } else {
        None
    }
}

/// No two entries share a key.
pub open spec fn distinct_keys(es: Entries) -> bool {
    forall|i: int, j: int| 0 <= i < j < es.len() ==> (#[trigger] es[i]).0 != (#[trigger] es[j]).0
}

/// The entries after a lookup of `key`: a hit moves to the front.
pub open spec fn promoted(es: Entries, key: Seq<char>) -> Entries {
    if holds(es, key) {
        moved_to_front(es, index_of(es, key))
    } else {
        es
    }
}

/// The entries after `(key, value)` is inserted into a store of capacity
/// `cap`: the pair stands at the front, an older entry under the same key is
/// gone, and a full store has given up its last entry.
pub open spec fn inserted(es: Entries, cap: nat, key: Seq<char>, value: Seq<u8>) -> Entries {
    if holds(es, key) {
        seq![(key, value)] + es.remove(index_of(es, key))
    } else if es.len() >= cap {
        seq![(key, value)] + es.drop_last()
    } else {
        seq![(key, value)] + es
    }
}

/// The entries after the capacity is set to `cap`: the most recently used
/// `cap` entries stay.
pub open spec fn resized(es: Entries, cap: nat) -> Entries {
    if es.len() > cap {
        es.take(cap as int)
    } else {
        es
    }
}

/// Distinct keys, at least one slot, and no more entries than slots.
pub open spec fn bounded(es: Entries, cap: nat) -> bool {
    &&& distinct_keys(es)
    &&& 1 <= cap
    &&& es.len() <= cap
}

/// `index_of` is the first position of the key, and the length when absent.
pub proof fn lemma_index_of(es: Entries, key: Seq<char>)
    ensures
        0 <= index_of(es, key) <= es.len(),
        holds(es, key) ==> es[index_of(es, key)].0 == key,
        forall|j: int| 0 <= j < index_of(es, key) ==> (#[trigger] es[j]).0 != key,
    decreases es.len(),
{
    if es.len() > 0 && es[0].0 != key {
        let rest = es.drop_first();
        lemma_index_of(rest, key);
        assert forall|j: int| 0 <= j < index_of(es, key) implies (#[trigger] es[j]).0 != key by {
            if j > 0 {
                assert(es[j] == rest[j - 1]);
            }
        }
    }
}

/// With distinct keys, an entry with the key can only stand at `index_of`.
pub proof fn lemma_index_unique(es: Entries, key: Seq<char>, i: int)
    requires
        distinct_keys(es),
        0 <= i < es.len(),
        es[i].0 == key,
    ensures
        index_of(es, key) == i,
{
    lemma_index_of(es, key);
    let k = index_of(es, key);
    if k < i {
        assert(es[k].0 != es[i].0);
    }
}

/// A key that stands nowhere in `es` is not held.
pub proof fn lemma_absent(es: Entries, key: Seq<char>)
    requires
        forall|i: int| 0 <= i < es.len() ==> (#[trigger] es[i]).0 != key,
    ensures
        !holds(es, key),
{
    lemma_index_of(es, key);
}

/// A key is held exactly if it stands somewhere.
pub proof fn lemma_holds_iff_has_key(es: Entries, key: Seq<char>)
    ensures
        holds(es, key) <==> has_key(es, key),
{
    lemma_index_of(es, key);
    if holds(es, key) {
        assert(stands_at(es, key, index_of(es, key)));
    }
    if has_key(es, key) {
        let i = choose|i: int| stands_at(es, key, i);
        if !holds(es, key) {
            assert(es[i].0 != key);
        }
    }
}

/// Moving an entry to the front keeps keys distinct and the length.
proof fn lemma_front_distinct(es: Entries, i: int, head: (Seq<char>, Seq<u8>))
    requires
        distinct_keys(es),
        0 <= i < es.len(),
        head.0 == es[i].0,
    ensures
        distinct_keys(seq![head] + es.remove(i)),
        (seq![head] + es.remove(i)).len() == es.len(),
{
    let rest = es.remove(i);
    let new = seq![head] + rest;
    assert forall|a: int, b: int| 0 <= a < b < new.len() implies (#[trigger] new[a]).0 != (
    #[trigger] new[b]).0 by {
        let bb = if b - 1 < i {
            b - 1
        } else {
            b
        };
        assert(new[b] == es[bb]);
        if a == 0 {
            assert(es[i].0 != es[bb].0);
        } else {
            let aa = if a - 1 < i {
                a - 1
            } else {
                a
            };
            assert(new[a] == es[aa]);
            assert(es[aa].0 != es[bb].0);
        }
    }
}

/// Putting a fresh key in front of a part of `es` keeps keys distinct.
proof fn lemma_cons_distinct(es: Entries, n: int, head: (Seq<char>, Seq<u8>))
    requires
        distinct_keys(es),
        0 <= n <= es.len(),
        forall|i: int| 0 <= i < es.len() ==> (#[trigger] es[i]).0 != head.0,
    ensures
        distinct_keys(seq![head] + es.take(n)),
{
    let new = seq![head] + es.take(n);
    assert forall|a: int, b: int| 0 <= a < b < new.len() implies (#[trigger] new[a]).0 != (
    #[trigger] new[b]).0 by {
        assert(new[b] == es[b - 1]);
        if a > 0 {
            assert(new[a] == es[a - 1]);
            assert(es[a - 1].0 != es[b - 1].0);
        }
    }
}

/// A lookup keeps a store within its bound.
pub proof fn lemma_promoted_bounded(es: Entries, cap: nat, key: Seq<char>)
    requires
        bounded(es, cap),
    ensures
        bounded(promoted(es, key), cap),
        promoted(es, key).len() == es.len(),
{
    lemma_index_of(es, key);
    if holds(es, key) {
        lemma_front_distinct(es, index_of(es, key), es[index_of(es, key)]);
    }
}

/// An insertion keeps a store within its bound.
pub proof fn lemma_inserted_bounded(es: Entries, cap: nat, key: Seq<char>, value: Seq<u8>)
    requires
        bounded(es, cap),
    ensures
        bounded(inserted(es, cap, key, value), cap),
{
    lemma_index_of(es, key);
    if holds(es, key) {
        lemma_front_distinct(es, index_of(es, key), (key, value));
    } else if es.len() >= cap {
        lemma_cons_distinct(es, es.len() - 1, (key, value));
        assert(es.take(es.len() - 1) =~= es.drop_last());
    } else {
        lemma_cons_distinct(es, es.len() as int, (key, value));
        assert(es.take(es.len() as int) =~= es);
    }
}

/// A change of capacity leaves a store within the new bound.
pub proof fn lemma_resized_bounded(es: Entries, cap: nat)
    requires
        distinct_keys(es),
        1 <= cap,
    ensures
        bounded(resized(es, cap), cap),
{
    let new = resized(es, cap);
    assert forall|a: int, b: int| 0 <= a < b < new.len() implies (#[trigger] new[a]).0 != (
    #[trigger] new[b]).0 by {
        assert(new[a] == es[a]);
        assert(new[b] == es[b]);
    }
}

/// What is inserted is found: after `(key, value)` goes in, a lookup of `key`
/// gives `value`, whatever the store held and however full it was.
pub proof fn lemma_insert_then_lookup(es: Entries, cap: nat, key: Seq<char>, value: Seq<u8>)
    ensures
        value_of(inserted(es, cap, key, value), key) == Some(value),
        inserted(es, cap, key, value)[0] == (key, value),
{
    let new = inserted(es, cap, key, value);
    assert(new[0] == (key, value));
    assert(index_of(new, key) == 0);
}

/// An insertion of a key that is already held evicts nothing: every key held
/// before is held after.
pub proof fn lemma_update_keeps_keys(
    es: Entries,
    cap: nat,
    key: Seq<char>,
    value: Seq<u8>,
    other: Seq<char>,
)
    requires
        bounded(es, cap),
        holds(es, key),
        holds(es, other),
    ensures
        holds(inserted(es, cap, key, value), other),
        other != key ==> value_of(inserted(es, cap, key, value), other) == value_of(es, other),
{
    let new = inserted(es, cap, key, value);
    let i = index_of(es, key);
    let j = index_of(es, other);
    lemma_index_of(es, key);
    lemma_index_of(es, other);
    lemma_inserted_bounded(es, cap, key, value);
    if other == key {
        lemma_insert_then_lookup(es, cap, key, value);
    } else {
        let jj = if j < i {
            j + 1
        } else {
            j
        };
        assert(new[jj] == es[j]);
        lemma_index_unique(new, other, jj);
    }
}

/// Insertion into a full store evicts the least recently used entry and no
/// other: the key of the last entry is gone, and every other entry, the most
/// recently used among them, is still held with its value, one place further
/// back.
pub proof fn lemma_insert_evicts_lru(es: Entries, cap: nat, key: Seq<char>, value: Seq<u8>)
    requires
        bounded(es, cap),
        es.len() == cap,
        !holds(es, key),
    ensures
        inserted(es, cap, key, value).len() == cap,
        !holds(inserted(es, cap, key, value), es.last().0),
        forall|i: int|
            0 <= i < es.len() - 1 ==> inserted(es, cap, key, value)[i + 1] == #[trigger] es[i],
        forall|i: int|
            0 <= i < es.len() - 1 ==> value_of(inserted(es, cap, key, value), (#[trigger] es[i]).0)
                == Some(es[i].1),
{
    let new = inserted(es, cap, key, value);
    let last = es.last().0;
    lemma_index_of(es, key);
    lemma_inserted_bounded(es, cap, key, value);
    assert(new =~= seq![(key, value)] + es.drop_last());
    assert forall|i: int| 0 <= i < new.len() implies (#[trigger] new[i]).0 != last by {
        if i == 0 {
            assert(es[es.len() - 1].0 != key);
        } else {
            assert(new[i] == es[i - 1]);
            assert(es[i - 1].0 != es[es.len() - 1].0);
        }
    }
    lemma_absent(new, last);
    assert forall|i: int| 0 <= i < es.len() - 1 implies value_of(new, (#[trigger] es[i]).0)
        == Some(es[i].1) by {
        assert(new[i + 1] == es[i]);
        lemma_index_unique(new, es[i].0, i + 1);
    }
}

/// Insertion into a store with a free slot evicts nothing.
pub proof fn lemma_insert_with_room(es: Entries, cap: nat, key: Seq<char>, value: Seq<u8>)
    requires
        bounded(es, cap),
        es.len() < cap,
        !holds(es, key),
    ensures
        inserted(es, cap, key, value) == seq![(key, value)] + es,
        forall|i: int|
            0 <= i < es.len() ==> value_of(inserted(es, cap, key, value), (#[trigger] es[i]).0)
                == Some(es[i].1),
{
    let new = inserted(es, cap, key, value);
    lemma_inserted_bounded(es, cap, key, value);
    assert forall|i: int| 0 <= i < es.len() implies value_of(new, (#[trigger] es[i]).0) == Some(
        es[i].1,
    ) by {
        assert(new[i + 1] == es[i]);
        lemma_index_unique(new, es[i].0, i + 1);
    }
}

/// A lookup changes the order only: what is held, and under which key, stays.
pub proof fn lemma_promoted_keeps_values(es: Entries, cap: nat, key: Seq<char>, other: Seq<char>)
    requires
        bounded(es, cap),
    ensures
        value_of(promoted(es, key), other) == value_of(es, other),
        holds(es, key) ==> promoted(es, key)[0] == es[index_of(es, key)],
{
    let new = promoted(es, key);
    lemma_index_of(es, key);
    lemma_index_of(es, other);
    lemma_promoted_bounded(es, cap, key);
    if holds(es, key) {
        let i = index_of(es, key);
        if holds(es, other) {
            let j = index_of(es, other);
            let jj = if j == i {
                0
            } else if j < i {
                j + 1
            } else {
                j
            };
            assert(new[jj] == es[j]);
            lemma_index_unique(new, other, jj);
        } else {
            assert forall|a: int| 0 <= a < new.len() implies (#[trigger] new[a]).0 != other by {
                let aa = if a == 0 {
                    i
                } else if a - 1 < i {
                    a - 1
                } else {
                    a
                };
                assert(new[a] == es[aa]);
            }
            lemma_absent(new, other);
        }
    }
}

/// One bounded store: an `lru::LruCache` from location to bytes.
pub struct Store {
    inner: lru::LruCache<String, Vec<u8>>,
}

impl View for Store {
    type V = Entries;

    /// The entries held, most recently used first.
    closed spec fn view(&self) -> Entries {
        entries(self.inner)
    }
}

impl Store {
    /// The number of entries the store may hold.
    pub closed spec fn cap(&self) -> nat {
        capacity(self.inner)
    }

    /// Keys are distinct and the store is within its capacity.
    pub open spec fn wf(&self) -> bool {
        bounded(self@, self.cap())
    }

    /// An empty store with room for `cap` entries.
    pub fn new(cap: usize) -> (store: Store)
        requires
            cap > 0,
        ensures
            store.wf(),
            store@ == Seq::<(Seq<char>, Seq<u8>)>::empty(),
            store.cap() == cap,
    {
        Store { inner: lru_new(cap) }
    }

    /// The number of entries held.
    pub fn len(&self) -> (n: usize)
        ensures
            n == self@.len(),
    {
        lru_len(&self.inner)
    }

    /// Looks `key` up. A hit returns the value and makes the entry the most
    /// recently used one; a miss changes nothing.
    pub fn lookup(&mut self, key: &str) -> (found: Option<Vec<u8>>)
        requires
            old(self).wf(),
        ensures
            final(self).wf(),
            final(self).cap() == old(self).cap(),
            final(self)@ == promoted(old(self)@, key@),
            found is Some <==> holds(old(self)@, key@),
            found is Some ==> Some(found.unwrap()@) == value_of(old(self)@, key@),
    {
        let found = lru_get(&mut self.inner, key);
        proof {
            let es = old(self)@;
            lemma_holds_iff_has_key(es, key@);
            lemma_promoted_bounded(es, old(self).cap(), key@);
            if found is Some {
                let i = choose|i: int|
                    #[trigger] stands_at(es, key@, i) && found.unwrap()@ == es[i].1 && self@
                        == moved_to_front(es, i);
                lemma_index_unique(es, key@, i);
            }
        }
        found
    }

    /// Inserts `(key, value)` as the most recently used entry. An entry under
    /// the same key is replaced; otherwise a full store first evicts its least
    /// recently used entry.
    pub fn insert(&mut self, key: String, value: Vec<u8>)
        requires
            old(self).wf(),
        ensures
            final(self).wf(),
            final(self).cap() == old(self).cap(),
            final(self)@ == inserted(old(self)@, old(self).cap(), key@, value@),
    {
        let ghost k = key@;
        let ghost v = value@;
        lru_push(&mut self.inner, key, value);
        proof {
            let es = old(self)@;
            lemma_holds_iff_has_key(es, k);
            lemma_inserted_bounded(es, old(self).cap(), k, v);
            if holds(es, k) {
                let i = choose|i: int|
                    #[trigger] stands_at(es, k, i) && self@ == seq![(k, v)] + es.remove(i);
                lemma_index_unique(es, k, i);
            }
        }
    }

    /// Sets the capacity to `cap`. Where more than `cap` entries are held, the
    /// least recently used ones are evicted until `cap` are left.
    pub fn resize(&mut self, cap: usize)
        requires
            old(self).wf(),
            cap > 0,
        ensures
            final(self).wf(),
            final(self).cap() == cap,
            final(self)@ == resized(old(self)@, cap as nat),
    {
        lru_resize(&mut self.inner, cap);
        proof {
            lemma_resized_bounded(old(self)@, cap as nat);
        }
    }
}

/// Which of the two stores a request goes to.
#[derive(Clone, Copy, Debug, PartialEq, Eq, Structural)]
pub enum Kind {
    /// Rendered directory listings.
    Listing,
    /// File contents.
    File,
}

/// The two stores, and the size above which a file is not cached. The stores
/// share nothing: a lookup or an insertion in one leaves the other as it was.
pub struct ContentCache {
    listings: Store,
    files: Store,
    file_maxsize: u64,
}

impl ContentCache {
    /// The entries of one store, most recently used first.
    pub closed spec fn of(&self, kind: Kind) -> Entries {
        match kind {
            Kind::Listing => self.listings@,
            Kind::File => self.files@,
        }
    }

    /// The capacity of one store.
    pub closed spec fn capacity_of(&self, kind: Kind) -> nat {
        match kind {
            Kind::Listing => self.listings.cap(),
            Kind::File => self.files.cap(),
        }
    }

    /// The largest file, in bytes, that is cached.
    pub closed spec fn spec_file_maxsize(&self) -> u64 {
        self.file_maxsize
    }

    /// Both stores have distinct keys and are within their capacities.
    pub closed spec fn wf(&self) -> bool {
        self.listings.wf() && self.files.wf()
    }

    /// The other store.
    pub open spec fn other(kind: Kind) -> Kind {
        match kind {
            Kind::Listing => Kind::File,
            Kind::File => Kind::Listing,
        }
    }

    /// Whether a value of `len` bytes is kept out of the store of `kind`:
    /// only files are, and only those longer than the limit.
    pub open spec fn bypasses(&self, kind: Kind, len: nat) -> bool {
        kind == Kind::File && len > self.spec_file_maxsize()
    }

    /// At all times each store holds at most as many entries as its capacity,
    /// which is at least one, and no key twice.
    pub proof fn lemma_within_capacity(&self, kind: Kind)
        requires
            self.wf(),
        ensures
            bounded(self.of(kind), self.capacity_of(kind)),
            self.of(kind).len() <= self.capacity_of(kind),
    {
    }

    /// Two empty stores with the given capacities.
    pub fn new(index_capacity: usize, file_capacity: usize, file_maxsize: u64) -> (cache:
        ContentCache)
        requires
            index_capacity > 0,
            file_capacity > 0,
        ensures
            cache.wf(),
            cache.of(Kind::Listing) == Seq::<(Seq<char>, Seq<u8>)>::empty(),
            cache.of(Kind::File) == Seq::<(Seq<char>, Seq<u8>)>::empty(),
            cache.capacity_of(Kind::Listing) == index_capacity,
            cache.capacity_of(Kind::File) == file_capacity,
            cache.spec_file_maxsize() == file_maxsize,
    {
        ContentCache {
            listings: Store::new(index_capacity),
            files: Store::new(file_capacity),
            file_maxsize,
        }
    }

    /// The largest file, in bytes, that is cached.
    #[verifier::when_used_as_spec(spec_file_maxsize)]
    pub fn file_maxsize(&self) -> (n: u64)
        ensures
            n == self.spec_file_maxsize(),
    {
        self.file_maxsize
    }

    /// The number of entries in one store.
    pub fn len(&self, kind: Kind) -> (n: usize)
        ensures
            n == self.of(kind).len(),
    {
        match kind {
            Kind::Listing => self.listings.len(),
            Kind::File => self.files.len(),
        }
    }

    /// Looks `key` up in the store of `kind`. A hit returns the value and
    /// makes the entry the most recently used one of its store.
    pub fn lookup(&mut self, kind: Kind, key: &str) -> (found: Option<Vec<u8>>)
        requires
            old(self).wf(),
        ensures
            final(self).wf(),
            final(self).of(kind) == promoted(old(self).of(kind), key@),
            final(self).of(Self::other(kind)) == old(self).of(Self::other(kind)),
            final(self).capacity_of(Kind::Listing) == old(self).capacity_of(Kind::Listing),
            final(self).capacity_of(Kind::File) == old(self).capacity_of(Kind::File),
            final(self).spec_file_maxsize() == old(self).spec_file_maxsize(),
            found is Some <==> holds(old(self).of(kind), key@),
            found is Some ==> Some(found.unwrap()@) == value_of(old(self).of(kind), key@),
    {
        match kind {
            Kind::Listing => self.listings.lookup(key),
            Kind::File => self.files.lookup(key),
        }
    }

    /// Inserts `(key, value)` into the store of `kind` and says whether it
    /// did. A file longer than the limit is not inserted, and then nothing is
    /// evicted either. Any other value becomes the most recently used entry of
    /// its store, in place of an older one under the same key, or else, in a
    /// full store, of the least recently used one.
    pub fn insert(&mut self, kind: Kind, key: String, value: Vec<u8>) -> (stored: bool)
        requires
            old(self).wf(),
        ensures
            final(self).wf(),
            stored == !old(self).bypasses(kind, value@.len()),
            stored ==> final(self).of(kind) == inserted(
                old(self).of(kind),
                old(self).capacity_of(kind),
                key@,
                value@,
            ),
            !stored ==> final(self).of(kind) == old(self).of(kind),
            final(self).of(Self::other(kind)) == old(self).of(Self::other(kind)),
            final(self).capacity_of(Kind::Listing) == old(self).capacity_of(Kind::Listing),
            final(self).capacity_of(Kind::File) == old(self).capacity_of(Kind::File),
            final(self).spec_file_maxsize() == old(self).spec_file_maxsize(),
    {
        match kind {
            Kind::Listing => {
                self.listings.insert(key, value);
                true
            },
            Kind::File => {
                if value.len() as u64 > self.file_maxsize {
                    false
                } else {
                    self.files.insert(key, value);
                    true
                }
            },
        }
    }

    /// Takes new capacities and a new size limit. A store that holds more
    /// than its new capacity evicts its least recently used entries until it
    /// fits; a store that fits keeps everything.
    pub fn reconfigure(&mut self, index_capacity: usize, file_capacity: usize, file_maxsize: u64)
        requires
            old(self).wf(),
            index_capacity > 0,
            file_capacity > 0,
        ensures
            final(self).wf(),
            final(self).of(Kind::Listing) == resized(
                old(self).of(Kind::Listing),
                index_capacity as nat,
            ),
            final(self).of(Kind::File) == resized(old(self).of(Kind::File), file_capacity as nat),
            final(self).capacity_of(Kind::Listing) == index_capacity,
            final(self).capacity_of(Kind::File) == file_capacity,
            final(self).spec_file_maxsize() == file_maxsize,
    {
        self.listings.resize(index_capacity);
        self.files.resize(file_capacity);
        self.file_maxsize = file_maxsize;
    }
}

/// The cache that a snapshot configures: two empty stores with the capacities
/// and the size limit in force.
pub fn init_cache(config: &Config) -> (cache: ContentCache)
    requires
        config.cache_capacities_valid(),
    ensures
        cache.wf(),
        cache.of(Kind::Listing) == Seq::<(Seq<char>, Seq<u8>)>::empty(),
        cache.of(Kind::File) == Seq::<(Seq<char>, Seq<u8>)>::empty(),
        cache.capacity_of(Kind::Listing) == config.spec_index_capacity(),
        cache.capacity_of(Kind::File) == config.spec_file_capacity(),
        cache.spec_file_maxsize() == config.spec_file_maxsize(),
{
    ContentCache::new(config.index_capacity(), config.file_capacity(), config.file_maxsize())
}

/// Brings a cache in line with a new snapshot: both stores take the
/// capacities in force, evicting their least recently used entries where
/// they hold more, and the size limit follows.
pub fn resize_cache(cache: &mut ContentCache, config: &Config)
    requires
        old(cache).wf(),
        config.cache_capacities_valid(),
    ensures
        final(cache).wf(),
        final(cache).of(Kind::Listing) == resized(
            old(cache).of(Kind::Listing),
            config.spec_index_capacity() as nat,
        ),
        final(cache).of(Kind::File) == resized(
            old(cache).of(Kind::File),
            config.spec_file_capacity() as nat,
        ),
        final(cache).capacity_of(Kind::Listing) == config.spec_index_capacity(),
        final(cache).capacity_of(Kind::File) == config.spec_file_capacity(),
        final(cache).spec_file_maxsize() == config.spec_file_maxsize(),
{
    cache.reconfigure(config.index_capacity(), config.file_capacity(), config.file_maxsize());
}

/// What is inserted is found, in the cache as a whole: after a value within
/// the size limit goes in under `key`, the store of its kind gives that value
/// back for `key`, and holds it as its most recently used entry.
pub proof fn lemma_cache_insert_then_lookup(
    before: ContentCache,
    after: ContentCache,
    kind: Kind,
    key: Seq<char>,
    value: Seq<u8>,
)
    requires
        before.wf(),
        !before.bypasses(kind, value.len()),
        after.of(kind) == inserted(before.of(kind), before.capacity_of(kind), key, value),
    ensures
        value_of(after.of(kind), key) == Some(value),
        after.of(kind)[0] == (key, value),
{
    lemma_insert_then_lookup(before.of(kind), before.capacity_of(kind), key, value);
}

} // verus!
