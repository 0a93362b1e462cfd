//! The namespaced map of live entries.

use vstd::prelude::*;
use vstd::string::StringExecFns;
use crate::entry::{now_millis, PinItem, PinItemView, STALE_AGE_MILLIS};

verus! {

/// The concurrent map of an outside crate, held by its write handle
/// (`evmap::WriteHandle`), through which reads go as well.
#[verifier::external_body]
pub struct PinMap {
    handle: evmap::WriteHandle<String, Box<PinItem>>,
}

/// `evmap::ReadHandle`, carried as an opaque value.
#[verifier::external_type_specification]
#[verifier::external_body]
#[verifier::reject_recursive_types(K)]
#[verifier::reject_recursive_types(V)]
#[verifier::reject_recursive_types(M)]
#[verifier::reject_recursive_types(S)]
pub struct ExReadHandle<K, V, M, S>(evmap::ReadHandle<K, V, M, S>) where
    K: Eq + std::hash::Hash,
    S: std::hash::BuildHasher,
;

/// A handle for reading the store without holding it: it sees what was
/// last published, whoever writes meanwhile, and never waits for a writer.
pub struct PinReader {
    handle: evmap::ReadHandle<String, Box<PinItem>>,
}

/// A map's contents as plain values: each key with its one record.
pub type Entries = Map<Seq<char>, PinItemView>;

/// The map that holds nothing.
pub open spec fn no_entries() -> Entries {
    Map::empty()
}

/// Whether a record stamped `timestamp` has been left untouched for longer
/// than the staleness threshold at the instant `now`.
pub open spec fn is_stale(timestamp: int, now: int) -> bool {
    now - timestamp > STALE_AGE_MILLIS
}

/// What a consuming read leaves of the store: the entry goes once it holds
/// a payload, and stays while it is waiting for one.
pub open spec fn after_take(m: Entries, key: Seq<char>) -> Entries {
    if m.contains_key(key) && m[key].result is Some {
        m.remove(key)
    } else {
        m
    }
}

/// What a sweep at the instant `now` leaves of the store: the entries that
/// are not stale, each as it was.
pub open spec fn live_at(m: Entries, now: int) -> Entries {
    m.restrict(Set::new(|k: Seq<char>| !is_stale(m[k].timestamp, now)))
}

/// The keys that a sequence of strings spells.
pub open spec fn key_set(keys: Seq<String>) -> Set<Seq<char>> {
    Set::new(|k: Seq<char>| exists|i: int| 0 <= i < keys.len() && #[trigger] keys[i]@ == k)
}

/// `removed` lists exactly the keys of `m` that are stale at `now`, each
/// once.
pub open spec fn lists_stale(m: Entries, now: int, removed: Seq<String>) -> bool {
    &&& forall|k: Seq<char>|
        key_set(removed).contains(k) <==> m.contains_key(k) && is_stale(m[k].timestamp, now)
    &&& forall|i: int, j: int|
        0 <= i < j < removed.len() ==> #[trigger] removed[i]@ != #[trigger] removed[j]@
}

/// `all` lists the entries of `m`, each key once.
pub open spec fn lists_entries(m: Entries, all: Seq<(String, PinItem)>) -> bool {
    &&& forall|i: int| 0 <= i < all.len() ==> m.contains_key(#[trigger] all[i].0@)
    &&& forall|i: int| 0 <= i < all.len() ==> m[#[trigger] all[i].0@] == all[i].1@
    &&& forall|k: Seq<char>|
        m.contains_key(k) ==> exists|i: int| 0 <= i < all.len() && #[trigger] all[i].0@ == k
    &&& forall|i: int, j: int|
        0 <= i < j < all.len() ==> #[trigger] all[i].0@ != #[trigger] all[j].0@
}

/// The entries that readers of the map see: what the last
/// `WriteHandle::refresh` published, and nothing before the first.
pub uninterp spec fn published(w: PinMap) -> Map<Seq<char>, PinItemView>;

/// The entries that the next `WriteHandle::refresh` will publish: what is
/// published, with the writes made since applied in order.
pub uninterp spec fn staged(w: PinMap) -> Map<Seq<char>, PinItemView>;

/// Makes a map with `evmap::new` and keeps its write handle. Nothing is
/// staged and readers see nothing.
#[verifier::external_body]
pub(crate) fn new_map() -> (w: PinMap)
    ensures
        published(w) == no_entries(),
        staged(w) == no_entries(),
{
    let (_read, write) = evmap::new();
    PinMap { handle: write }
}

/// Asks `ReadHandle::contains_key` through the write handle: whether readers
/// see a record under the key.
#[verifier::external_body]
pub(crate) fn map_contains(w: &PinMap, key: &str) -> (found: bool)
    ensures
        found == published(*w).contains_key(key@),
{
    w.handle.contains_key(key)
}

/// Asks `ReadHandle::get_one` through the write handle and copies the record
/// out: the record that readers see under the key, if there is one. A key
/// holds one record, as the map is written through this module alone.
#[verifier::external_body]
pub(crate) fn map_get_one(w: &PinMap, key: &str) -> (found: Option<PinItem>)
    ensures
        found is Some <==> published(*w).contains_key(key@),
        found is Some ==> found->0@ == published(*w)[key@],
{
    w.handle.get_one(key).map(|guard| guard.duplicate())
}

/// Walks `ReadHandle::read` through the write handle and copies out every
/// key with its record. Each key that readers see comes once; the order is
/// the map's own and nothing is claimed of it.
#[verifier::external_body]
pub(crate) fn map_entries(w: &PinMap) -> (all: Vec<(String, PinItem)>)
    ensures
        lists_entries(published(*w), all@),
{
    let map = w.handle.read();
    map.iter()
        .flatten()
        .flat_map(|(key, values)| values.iter().map(move |value| (key.clone(), value.duplicate())))
        .collect()
}

/// Calls `WriteHandle::insert` for a key under which nothing is staged: the
/// record is staged under it. Readers see no change before a refresh. The
/// call is taken not to panic.
#[verifier::external_body]
pub(crate) fn map_insert(w: &mut PinMap, key: String, item: PinItem)
    requires
        !staged(*old(w)).contains_key(key@),
    ensures
        staged(*final(w)) == staged(*old(w)).insert(key@, item@),
        published(*final(w)) == published(*old(w)),
    no_unwind
{
    w.handle.insert(key, Box::new(item));
}

/// Calls `WriteHandle::update`: the record replaces whatever is staged under
/// the key. Readers see no change before a refresh. The call is taken not
/// to panic.
#[verifier::external_body]
pub(crate) fn map_update(w: &mut PinMap, key: String, item: PinItem)
    ensures
        staged(*final(w)) == staged(*old(w)).insert(key@, item@),
        published(*final(w)) == published(*old(w)),
    no_unwind
{
    w.handle.update(key, Box::new(item));
}

/// Calls `WriteHandle::empty`: nothing is staged under the key any more.
/// Readers see no change before a refresh. The call is taken not to panic.
#[verifier::external_body]
pub(crate) fn map_empty(w: &mut PinMap, key: &String)
    ensures
        staged(*final(w)) == staged(*old(w)).remove(key@),
        published(*final(w)) == published(*old(w)),
    no_unwind
{
    w.handle.empty(key.clone());
}

/// Calls `WriteHandle::refresh`: readers now see what was staged. The call
/// is taken not to panic; it returns once the reads in flight have ended.
#[verifier::external_body]
pub(crate) fn map_refresh(w: &mut PinMap)
    ensures
        published(*final(w)) == staged(*old(w)),
        staged(*final(w)) == staged(*old(w)),
    no_unwind
{
    w.handle.refresh();
}

/// Makes another read handle with `ReadHandle::clone`, through the write
/// handle. Nothing is claimed of it: what it sees changes as the map is
/// written.
#[verifier::external_body]
pub(crate) fn map_reader(w: &PinMap) -> (reader: evmap::ReadHandle<String, Box<PinItem>>) {
    w.handle.clone()
}

/// Asks `ReadHandle::get_one` and copies the record out. Nothing is claimed
/// of the answer: it is what was published when the handle looked.
#[verifier::external_body]
pub(crate) fn reader_get_one(reader: &evmap::ReadHandle<String, Box<PinItem>>, key: &str) -> (seen:
    Option<PinItem>) {
    reader.get_one(key).map(|guard| guard.duplicate())
}

/// Stages a new record and publishes it.
fn publish_insert(w: &mut PinMap, key: String, item: PinItem)
    requires
        staged(*old(w)) == published(*old(w)),
        !published(*old(w)).contains_key(key@),
    ensures
        published(*final(w)) == published(*old(w)).insert(key@, item@),
        staged(*final(w)) == published(*final(w)),
    no_unwind
{
    map_insert(w, key, item);
    map_refresh(w);
}

/// Stages a replacement and publishes it.
fn publish_update(w: &mut PinMap, key: String, item: PinItem)
    requires
        staged(*old(w)) == published(*old(w)),
    ensures
        published(*final(w)) == published(*old(w)).insert(key@, item@),
        staged(*final(w)) == published(*final(w)),
    no_unwind
{
    map_update(w, key, item);
    map_refresh(w);
}

/// Stages a deletion and publishes it.
fn publish_empty(w: &mut PinMap, key: &String)
    requires
        staged(*old(w)) == published(*old(w)),
    ensures
        published(*final(w)) == published(*old(w)).remove(key@),
        staged(*final(w)) == published(*final(w)),
    no_unwind
{
    map_empty(w, key);
    map_refresh(w);
}

/// Stages the deletion of every listed key and publishes them together.
fn publish_empty_all(w: &mut PinMap, keys: &Vec<String>)
    requires
        staged(*old(w)) == published(*old(w)),
    ensures
        published(*final(w)) == published(*old(w)).remove_keys(key_set(keys@)),
        staged(*final(w)) == published(*final(w)),
    no_unwind
{
    let mut i: usize = 0;
    while i < keys.len()
        invariant
            i <= keys.len(),
            published(*w) == published(*old(w)),
            staged(*w) == staged(*old(w)).remove_keys(key_set(keys@.take(i as int))),
        decreases keys.len() - i,
    {
        let ghost before = staged(*w);
        map_empty(w, &keys[i]);
        proof {
            let done = key_set(keys@.take(i as int));
            let more = key_set(keys@.take(i + 1));
            let this = keys@[i as int]@;
            assert forall|k: Seq<char>| more.contains(k) <==> done.contains(k) || k == this by {
                if more.contains(k) {
                    let j = choose|j: int|
                        0 <= j < keys@.take(i + 1).len() && #[trigger] keys@.take(i + 1)[j]@ == k;
                    if j < i {
                        assert(keys@.take(i as int)[j]@ == k);
                    }
                }
                if done.contains(k) {
                    let j = choose|j: int|
                        0 <= j < keys@.take(i as int).len() && #[trigger] keys@.take(i as int)[j]@
                            == k;
                    assert(keys@.take(i + 1)[j]@ == k);
                }
                if k == this {
                    assert(keys@.take(i + 1)[i as int]@ == k);
                }
            }
            assert(staged(*w) =~= staged(*old(w)).remove_keys(more));
        }
        i += 1;
    }
    proof {
        assert(keys@.take(keys@.len() as int) =~= keys@);
    }
    map_refresh(w);
}

/// The store: every live entry under its composite key. All of its
/// operations publish before they return, so what readers see is what the
/// store holds.
pub struct BiboopState {
    map: PinMap,
}

impl View for BiboopState {
    type V = Entries;

    closed spec fn view(&self) -> Entries {
        published(self.map)
    }
}

impl BiboopState {
    /// Nothing is staged that readers do not see yet.
    #[verifier::type_invariant]
    spec fn all_published(self) -> bool {
        staged(self.map) == published(self.map)
    }

    /// An empty store.
    pub fn new() -> (state: BiboopState)
        ensures
            state@ == no_entries(),
    {
        BiboopState { map: new_map() }
    }

    /// A handle that reads this store without holding it.
    pub fn reader(&self) -> PinReader {
        PinReader { handle: map_reader(&self.map) }
    }

    /// Whether a live entry is present under the key.
    pub fn contains(&self, key: &str) -> (found: bool)
        ensures
            found == self@.contains_key(key@),
    {
        map_contains(&self.map, key)
    }

    /// A copy of the entry under the key, if one is live.
    pub fn get(&self, key: &str) -> (found: Option<PinItem>)
        ensures
            found is Some <==> self@.contains_key(key@),
            found is Some ==> found->0@ == self@[key@],
    {
        map_get_one(&self.map, key)
    }

    /// Adds an entry under a key that holds none.
    pub fn insert(&mut self, key: String, entry: PinItem)
        requires
            !old(self)@.contains_key(key@),
        ensures
            final(self)@ == old(self)@.insert(key@, entry@),
    {
        proof {
            use_type_invariant(&*self);
        }
        publish_insert(&mut self.map, key, entry);
    }

    /// Puts the entry under the key, in place of what was there.
    pub fn update(&mut self, key: String, entry: PinItem)
        ensures
            final(self)@ == old(self)@.insert(key@, entry@),
    {
        proof {
            use_type_invariant(&*self);
        }
        publish_update(&mut self.map, key, entry);
    }

    /// Deletes whatever is under the key.
    pub fn remove(&mut self, key: String)
        ensures
            final(self)@ == old(self)@.remove(key@),
    {
        proof {
            use_type_invariant(&*self);
        }
        publish_empty(&mut self.map, &key);
    }

    /// Hands out a copy of the entry under the key, if one is live, and
    /// deletes the entry when it carries a payload: a payload leaves the
    /// store with the first read that sees it.
    pub fn take_if_populated(&mut self, key: &str) -> (taken: Option<PinItem>)
        ensures
            taken is Some <==> old(self)@.contains_key(key@),
            taken is Some ==> taken->0@ == old(self)@[key@],
            final(self)@ == after_take(old(self)@, key@),
    {
        proof {
            use_type_invariant(&*self);
        }
        let found = map_get_one(&self.map, key);
        let populated = match &found {
            Some(item) => item.result.is_some(),
            None => false,
        };
        if populated {
            let owned = String::from_str(key);
            publish_empty(&mut self.map, &owned);
        }
        found
    }

    /// Every live entry with its key, each key once, in no particular order.
    pub fn snapshot(&self) -> (all: Vec<(String, PinItem)>)
        ensures
            lists_entries(self@, all@),
    {
        map_entries(&self.map)
    }

    /// One sweep at the instant `now`: deletes the entries that are stale
    /// then, whether or not they hold a payload, and returns their keys.
    pub fn evict_stale(&mut self, now: i64) -> (removed: Vec<String>)
        ensures
            final(self)@ == live_at(old(self)@, now as int),
            lists_stale(old(self)@, now as int, removed@),
    {
        proof {
            use_type_invariant(&*self);
        }
        let all = map_entries(&self.map);
        let mut removed: Vec<String> = Vec::new();
        let mut i: usize = 0;
        while i < all.len()
            invariant
                i <= all.len(),
                lists_entries(self@, all@),
                forall|j: int|
                    0 <= j < removed@.len() ==> self@.contains_key(#[trigger] removed@[j]@)
                        && is_stale(self@[removed@[j]@].timestamp, now as int),
                forall|n: int|
                    0 <= n < i && is_stale(all@[n].1@.timestamp, now as int) ==> key_set(
                        removed@,
                    ).contains(#[trigger] all@[n].0@),
                forall|j: int|
                    0 <= j < removed@.len() ==> exists|n: int|
                        0 <= n < i && all@[n].0@ == #[trigger] removed@[j]@,
                forall|j: int, l: int|
                    0 <= j < l < removed@.len() ==> #[trigger] removed@[j]@
                        != #[trigger] removed@[l]@,
            decreases all.len() - i,
        {
            if stale_at(all[i].1.timestamp, now) {
                let ghost earlier = removed@;
                removed.push(all[i].0.clone());
                proof {
                    let last = removed@.len() - 1;
                    assert(removed@[last]@ == all@[i as int].0@);
                    assert forall|j: int| 0 <= j < last implies #[trigger] removed@[j]@
                        != removed@[last]@ by {
                        let n = choose|n: int| 0 <= n < i && all@[n].0@ == earlier[j]@;
                        assert(all@[n].0@ != all@[i as int].0@);
                    }
                    assert forall|j: int| 0 <= j < removed@.len() implies exists|n: int|
                        0 <= n < i + 1 && all@[n].0@ == #[trigger] removed@[j]@ by {
                        if j < last {
                            let n = choose|n: int| 0 <= n < i && all@[n].0@ == earlier[j]@;
                            assert(0 <= n < i + 1 && all@[n].0@ == removed@[j]@);
                        } else {
                            assert(0 <= i < i + 1 && all@[i as int].0@ == removed@[j]@);
                        }
                    }
                    assert forall|n: int|
                        0 <= n < i + 1 && is_stale(
                            all@[n].1@.timestamp,
                            now as int,
                        ) implies key_set(removed@).contains(#[trigger] all@[n].0@) by {
                        if n < i {
                            let j = choose|j: int|
                                0 <= j < earlier.len() && #[trigger] earlier[j]@ == all@[n].0@;
                            assert(removed@[j]@ == all@[n].0@);
                        }
                    }
                }
            }
            i += 1;
        }
        proof {
            assert forall|k: Seq<char>| key_set(removed@).contains(k) <==> self@.contains_key(k)
                && is_stale(self@[k].timestamp, now as int) by {
                if self@.contains_key(k) && is_stale(self@[k].timestamp, now as int) {
                    let n = choose|n: int| 0 <= n < all@.len() && #[trigger] all@[n].0@ == k;
                    assert(key_set(removed@).contains(all@[n].0@));
                }
                if key_set(removed@).contains(k) {
                    let j = choose|j: int| 0 <= j < removed@.len() && #[trigger] removed@[j]@ == k;
                    assert(self@.contains_key(removed@[j]@));
                }
            }
            assert(self@.remove_keys(key_set(removed@)) =~= live_at(self@, now as int));
        }
        if removed.len() > 0 {
            publish_empty_all(&mut self.map, &removed);
        } else {
            proof {
                assert(self@ =~= self@.remove_keys(key_set(removed@)));
            }
        }
        removed
    }

    /// One sweep at the current time, read from the clock: deletes what is
    /// stale at that instant and returns the deleted keys.
    pub fn sweep(&mut self) -> (removed: Vec<String>)
        ensures
            exists|now: i64|
                final(self)@ == live_at(old(self)@, now as int) && lists_stale(
                    old(self)@,
                    now as int,
                    removed@,
                ),
    {
        let now = now_millis();
        self.evict_stale(now)
    }
}

impl PinReader {
    /// A copy of the entry that was published under the key when the handle
    /// looked, if there was one. The store may have changed since.
    pub fn peek(&self, key: &str) -> Option<PinItem> {
        reader_get_one(&self.handle, key)
    }
}

/// Whether a record stamped `timestamp` is stale at the instant `now`.
pub fn stale_at(timestamp: i64, now: i64) -> (stale: bool)
    ensures
        stale == is_stale(timestamp as int, now as int),
{
    now as i128 - timestamp as i128 > STALE_AGE_MILLIS as i128
}

} // verus!
