//! Saved entries and the store that keeps them in canonical order.
use vstd::prelude::*;

use crate::errors::Error;
use crate::seqs::{lemma_filter_prefix, lemma_filter_remove, lemma_filter_suffix};

verus! {

/// The kind of content an entry links to.
#[derive(Clone, Copy, Debug, PartialEq, Eq, Structural)]
pub enum EntrySourceType {
    Article,
    Video,
}

/// The source type that a stored code stands for: `1` is a video, every
/// other code (including unknown ones) an article.
pub open spec fn source_type_of_code(code: i64) -> EntrySourceType {
    if code == 1 {
        EntrySourceType::Video
    } else {
        EntrySourceType::Article
    }
}

impl EntrySourceType {
    /// The code under which the source type is stored.
    pub fn code(&self) -> (r: i64)
        ensures
            source_type_of_code(r) == *self,
            r == (if *self == EntrySourceType::Video { 1i64 } else { 0i64 }),
    {
        match self {
            EntrySourceType::Article => 0,
            EntrySourceType::Video => 1,
        }
    }
}

impl From<i64> for EntrySourceType {
    fn from(value: i64) -> Self {
        match value {
            0 => EntrySourceType::Article,
            1 => EntrySourceType::Video,
            _ => EntrySourceType::Article,
        }
    }
}

impl vstd::std_specs::convert::FromSpecImpl<i64> for EntrySourceType {
    open spec fn obeys_from_spec() -> bool {
        true
    }

    open spec fn from_spec(v: i64) -> EntrySourceType {
        source_type_of_code(v)
    }
}

/// A saved link. `created_at` is in nanoseconds since the Unix epoch (UTC).
#[derive(Debug)]
pub struct Entry {
    pub id: i64,
    pub url: String,
    pub title: String,
    pub body: Option<String>,
    pub source_type: EntrySourceType,
    pub created_at: i64,
}

impl Clone for Entry {
    fn clone(&self) -> (r: Self)
        ensures
            r == *self,
    {
        let body = match &self.body {
            Some(b) => Some(b.clone()),
            None => None,
        };
        Entry {
            id: self.id,
            url: self.url.clone(),
            title: self.title.clone(),
            body,
            source_type: self.source_type,
            created_at: self.created_at,
        }
    }
}

/// `a` comes before `b` in the canonical order: newer first, and among
/// entries created at the same instant, the one inserted first.
pub open spec fn precedes(a: Entry, b: Entry) -> bool {
    a.created_at > b.created_at || (a.created_at == b.created_at && a.id < b.id)
}

/// Every entry precedes all entries after it.
pub open spec fn in_canonical_order(s: Seq<Entry>) -> bool {
    forall|i: int, j: int| 0 <= i < j < s.len() ==> precedes(#[trigger] s[i], #[trigger] s[j])
}

/// No two entries share an id.
pub open spec fn ids_distinct(s: Seq<Entry>) -> bool {
    forall|i: int, j: int| 0 <= i < s.len() && 0 <= j < s.len() && i != j ==> #[trigger] s[i].id != #[trigger] s[j].id
}

/// Whether an entry was created at or after `t`.
pub open spec fn created_at_or_after(t: i64) -> spec_fn(Entry) -> bool {
    |e: Entry| e.created_at >= t
}

/// Whether an entry was created strictly before `t`.
pub open spec fn created_before(t: i64) -> spec_fn(Entry) -> bool {
    |e: Entry| e.created_at < t
}

/// Whether an entry has an id other than `id`.
pub open spec fn id_differs(id: i64) -> spec_fn(Entry) -> bool {
    |e: Entry| e.id != id
}

/// The smaller of two integers.
pub open spec fn min_int(a: int, b: int) -> int {
    if a < b {
        a
    } else {
        b
    }
}

/// The number of entries that a request for `limit` entries yields out of `len`.
pub open spec fn latest_count(limit: i64, len: int) -> int {
    if limit <= 0 {
        0
    } else {
        min_int(limit as int, len)
    }
}

/// The characters of an optional string slice.
pub open spec fn opt_str_view(o: Option<&str>) -> Option<Seq<char>> {
    match o {
        Some(s) => Some(s@),
        None => None,
    }
}

/// The index of the first entry created strictly before `t`, or the length
/// when there is none.
fn first_created_before(entries: &Vec<Entry>, t: i64) -> (k: usize)
    requires
        in_canonical_order(entries@),
    ensures
        k <= entries@.len(),
        forall|i: int| 0 <= i < k ==> (#[trigger] entries@[i]).created_at >= t,
        forall|i: int| k <= i < entries@.len() ==> (#[trigger] entries@[i]).created_at < t,
{
    let mut k: usize = 0;
    while k < entries.len() && entries[k].created_at >= t
        invariant
            k <= entries@.len(),
            forall|i: int| 0 <= i < k ==> (#[trigger] entries@[i]).created_at >= t,
        decreases entries@.len() - k,
    {
        k = k + 1;
    }
    proof {
        if k < entries@.len() {
            assert forall|i: int| k <= i < entries@.len() implies (
            #[trigger] entries@[i]).created_at < t by {
                if i > k {
                    assert(precedes(entries@[k as int], entries@[i]));
                }
            }
        }
    }
    k
}

/// The entries of the service, held in canonical order. Ids are handed out
/// in increasing order and never reused.
pub struct EntryStore {
    entries: Vec<Entry>,
    next_id: i64,
}

impl View for EntryStore {
    type V = Seq<Entry>;

    closed spec fn view(&self) -> Seq<Entry> {
        self.entries@
    }
}

impl EntryStore {
    /// The id that the next entry will get.
    pub closed spec fn next_id(&self) -> i64 {
        self.next_id
    }

    /// The store's invariant: canonical order, distinct positive ids, all
    /// below the next id to hand out.
    pub closed spec fn wf(&self) -> bool {
        &&& in_canonical_order(self.entries@)
        &&& ids_distinct(self.entries@)
        &&& self.next_id >= 1
        &&& forall|i: int|
            0 <= i < self.entries@.len() ==> 1 <= #[trigger] self.entries@[i].id < self.next_id
    }

    /// An empty store.
    pub fn new() -> (r: EntryStore)
        ensures
            r.wf(),
            r@ == Seq::<Entry>::empty(),
            r.next_id() == 1,
    {
        EntryStore { entries: Vec::new(), next_id: 1 }
    }

    /// The id that the next entry will get.
    pub fn next_free_id(&self) -> (r: i64)
        ensures
            r == self.next_id(),
    {
        self.next_id
    }

    /// The number of entries held.
    pub fn len(&self) -> (r: usize)
        ensures
            r == self@.len(),
    {
        self.entries.len()
    }

    /// The ids of the entries, in canonical order.
    pub fn ids(&self) -> (r: Vec<i64>)
        ensures
            r@ == self@.map_values(|e: Entry| e.id),
    {
        let mut out: Vec<i64> = Vec::new();
        let mut i: usize = 0;
        while i < self.entries.len()
            invariant
                i <= self.entries@.len(),
                out@ =~= self.entries@.take(i as int).map_values(|e: Entry| e.id),
            decreases self.entries@.len() - i,
        {
            out.push(self.entries[i].id);
            i = i + 1;
            assert(out@ =~= self.entries@.take(i as int).map_values(|e: Entry| e.id));
        }
        assert(self.entries@.take(i as int) =~= self.entries@);
        out
    }

    /// Whether a sequence of entries can make up a store: canonical order,
    /// distinct ids, each at least 1 and below the largest `i64`.
    pub open spec fn restorable(rows: Seq<Entry>) -> bool {
        &&& in_canonical_order(rows)
        &&& ids_distinct(rows)
        &&& forall|i: int| 0 <= i < rows.len() ==> 1 <= #[trigger] rows[i].id < i64::MAX
    }

    /// The id a restored store hands out next: one past the largest id
    /// held, and never below `floor` (the next id saved with the rows) nor
    /// below 1.
    pub open spec fn restored_next_id(rows: Seq<Entry>, floor: i64) -> i64
        decreases rows.len(),
    {
        if rows.len() == 0 {
            if floor < 1 {
                1
            } else {
                floor
            }
        } else {
            let rest = EntryStore::restored_next_id(rows.drop_last(), floor);
            if rows.last().id >= rest {
                (rows.last().id + 1) as i64
            } else {
                rest
            }
        }
    }

    /// A store holding `rows`, as saved earlier together with `floor`, the
    /// next id at the time; None when the rows cannot make up a store. Ids
    /// handed out before, deleted entries' included, stay below the next id.
    pub fn restore(rows: Vec<Entry>, floor: i64) -> (r: Option<EntryStore>)
        ensures
            r is Some <==> EntryStore::restorable(rows@),
            r is Some ==> r->Some_0.wf() && r->Some_0@ == rows@,
            r is Some ==> r->Some_0.next_id() == EntryStore::restored_next_id(rows@, floor),
            r is Some ==> r->Some_0.next_id() >= floor && r->Some_0.next_id() >= 1,
            r is Some ==> forall|i: int|
                0 <= i < rows@.len() ==> #[trigger] rows@[i].id < r->Some_0.next_id(),
    {
        let n = rows.len();
        let mut next_id: i64 = if floor < 1 {
            1
        } else {
            floor
        };
        let mut i: usize = 0;
        assert(rows@.take(0) =~= Seq::<Entry>::empty());
        while i < n
            invariant
                n == rows@.len(),
                i <= n,
                1 <= next_id,
                next_id >= floor,
                next_id == EntryStore::restored_next_id(rows@.take(i as int), floor),
                forall|a: int| 0 <= a < i ==> 1 <= #[trigger] rows@[a].id < next_id,
                forall|a: int, b: int|
                    0 <= a < i && a < b < n ==> precedes(#[trigger] rows@[a], #[trigger] rows@[b])
                        && rows@[a].id != rows@[b].id,
            decreases n - i,
        {
            let id = rows[i].id;
            if id < 1 || id == i64::MAX {
                return None;
            }
            let mut j: usize = i + 1;
            while j < n
                invariant
                    n == rows@.len(),
                    i < n,
                    i < j <= n,
                    forall|b: int|
                        i < b < j ==> precedes(rows@[i as int], #[trigger] rows@[b])
                            && rows@[i as int].id != rows@[b].id,
                decreases n - j,
            {
                let a = &rows[i];
                let b = &rows[j];
                let ordered = a.created_at > b.created_at || (a.created_at == b.created_at
                    && a.id < b.id);
                if !ordered || a.id == b.id {
                    return None;
                }
                j = j + 1;
            }
            assert(rows@.take(i + 1).drop_last() =~= rows@.take(i as int));
            if id >= next_id {
                next_id = id + 1;
            }
            i = i + 1;
        }
        assert(rows@.take(n as int) =~= rows@);
        proof {
            assert forall|a: int, b: int|
                0 <= a < rows@.len() && 0 <= b < rows@.len() && a != b implies #[trigger] rows@[a].id
                != #[trigger] rows@[b].id by {
                if a < b {
                    assert(rows@[a].id != rows@[b].id);
                } else {
                    assert(rows@[b].id != rows@[a].id);
                }
            }
        }
        Some(EntryStore { entries: rows, next_id })
    }
}

impl Entry {
    /// Stores a new entry created at `now`. It gets the store's next id and
    /// takes its place in the canonical order: after every entry created at
    /// or after `now`, before every older one. Fails only when the ids are
    /// exhausted, and then leaves the store as it was.
    pub fn create(
        store: &mut EntryStore,
        url: &str,
        title: &str,
        body: Option<&str>,
        source_type: EntrySourceType,
        now: i64,
    ) -> (r: Result<Entry, Error>)
        requires
            old(store).wf(),
        ensures
            final(store).wf(),
            old(store).next_id() == i64::MAX ==> r == Err::<Entry, Error>(Error::Storage),
            old(store).next_id() == i64::MAX ==> *final(store) == *old(store),
            old(store).next_id() < i64::MAX ==> {
                &&& r is Ok
                &&& r->Ok_0.id == old(store).next_id()
                &&& r->Ok_0.id >= 1
                &&& forall|i: int|
                    0 <= i < old(store)@.len() ==> #[trigger] old(store)@[i].id < r->Ok_0.id
                &&& r->Ok_0.url@ == url@
                &&& r->Ok_0.title@ == title@
                &&& r->Ok_0.body.deep_view() == opt_str_view(body)
                &&& r->Ok_0.source_type == source_type
                &&& r->Ok_0.created_at == now
                &&& final(store).next_id() == old(store).next_id() + 1
                &&& final(store)@ == old(store)@.filter(created_at_or_after(now)).push(r->Ok_0)
                    + old(store)@.filter(created_before(now))
            },
    {
        if store.next_id == i64::MAX {
            return Err(Error::Storage);
        }
        let body = match body {
            Some(b) => Some(String::from_str(b)),
            None => None,
        };
        let entry = Entry {
            id: store.next_id,
            url: String::from_str(url),
            title: String::from_str(title),
            body,
            source_type,
            created_at: now,
        };
        let ghost before = store.entries@;
        let k = first_created_before(&store.entries, now);
        store.entries.insert(k, entry.clone());
        store.next_id = store.next_id + 1;
        proof {
            let after = store.entries@;
            assert(after == before.insert(k as int, entry));
            lemma_filter_prefix(before, created_at_or_after(now), k as int);
            lemma_filter_suffix(before, created_before(now), k as int);
            assert(after =~= before.take(k as int).push(entry) + before.skip(k as int));
            assert forall|i: int, j: int| 0 <= i < j < after.len() implies precedes(
                #[trigger] after[i],
                #[trigger] after[j],
            ) by {
                if j < k {
                    assert(precedes(before[i], before[j]));
                } else if j == k {
                    assert(before[i].id < entry.id);
                } else if i == k {
                    assert(before[j - 1].created_at < now);
                } else if i < k {
                    assert(precedes(before[i], before[j - 1]));
                } else {
                    assert(precedes(before[i - 1], before[j - 1]));
                }
            }
            assert forall|i: int, j: int|
                0 <= i < after.len() && 0 <= j < after.len() && i != j implies #[trigger] after[i].id
                != #[trigger] after[j].id by {
                if i < k && j < k {
                } else if i < k && j > k {
                    assert(before[i].id != before[j - 1].id);
                } else if i > k && j < k {
                    assert(before[i - 1].id != before[j].id);
                } else if i > k && j > k {
                    assert(before[i - 1].id != before[j - 1].id);
                }
            }
            assert forall|i: int| 0 <= i < after.len() implies 1 <= #[trigger] after[i].id
                < store.next_id by {
                if i < k {
                } else if i > k {
                    assert(before[i - 1].id < entry.id);
                }
            }
        }
        Ok(entry)
    }

    /// All entries, in canonical order.
    pub fn fetch_all(store: &EntryStore) -> (r: Vec<Entry>)
        requires
            store.wf(),
        ensures
            r@ == store@,
            in_canonical_order(r@),
    {
        let n = store.entries.len();
        Entry::fetch_first(store, n)
    }

    /// The first `n` entries of the store (all of them when there are fewer).
    fn fetch_first(store: &EntryStore, n: usize) -> (r: Vec<Entry>)
        ensures
            r@ == store@.take(min_int(n as int, store@.len() as int)),
    {
        let len = store.entries.len();
        let m = if n < len {
            n
        } else {
            len
        };
        let mut out: Vec<Entry> = Vec::new();
        let mut i: usize = 0;
        while i < m
            invariant
                m <= store.entries@.len(),
                i <= m,
                out@ == store.entries@.take(i as int),
            decreases m - i,
        {
            out.push(store.entries[i].clone());
            i = i + 1;
            assert(out@ =~= store.entries@.take(i as int));
        }
        proof {
            if m == store.entries@.len() {
                assert(store.entries@.take(m as int) =~= store.entries@.take(
                    min_int(n as int, store@.len() as int),
                ));
            }
        }
        out
    }

    /// The `limit` most recent entries in canonical order: none when `limit`
    /// is zero or less, all of them when fewer exist. Every entry returned
    /// precedes every entry left out.
    pub fn fetch_latest(store: &EntryStore, limit: i64) -> (r: Vec<Entry>)
        requires
            store.wf(),
        ensures
            r@ == store@.take(latest_count(limit, store@.len() as int)),
            in_canonical_order(r@),
            r@.len() <= if limit <= 0 { 0 } else { limit as int },
            forall|i: int, j: int|
                0 <= i < r@.len() <= j < store@.len() ==> precedes(
                    #[trigger] store@[i],
                    #[trigger] store@[j],
                ),
    {
        let n: usize = if limit <= 0 {
            0
        } else if limit as u64 >= store.entries.len() as u64 {
            store.entries.len()
        } else {
            limit as usize
        };
        Entry::fetch_first(store, n)
    }

    /// Removes the entry with id `id`; tells whether there was one.
    pub fn delete_by_id(store: &mut EntryStore, id: i64) -> (r: bool)
        requires
            old(store).wf(),
        ensures
            final(store).wf(),
            final(store).next_id() == old(store).next_id(),
            r == exists|i: int| 0 <= i < old(store)@.len() && (#[trigger] old(store)@[i]).id == id,
            final(store)@ == old(store)@.filter(id_differs(id)),
    {
        let ghost before = store.entries@;
        let mut k: usize = 0;
        while k < store.entries.len() && store.entries[k].id != id
            invariant
                store.entries@ == before,
                k <= before.len(),
                forall|i: int| 0 <= i < k ==> (#[trigger] before[i]).id != id,
            decreases before.len() - k,
        {
            k = k + 1;
        }
        if k == store.entries.len() {
            proof {
                lemma_filter_prefix(before, id_differs(id), before.len() as int);
                assert(before.take(before.len() as int) =~= before);
            }
            false
        } else {
            store.entries.remove(k);
            proof {
                assert forall|i: int| 0 <= i < before.len() && i != k implies id_differs(id)(
                    #[trigger] before[i],
                ) by {
                    assert(before[i].id != before[k as int].id);
                }
                lemma_filter_remove(before, id_differs(id), k as int);
                let after = store.entries@;
                assert forall|i: int, j: int| 0 <= i < j < after.len() implies precedes(
                    #[trigger] after[i],
                    #[trigger] after[j],
                ) by {
                    if j < k {
                        assert(precedes(before[i], before[j]));
                    } else if i < k {
                        assert(precedes(before[i], before[j + 1]));
                    } else {
                        assert(precedes(before[i + 1], before[j + 1]));
                    }
                }
                assert forall|i: int, j: int|
                    0 <= i < after.len() && 0 <= j < after.len() && i != j implies #[trigger] after[i].id
                    != #[trigger] after[j].id by {
                    let a = if i < k { i } else { i + 1 };
                    let b = if j < k { j } else { j + 1 };
                    assert(before[a].id != before[b].id);
                }
                assert forall|i: int| 0 <= i < after.len() implies 1 <= #[trigger] after[i].id
                    < store.next_id by {
                    if i >= k {
                        assert(after[i] == before[i + 1]);
                    }
                }
            }
            true
        }
    }

    /// Removes every entry created strictly before `cutoff`; entries created
    /// at `cutoff` or later stay. Returns how many were removed.
    pub fn delete_older_than(store: &mut EntryStore, cutoff: i64) -> (r: u64)
        requires
            old(store).wf(),
        ensures
            final(store).wf(),
            final(store).next_id() == old(store).next_id(),
            final(store)@ == old(store)@.filter(created_at_or_after(cutoff)),
            r == old(store)@.len() - final(store)@.len(),
    {
        let ghost before = store.entries@;
        let k = first_created_before(&store.entries, cutoff);
        let removed = (store.entries.len() - k) as u64;
        store.entries.truncate(k);
        proof {
            lemma_filter_prefix(before, created_at_or_after(cutoff), k as int);
        }
        removed
    }

    /// Keeps the `max` entries that come first in the canonical order (the
    /// most recent ones) and removes the rest; nothing is removed when there
    /// are no more than `max`. Returns how many were removed.
    pub fn delete_beyond_limit(store: &mut EntryStore, max: u32) -> (r: u64)
        requires
            old(store).wf(),
        ensures
            final(store).wf(),
            final(store).next_id() == old(store).next_id(),
            final(store)@ == old(store)@.take(min_int(max as int, old(store)@.len() as int)),
            final(store)@.len() == min_int(max as int, old(store)@.len() as int),
            r == old(store)@.len() - final(store)@.len(),
            forall|i: int, j: int|
                0 <= i < final(store)@.len() <= j < old(store)@.len() ==> precedes(
                    #[trigger] old(store)@[i],
                    #[trigger] old(store)@[j],
                ),
    {
        let len = store.entries.len();
        if (max as u64) < (len as u64) {
            store.entries.truncate(max as usize);
            (len - max as usize) as u64
        } else {
            proof {
                assert(store.entries@.take(len as int) =~= store.entries@);
            }
            0
        }
    }
}

} // verus!
