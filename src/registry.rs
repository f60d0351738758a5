//! The shared store of tracked windows: a map from window identity to the
//! owning process and the current title.
use vstd::prelude::*;
use std::collections::HashMap;
use vstd::std_specs::iter::IteratorSpec;

verus! {

/// Stable identity of a native top-level window; used purely as a map key.
pub type WindowKey = isize;

/// What is recorded for one tracked window.
pub struct WindowEntry {
    /// The resolved, true owning process.
    pub pid: u32,
    /// The current title; may be empty.
    pub title: String,
}

/// Mathematical model of a [`WindowEntry`].
pub struct EntryView {
    pub pid: u32,
    pub title: Seq<char>,
}

impl View for WindowEntry {
    type V = EntryView;

    open spec fn view(&self) -> EntryView {
        EntryView { pid: self.pid, title: self.title@ }
    }
}

impl WindowEntry {
    /// A copy of this entry holding the same owner and title.
    pub fn duplicate(&self) -> (r: WindowEntry)
        ensures
            r@ == self@,
    {
        WindowEntry { pid: self.pid, title: self.title.clone() }
    }
}

/// The model of an entry built from an owner and a title.
pub open spec fn entry_of(pid: u32, title: Seq<char>) -> EntryView {
    EntryView { pid, title }
}

/// Registry of tracked windows, keyed by window.
pub struct Registry {
    map: HashMap<WindowKey, WindowEntry>,
}

broadcast use vstd::std_specs::hash::group_hash_axioms;

impl View for Registry {
    type V = Map<WindowKey, EntryView>;

    closed spec fn view(&self) -> Map<WindowKey, EntryView> {
        self.map@.map_values(|e: WindowEntry| e@)
    }
}

impl Registry {
    /// An empty registry.
    pub fn new() -> (r: Registry)
        ensures
            r@ == Map::<WindowKey, EntryView>::empty(),
    {
        let r = Registry { map: HashMap::new() };
        assert(r@ =~= Map::<WindowKey, EntryView>::empty());
        r
    }

    /// Inserts or overwrites the full entry for `key`.
    pub fn upsert(&mut self, key: WindowKey, pid: u32, title: String)
        ensures
            final(self)@ == old(self)@.insert(key, entry_of(pid, title@)),
    {
        self.map.insert(key, WindowEntry { pid, title });
        assert(self@ =~= old(self)@.insert(key, entry_of(pid, title@)));
    }

    /// Replaces the title of `key` if it is tracked; otherwise nothing changes
    /// (a rename never creates an entry).
    pub fn update_title(&mut self, key: WindowKey, title: String)
        ensures
            final(self)@ == if old(self)@.contains_key(key) {
                old(self)@.insert(key, entry_of(old(self)@[key].pid, title@))
            } else {
                old(self)@
            },
            !old(self)@.contains_key(key) ==> final(self)@ == old(self)@,
    {
        let pid = match self.map.get(&key) {
            Some(e) => e.pid,
            None => {
                return;
            },
        };
        let ghost tv = title@;
        self.map.insert(key, WindowEntry { pid, title });
        assert(self@ =~= old(self)@.insert(key, entry_of(old(self)@[key].pid, tv)));
    }

    /// Forgets `key`; removing an absent key is a no-op.
    pub fn remove(&mut self, key: WindowKey)
        ensures
            final(self)@ == old(self)@.remove(key),
            !old(self)@.contains_key(key) ==> final(self)@ == old(self)@,
    {
        self.map.remove(&key);
        assert(self@ =~= old(self)@.remove(key));
        assert(!old(self)@.contains_key(key) ==> old(self)@.remove(key) =~= old(self)@);
    }

    /// The entry tracked for `key`, if any.
    pub fn get(&self, key: WindowKey) -> (r: Option<&WindowEntry>)
        ensures
            match r {
                Some(e) => self@.contains_key(key) && e@ == self@[key],
                None => !self@.contains_key(key),
            },
    {
        self.map.get(&key)
    }

    /// A point-in-time copy of every tracked window, taken without any
    /// further processing.
    pub fn snapshot(&self) -> (r: Registry)
        ensures
            r@ == self@,
    {
        let mut copy: HashMap<WindowKey, WindowEntry> = HashMap::new();
        for (k, v) in it: self.map.iter()
            invariant
                forall|q: WindowKey| #[trigger] copy@.contains_key(q) ==> self.map@.contains_key(q)
                    && copy@[q]@ == self.map@[q]@,
                forall|j: int| 0 <= j < it.index() ==> copy@.contains_key(*#[trigger] it.seq()[j].0),
        {
            let e = v.duplicate();
            copy.insert(*k, e);
        }
        let r = Registry { map: copy };
        proof {
            let s = vstd::std_specs::hash::spec_hash_map_iter(&self.map).remaining();
            assert forall|q: WindowKey| #[trigger] self.map@.contains_key(q) implies r.map@.contains_key(q) by {
                assert(s.contains((&q, &self.map@[q])));
                let j = choose|j: int| 0 <= j < s.len() && s[j] == (&q, &self.map@[q]);
                assert(r.map@.contains_key(*s[j].0));
            }
            assert(r@ =~= self@);
        }
        r
    }

    /// Every tracked window, ordered by owning process and then by key.
    pub fn ordered_rows(&self) -> (rows: Vec<(WindowKey, WindowEntry)>)
        ensures
            rows_are_snapshot_of(rows@, self@),
    {
        let mut rows: Vec<(WindowKey, WindowEntry)> = Vec::new();
        proof {
            let ks = vstd::std_specs::hash::spec_keys_iter(&self.map).remaining();
            assert forall|j: int| 0 <= j < ks.len() implies self@.contains_key(*#[trigger] ks[j]) by {
                assert(ks.unref()[j] == *ks[j]);
                assert(ks.unref().contains(*ks[j]));
                assert(ks.unref().to_set().contains(*ks[j]));
            }
        }
        for k in it: self.map.keys()
            invariant
                it.seq().no_duplicates(),
                forall|j: int| 0 <= j < it.seq().len() ==> self@.contains_key(*#[trigger] it.seq()[j]),
                rows_ordered(rows@),
                rows_drawn_from(rows@, it.seq(), it.index()),
                rows_match(rows@, self@),
                rows_cover(rows@, it.seq(), it.index()),
        {
            let entry = match self.map.get(k) {
                Some(e) => e.duplicate(),
                None => {
                    return rows;
                },
            };
            let ghost old_rows = rows@;
            let ghost idx = it.index();
            proof {
                lemma_key_not_listed(old_rows, it.seq(), idx);
            }
            let p = insert_in_order(&mut rows, *k, entry);
            proof {
                lemma_rows_extend(it.seq(), idx, old_rows, rows@, p as int);
            }
        }
        proof {
            let s = vstd::std_specs::hash::spec_keys_iter(&self.map).remaining();
            assert forall|q: WindowKey| #[trigger] self@.contains_key(q) implies exists|r: int|
                0 <= r < rows@.len() && rows@[r].0 == q by {
                assert(s.unref().to_set().contains(q));
                let j = choose|j: int| 0 <= j < s.len() && *s[j] == q;
                assert(*s[j] == q);
            }
        }
        rows
    }
}

/// Every listed row has one of the first `i` keys.
spec fn rows_drawn_from(rows: Seq<(WindowKey, WindowEntry)>, keys: Seq<&WindowKey>, i: int) -> bool {
    forall|r: int| #![trigger rows[r]] 0 <= r < rows.len() ==> exists|j: int|
        0 <= j < i && *#[trigger] keys[j] == rows[r].0
}

/// Every listed row copies the entry of its key.
spec fn rows_match(rows: Seq<(WindowKey, WindowEntry)>, m: Map<WindowKey, EntryView>) -> bool {
    forall|r: int| #![trigger rows[r]] 0 <= r < rows.len() ==> m.contains_key(rows[r].0) && m[rows[r].0] == rows[r].1@
}

/// Each of the first `i` keys is listed.
spec fn rows_cover(rows: Seq<(WindowKey, WindowEntry)>, keys: Seq<&WindowKey>, i: int) -> bool {
    forall|j: int| 0 <= j < i ==> exists|r: int| 0 <= r < rows.len() && rows[r].0 == *#[trigger] keys[j]
}

/// A key beyond the first `i` of a list without repeats is not yet listed.
proof fn lemma_key_not_listed(rows: Seq<(WindowKey, WindowEntry)>, keys: Seq<&WindowKey>, i: int)
    requires
        0 <= i < keys.len(),
        keys.no_duplicates(),
        rows_drawn_from(rows, keys, i),
    ensures
        forall|r: int| 0 <= r < rows.len() ==> #[trigger] rows[r].0 != *keys[i],
{
    assert forall|r: int| 0 <= r < rows.len() implies #[trigger] rows[r].0 != *keys[i] by {
        assert(rows[r] == rows[r]);
        let j = choose|j: int| 0 <= j < i && *#[trigger] keys[j] == rows[r].0;
        assert(keys[j] != keys[i]);
    }
}

/// Listing the `i`-th key at place `p` keeps the rows drawn from, and
/// covering, the keys listed so far.
proof fn lemma_rows_extend(
    keys: Seq<&WindowKey>,
    i: int,
    old_rows: Seq<(WindowKey, WindowEntry)>,
    rows: Seq<(WindowKey, WindowEntry)>,
    p: int,
)
    requires
        0 <= i < keys.len(),
        0 <= p <= old_rows.len(),
        rows == old_rows.insert(p, rows[p]),
        rows[p].0 == *keys[i],
        rows_drawn_from(old_rows, keys, i),
        rows_cover(old_rows, keys, i),
    ensures
        rows_drawn_from(rows, keys, i + 1),
        rows_cover(rows, keys, i + 1),
{
    assert forall|r: int| #![trigger rows[r]] 0 <= r < rows.len() implies exists|j: int|
        0 <= j < i + 1 && *#[trigger] keys[j] == rows[r].0 by {
        if r < p {
            assert(rows[r] == old_rows[r]);
        } else if r == p {
            assert(*keys[i] == rows[r].0);
        } else {
            assert(rows[r] == old_rows[r - 1]);
        }
    }
    assert forall|j: int| 0 <= j < i + 1 implies exists|r: int|
        0 <= r < rows.len() && rows[r].0 == *#[trigger] keys[j] by {
        if j == i {
            assert(rows[p].0 == *keys[j]);
        } else {
            let r = choose|r: int| 0 <= r < old_rows.len() && old_rows[r].0 == *#[trigger] keys[j];
            if r < p {
                assert(rows[r] == old_rows[r]);
            } else {
                assert(rows[r + 1] == old_rows[r]);
            }
        }
    }
}

/// Inserts a row for a key not yet listed at the place that keeps `rows`
/// in display order; returns that place.
fn insert_in_order(rows: &mut Vec<(WindowKey, WindowEntry)>, key: WindowKey, entry: WindowEntry) -> (p: usize)
    requires
        rows_ordered(old(rows)@),
        forall|r: int| 0 <= r < old(rows)@.len() ==> #[trigger] old(rows)@[r].0 != key,
    ensures
        p <= old(rows)@.len(),
        final(rows)@ == old(rows)@.insert(p as int, (key, entry)),
        rows_ordered(final(rows)@),
{
    let ghost old_rows = rows@;
    let mut p: usize = 0;
    while p < rows.len() && row_precedes(rows[p].0, rows[p].1.pid, key, entry.pid)
        invariant
            p <= rows@.len(),
            rows@ == old_rows,
            forall|r: int| 0 <= r < p ==> #[trigger] precedes(rows@[r].0, rows@[r].1.pid, key, entry.pid),
        decreases rows@.len() - p,
    {
        p = p + 1;
    }
    let ghost x = (key, entry);
    rows.insert(p, (key, entry));
    proof {
        let n = rows@;
        assert forall|a: int, b: int| 0 <= a < b < n.len() implies #[trigger] precedes(n[a].0, n[a].1.pid, n[b].0, n[b].1.pid) by {
            if b < p {
                assert(n[a] == old_rows[a] && n[b] == old_rows[b]);
            } else if b == p {
                assert(n[a] == old_rows[a]);
            } else if a < p {
                assert(n[a] == old_rows[a] && n[b] == old_rows[b - 1]);
                assert(precedes(old_rows[a].0, old_rows[a].1.pid, key, x.1.pid));
            } else if a == p {
                assert(n[b] == old_rows[b - 1]);
                assert(old_rows[p as int].0 != key);
                if b - 1 > p {
                    assert(precedes(old_rows[p as int].0, old_rows[p as int].1.pid, old_rows[b - 1].0, old_rows[b - 1].1.pid));
                }
            } else {
                assert(n[a] == old_rows[a - 1] && n[b] == old_rows[b - 1]);
                assert(precedes(old_rows[a - 1].0, old_rows[a - 1].1.pid, old_rows[b - 1].0, old_rows[b - 1].1.pid));
            }
        }
    }
    p
}

/// Display order of two windows: by owning process, then by key.
pub open spec fn precedes(k1: WindowKey, p1: u32, k2: WindowKey, p2: u32) -> bool {
    p1 < p2 || (p1 == p2 && k1 < k2)
}

/// Whether window `k1` of process `p1` is listed before window `k2` of process `p2`.
pub fn row_precedes(k1: WindowKey, p1: u32, k2: WindowKey, p2: u32) -> (r: bool)
    ensures
        r == precedes(k1, p1, k2, p2),
{
    p1 < p2 || (p1 == p2 && k1 < k2)
}

/// Rows strictly increasing in display order.
pub open spec fn rows_ordered(rows: Seq<(WindowKey, WindowEntry)>) -> bool {
    forall|a: int, b: int|
        0 <= a < b < rows.len() ==> #[trigger] precedes(rows[a].0, rows[a].1.pid, rows[b].0, rows[b].1.pid)
}

/// `rows` lists exactly the entries of `m`, each once, in display order.
pub open spec fn rows_are_snapshot_of(rows: Seq<(WindowKey, WindowEntry)>, m: Map<WindowKey, EntryView>) -> bool {
    &&& rows_ordered(rows)
    &&& forall|r: int| 0 <= r < rows.len() ==> {
        &&& #[trigger] m.contains_key(rows[r].0)
        &&& m[rows[r].0] == rows[r].1@
    }
    &&& forall|k: WindowKey| #[trigger] m.contains_key(k) ==> exists|r: int| 0 <= r < rows.len() && rows[r].0 == k
}

} // verus!
