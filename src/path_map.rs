use vstd::prelude::*;
use crate::path::{segs_view, path_eq};

verus! {

/// The slot of the first entry at or after `i` whose path is `k`.
pub open spec fn first_slot<V>(e: Seq<(Vec<String>, Option<V>)>, k: Seq<Seq<char>>, i: int) -> Option<Option<V>>
    decreases e.len() - i,
{
    if i < 0 || i >= e.len() {
        None
    } else if segs_view(e[i].0@) == k {
        Some(e[i].1)
    } else {
        first_slot(e, k, i + 1)
    }
}

proof fn lemma_skip<V>(e: Seq<(Vec<String>, Option<V>)>, k: Seq<Seq<char>>, j: int, i: int)
    requires
        0 <= j <= i <= e.len(),
        forall|m: int| j <= m < i ==> segs_view(#[trigger] e[m].0@) != k,
    ensures
        first_slot(e, k, j) == first_slot(e, k, i),
    decreases i - j,
{
    if j < i {
        lemma_skip(e, k, j + 1, i);
    }
}

proof fn lemma_update_other<V>(e: Seq<(Vec<String>, Option<V>)>, i: int, x: (Vec<String>, Option<V>), k: Seq<Seq<char>>, j: int)
    requires
        0 <= i < e.len(),
        0 <= j,
        segs_view(e[i].0@) == segs_view(x.0@),
        segs_view(x.0@) != k,
    ensures
        first_slot(e.update(i, x), k, j) == first_slot(e, k, j),
    decreases e.len() - j,
{
    if j < e.len() {
        lemma_update_other(e, i, x, k, j + 1);
    }
}

proof fn lemma_push<V>(e: Seq<(Vec<String>, Option<V>)>, x: (Vec<String>, Option<V>), k: Seq<Seq<char>>, j: int)
    requires
        0 <= j <= e.len(),
    ensures
        first_slot(e.push(x), k, j) == (if first_slot(e, k, j) is Some {
            first_slot(e, k, j)
        } else if segs_view(x.0@) == k {
            Some(x.1)
        } else {
            None
        }),
    decreases e.len() - j,
{
    if j < e.len() {
        assert(e.push(x)[j] == e[j]);
        lemma_push(e, x, k, j + 1);
    } else {
        assert(e.push(x)[j] == x);
        assert(first_slot(e.push(x), k, j + 1) is None);
    }
}

/// A map from property paths to values, kept as a list of slots in first-insertion order.
/// Removing a path empties its slot.
#[derive(Debug)]
pub struct PathMap<V> {
    pub entries: Vec<(Vec<String>, Option<V>)>,
}

impl<V> PathMap<V> {
    /// The value stored under path `k`.
    pub open spec fn lookup(&self, k: Seq<Seq<char>>) -> Option<V> {
        match first_slot(self.entries@, k, 0) {
            Some(o) => o,
            None => None,
        }
    }

    pub fn new() -> (r: Self)
        ensures
            forall|k: Seq<Seq<char>>| #[trigger] r.lookup(k) is None,
            r.entries@.len() == 0,
            slots_unique(r.entries@),
    {
        PathMap { entries: Vec::new() }
    }

    fn find(&self, key: &[String]) -> (r: Option<usize>)
        ensures
            r matches Some(i) ==> i < self.entries@.len()
                && segs_view(self.entries@[i as int].0@) == segs_view(key@)
                && forall|m: int| 0 <= m < i ==> segs_view(#[trigger] self.entries@[m].0@) != segs_view(key@),
            r is None ==> first_slot(self.entries@, segs_view(key@), 0) is None,
    {
        let mut i: usize = 0;
        while i < self.entries.len()
            invariant
                0 <= i <= self.entries@.len(),
                forall|m: int| 0 <= m < i ==> segs_view(#[trigger] self.entries@[m].0@) != segs_view(key@),
            decreases self.entries@.len() - i,
        {
            if path_eq(self.entries[i].0.as_slice(), key) {
                return Some(i);
            }
            i = i + 1;
        }
        proof {
            lemma_skip(self.entries@, segs_view(key@), 0, self.entries@.len() as int);
        }
        None
    }

    /// The value stored under `key`.
    pub fn get(&self, key: &[String]) -> (r: Option<&V>)
        ensures
            crate::schema::deref_opt(r) == self.lookup(segs_view(key@)),
    {
        match self.find(key) {
            Some(i) => {
                proof {
                    lemma_skip(self.entries@, segs_view(key@), 0, i as int);
                }
                match &self.entries[i].1 {
                    Some(v) => Some(v),
                    None => None,
                }
            },
            None => None,
        }
    }

    /// True when a value is stored under `key`.
    pub fn contains(&self, key: &[String]) -> (r: bool)
        ensures
            r == self.lookup(segs_view(key@)) is Some,
    {
        self.get(key).is_some()
    }

    /// Stores `v` under `key`, returning what was stored there before.
    pub fn insert(&mut self, key: Vec<String>, v: V) -> (r: Option<V>)
        ensures
            r == old(self).lookup(segs_view(key@)),
            slots_unique(old(self).entries@) ==> slots_unique(final(self).entries@),
            final(self).lookup(segs_view(key@)) == Some(v),
            forall|k: Seq<Seq<char>>| k != segs_view(key@) ==> #[trigger] final(self).lookup(k) == old(self).lookup(k),
    {
        let ghost k0 = segs_view(key@);
        match self.find(key.as_slice()) {
            Some(i) => {
                let mut slot = (key, Some(v));
                let ghost x = slot;
                let ghost e = self.entries@;
                self.entries.set_and_swap(i, &mut slot);
                proof {
                    lemma_skip(e, k0, 0, i as int);
                    lemma_skip(e.update(i as int, x), k0, 0, i as int);
                    assert forall|k: Seq<Seq<char>>| k != k0 implies #[trigger] first_slot(e.update(i as int, x), k, 0) == first_slot(e, k, 0) by {
                        lemma_update_other(e, i as int, x, k, 0);
                    }
                    if slots_unique(e) {
                        assert forall|a: int, b: int| 0 <= a < self.entries@.len() && 0 <= b < self.entries@.len() && a != b
                            implies segs_view(#[trigger] self.entries@[a].0@) != segs_view(#[trigger] self.entries@[b].0@) by {
                            assert(segs_view(self.entries@[a].0@) == segs_view(e[a].0@));
                            assert(segs_view(self.entries@[b].0@) == segs_view(e[b].0@));
                        }
                    }
                }
                slot.1
            },
            None => {
                let ghost e = self.entries@;
                let x = (key, Some(v));
                proof {
                    assert forall|j: int| 0 <= j < e.len() implies segs_view(#[trigger] e[j].0@) != k0 by {
                        if segs_view(e[j].0@) == k0 {
                            lemma_skip_to(e, k0, j);
                        }
                    }
                    assert forall|k: Seq<Seq<char>>| true implies #[trigger] first_slot(e.push(x), k, 0) == (if first_slot(e, k, 0) is Some {
                        first_slot(e, k, 0) } else if segs_view(x.0@) == k { Some(x.1) } else { None }) by {
                        lemma_push(e, x, k, 0);
                    }
                }
                self.entries.push(x);
                proof {
                    if slots_unique(e) {
                        assert forall|a: int, b: int| 0 <= a < self.entries@.len() && 0 <= b < self.entries@.len() && a != b
                            implies segs_view(#[trigger] self.entries@[a].0@) != segs_view(#[trigger] self.entries@[b].0@) by {
                            if a < e.len() {
                                assert(self.entries@[a] == e[a]);
                            }
                            if b < e.len() {
                                assert(self.entries@[b] == e[b]);
                            }
                        }
                    }
                }
                None
            },
        }
    }

    /// Removes what is stored under `key`, returning it.
    pub fn remove(&mut self, key: &[String]) -> (r: Option<V>)
        ensures
            r == old(self).lookup(segs_view(key@)),
            slots_unique(old(self).entries@) ==> slots_unique(final(self).entries@),
            final(self).lookup(segs_view(key@)) is None,
            forall|k: Seq<Seq<char>>| k != segs_view(key@) ==> #[trigger] final(self).lookup(k) == old(self).lookup(k),
    {
        let ghost k0 = segs_view(key@);
        match self.find(key) {
            Some(i) => {
                let kc = crate::path::path_clone(key);
                let mut slot: (Vec<String>, Option<V>) = (kc, None);
                let ghost x = slot;
                let ghost e = self.entries@;
                self.entries.set_and_swap(i, &mut slot);
                proof {
                    lemma_skip(e, k0, 0, i as int);
                    lemma_skip(e.update(i as int, x), k0, 0, i as int);
                    assert forall|k: Seq<Seq<char>>| k != k0 implies #[trigger] first_slot(e.update(i as int, x), k, 0) == first_slot(e, k, 0) by {
                        lemma_update_other(e, i as int, x, k, 0);
                    }
                }
                slot.1
            },
            None => None,
        }
    }
}


/// Values that can be copied, keeping their view.
pub trait Duplicate: View + Sized {
    fn duplicate(&self) -> (r: Self)
        ensures
            r@ == self@;
}

impl Duplicate for () {
    fn duplicate(&self) -> (r: Self) {
        ()
    }
}

impl Duplicate for Vec<u128> {
    fn duplicate(&self) -> (r: Self) {
        let mut r: Vec<u128> = Vec::new();
        let mut i: usize = 0;
        while i < self.len()
            invariant
                0 <= i <= self@.len(),
                r@ == self@.take(i as int),
            decreases self@.len() - i,
        {
            r.push(self[i]);
            assert(self@.take(i as int + 1) =~= self@.take(i as int).push(self@[i as int]));
            i = i + 1;
        }
        assert(self@.take(self@.len() as int) =~= self@);
        r
    }
}

/// The view of a slot.
pub open spec fn slot_view<V: View>(o: Option<Option<V>>) -> Option<Option<V::V>> {
    match o {
        Some(Some(v)) => Some(Some(v@)),
        Some(None) => Some(None),
        None => None,
    }
}

/// The view of an optional value.
pub open spec fn opt_view<V: View>(o: Option<V>) -> Option<V::V> {
    match o {
        Some(v) => Some(v@),
        None => None,
    }
}

/// Entry `j` of `a` and of `b` have the same path and the same value view.
pub open spec fn same_entry<V: View>(a: Seq<(Vec<String>, Option<V>)>, b: Seq<(Vec<String>, Option<V>)>, j: int) -> bool {
    segs_view(a[j].0@) == segs_view(b[j].0@) && opt_view(a[j].1) == opt_view(b[j].1)
}

proof fn lemma_same_entries_same_slots<V: View>(a: Seq<(Vec<String>, Option<V>)>, b: Seq<(Vec<String>, Option<V>)>, k: Seq<Seq<char>>, i: int)
    requires
        a.len() == b.len(),
        0 <= i,
        forall|j: int| 0 <= j < a.len() ==> #[trigger] same_entry(a, b, j),
    ensures
        slot_view(first_slot(a, k, i)) == slot_view(first_slot(b, k, i)),
    decreases a.len() - i,
{
    if i < a.len() {
        assert(same_entry(a, b, i));
        lemma_same_entries_same_slots(a, b, k, i + 1);
    }
}

impl<V: Duplicate> PathMap<V> {
    /// A copy that stores the same values (by view) under the same paths.
    pub fn duplicate(&self) -> (r: Self)
        ensures
            forall|k: Seq<Seq<char>>| #[trigger] opt_view(r.lookup(k)) == opt_view(self.lookup(k)),
            slots_unique(self.entries@) ==> slots_unique(r.entries@),
    {
        let mut entries: Vec<(Vec<String>, Option<V>)> = Vec::new();
        let mut i: usize = 0;
        while i < self.entries.len()
            invariant
                0 <= i <= self.entries@.len(),
                entries@.len() == i,
                forall|j: int| 0 <= j < i ==> #[trigger] same_entry(entries@, self.entries@, j),
            decreases self.entries@.len() - i,
        {
            let key = crate::path::path_clone(self.entries[i].0.as_slice());
            let value = match &self.entries[i].1 {
                Some(v) => Some(v.duplicate()),
                None => None,
            };
            let ghost before = entries@;
            entries.push((key, value));
            proof {
                assert forall|j: int| 0 <= j < i + 1 implies #[trigger] same_entry(entries@, self.entries@, j) by {
                    if j < i {
                        assert(entries@[j] == before[j]);
                        assert(same_entry(before, self.entries@, j));
                    }
                }
            }
            i = i + 1;
        }
        let r = PathMap { entries };
        proof {
            if slots_unique(self.entries@) {
                assert forall|a: int, b: int| 0 <= a < r.entries@.len() && 0 <= b < r.entries@.len() && a != b
                    implies segs_view(#[trigger] r.entries@[a].0@) != segs_view(#[trigger] r.entries@[b].0@) by {
                    assert(same_entry(r.entries@, self.entries@, a));
                    assert(same_entry(r.entries@, self.entries@, b));
                }
            }
            assert forall|k: Seq<Seq<char>>| #[trigger] opt_view(r.lookup(k)) == opt_view(self.lookup(k)) by {
                lemma_same_entries_same_slots(r.entries@, self.entries@, k, 0);
            }
        }
        r
    }
}


/// No two slots have the same path.
pub open spec fn slots_unique<V>(e: Seq<(Vec<String>, Option<V>)>) -> bool {
    forall|i: int, j: int| 0 <= i < e.len() && 0 <= j < e.len() && i != j
        ==> segs_view(#[trigger] e[i].0@) != segs_view(#[trigger] e[j].0@)
}

/// The view of the value stored under `k` in a list of pairs: the first pair with that path.
pub open spec fn pairs_lookup<V: View>(p: Seq<(Vec<String>, V)>, k: Seq<Seq<char>>) -> Option<V::V>
    decreases p.len(),
{
    if p.len() == 0 {
        None
    } else if segs_view(p[0].0@) == k {
        Some(p[0].1@)
    } else {
        pairs_lookup(p.drop_first(), k)
    }
}

proof fn lemma_pairs_push<V: View>(p: Seq<(Vec<String>, V)>, x: (Vec<String>, V), k: Seq<Seq<char>>)
    ensures
        pairs_lookup(p.push(x), k) == (if pairs_lookup(p, k) is Some {
            pairs_lookup(p, k)
        } else if segs_view(x.0@) == k {
            Some(x.1@)
        } else {
            None
        }),
    decreases p.len(),
{
    if p.len() > 0 {
        assert(p.push(x)[0] == p[0]);
        assert(p.push(x).drop_first() =~= p.drop_first().push(x));
        lemma_pairs_push(p.drop_first(), x, k);
    } else {
        assert(p.push(x)[0] == x);
        assert(p.push(x).drop_first() =~= Seq::<(Vec<String>, V)>::empty());
        assert(pairs_lookup(Seq::<(Vec<String>, V)>::empty(), k) is None);
    }
}

proof fn lemma_first_slot_absent<V>(e: Seq<(Vec<String>, Option<V>)>, k: Seq<Seq<char>>, i: int)
    requires
        0 <= i <= e.len(),
        forall|j: int| 0 <= j < e.len() ==> segs_view(#[trigger] e[j].0@) != k,
    ensures
        first_slot(e, k, i) is None,
    decreases e.len() - i,
{
    if i < e.len() {
        lemma_first_slot_absent(e, k, i + 1);
    }
}

/// The value stored under `k` by the slots before `i`, flattened.
pub open spec fn prefix_lookup<V>(e: Seq<(Vec<String>, Option<V>)>, k: Seq<Seq<char>>, i: int) -> Option<V> {
    match first_slot(e.take(i), k, 0) {
        Some(o) => o,
        None => None,
    }
}

impl<V: Duplicate> PathMap<V> {
    /// True when no two slots share a path; every map built by `new`, `insert` and `remove` is so.
    pub open spec fn keys_unique(&self) -> bool {
        slots_unique(self.entries@)
    }

    /// Checks that no two slots share a path.
    pub fn check_keys_unique(&self) -> (r: bool)
        ensures
            r == self.keys_unique(),
    {
        let n = self.entries.len();
        let mut i: usize = 0;
        while i < n
            invariant
                n == self.entries@.len(),
                0 <= i <= n,
                forall|a: int, b: int| 0 <= a < i && 0 <= b < n && a != b
                    ==> segs_view(#[trigger] self.entries@[a].0@) != segs_view(#[trigger] self.entries@[b].0@),
            decreases n - i,
        {
            let mut j: usize = 0;
            while j < n
                invariant
                    n == self.entries@.len(),
                    0 <= i < n,
                    0 <= j <= n,
                    forall|a: int, b: int| 0 <= a < i && 0 <= b < n && a != b
                        ==> segs_view(#[trigger] self.entries@[a].0@) != segs_view(#[trigger] self.entries@[b].0@),
                    forall|b: int| 0 <= b < j && b != i ==> segs_view(self.entries@[i as int].0@) != segs_view(#[trigger] self.entries@[b].0@),
                decreases n - j,
            {
                if j != i && crate::path::path_eq(self.entries[i].0.as_slice(), self.entries[j].0.as_slice()) {
                    return false;
                }
                j = j + 1;
            }
            i = i + 1;
        }
        true
    }

    /// The stored values as (path, value) pairs, in slot order.
    pub fn live_pairs(&self) -> (r: Vec<(Vec<String>, V)>)
        requires
            self.keys_unique(),
        ensures
            forall|k: Seq<Seq<char>>| #[trigger] pairs_lookup(r@, k) == opt_view(self.lookup(k)),
    {
        let ghost e = self.entries@;
        let mut r: Vec<(Vec<String>, V)> = Vec::new();
        let mut i: usize = 0;
        proof {
            assert forall|k: Seq<Seq<char>>| #[trigger] pairs_lookup(r@, k) == opt_view(prefix_lookup(e, k, 0)) by {
                assert(e.take(0) =~= Seq::<(Vec<String>, Option<V>)>::empty());
            }
        }
        while i < self.entries.len()
            invariant
                e == self.entries@,
                slots_unique(e),
                0 <= i <= e.len(),
                forall|k: Seq<Seq<char>>| #[trigger] pairs_lookup(r@, k) == opt_view(prefix_lookup(e, k, i as int)),
            decreases e.len() - i,
        {
            let ghost before = r@;
            let ghost ki = segs_view(e[i as int].0@);
            proof {
                assert(e.take(i as int + 1) =~= e.take(i as int).push(e[i as int]));
                assert forall|j: int| 0 <= j < e.take(i as int).len() implies segs_view(#[trigger] e.take(i as int)[j].0@) != ki by {
                    assert(e.take(i as int)[j] == e[j]);
                }
                lemma_first_slot_absent(e.take(i as int), ki, 0);
            }
            match &self.entries[i].1 {
                Some(v) => {
                    let key = crate::path::path_clone(self.entries[i].0.as_slice());
                    let val = v.duplicate();
                    let x = (key, val);
                    proof {
                        assert forall|k: Seq<Seq<char>>| #[trigger] pairs_lookup(before.push(x), k) == opt_view(prefix_lookup(e, k, i as int + 1)) by {
                            lemma_pairs_push(before, x, k);
                            lemma_push(e.take(i as int), e[i as int], k, 0);
                        }
                    }
                    r.push(x);
                },
                None => {
                    proof {
                        assert forall|k: Seq<Seq<char>>| #[trigger] pairs_lookup(r@, k) == opt_view(prefix_lookup(e, k, i as int + 1)) by {
                            lemma_push(e.take(i as int), e[i as int], k, 0);
                        }
                    }
                },
            }
            i = i + 1;
        }
        proof {
            assert(e.take(e.len() as int) =~= e);
        }
        r
    }

    /// A map holding the given (path, value) pairs; where a path repeats, the first pair wins.
    pub fn from_pairs(pairs: Vec<(Vec<String>, V)>) -> (r: Self)
        ensures
            r.keys_unique(),
            forall|k: Seq<Seq<char>>| #[trigger] opt_view(r.lookup(k)) == pairs_lookup(pairs@, k),
    {
        let ghost p = pairs@;
        let total = pairs.len();
        let mut m: PathMap<V> = PathMap::new();
        let mut rest = pairs;
        let mut done: usize = 0;
        proof {
            assert(p.take(0) =~= Seq::<(Vec<String>, V)>::empty());
            assert(rest@ =~= p.subrange(0, p.len() as int));
        }
        while rest.len() > 0
            invariant
                total == p.len(),
                p.len() == done + rest@.len(),
                rest@ == p.subrange(done as int, p.len() as int),
                m.keys_unique(),
                forall|j: int| 0 <= j < m.entries@.len() ==> (#[trigger] m.entries@[j]).1 is Some,
                forall|k: Seq<Seq<char>>| #[trigger] opt_view(m.lookup(k)) == pairs_lookup(p.take(done as int), k),
            decreases rest@.len(),
        {
            let x = rest.remove(0);
            let ghost gx = x;
            let ghost kx = segs_view(x.0@);
            let ghost before = m;
            let ghost prev = p.take(done as int);
            proof {
                assert(x == p[done as int]);
                assert(p.take(done as int + 1) =~= prev.push(gx));
            }
            let present = m.contains(x.0.as_slice());
            if !present {
                proof {
                    lemma_first_slot_all_some(m.entries@, kx, 0);
                }
                let ghost e0 = m.entries@;
                m.insert_fresh(x.0, x.1);
                proof {
                    assert forall|j: int| 0 <= j < m.entries@.len() implies (#[trigger] m.entries@[j]).1 is Some by {
                        if j < e0.len() {
                            assert(m.entries@[j] == e0[j]);
                        }
                    }
                }
            }
            proof {
                assert forall|k: Seq<Seq<char>>| #[trigger] opt_view(m.lookup(k)) == pairs_lookup(p.take(done as int + 1), k) by {
                    lemma_pairs_push(prev, gx, k);
                    assert(opt_view(before.lookup(k)) == pairs_lookup(prev, k));
                    if present {
                        if k == kx {
                            assert(before.lookup(kx) is Some);
                        }
                    } else {
                        if k == kx {
                            assert(before.lookup(kx) is None);
                            assert(pairs_lookup(prev, k) is None);
                        }
                    }
                }
            }
            done = done + 1;
            assert(rest@ =~= p.subrange(done as int, p.len() as int));
        }
        assert(p.take(p.len() as int) =~= p);
        m
    }

    /// Adds a slot for a path that has none.
    fn insert_fresh(&mut self, key: Vec<String>, v: V)
        requires
            old(self).keys_unique(),
            old(self).lookup(segs_view(key@)) is None,
            first_slot(old(self).entries@, segs_view(key@), 0) is None,
        ensures
            final(self).keys_unique(),
            final(self).entries@ == old(self).entries@.push((key, Some(v))),
            final(self).lookup(segs_view(key@)) == Some(v),
            forall|k: Seq<Seq<char>>| k != segs_view(key@) ==> #[trigger] final(self).lookup(k) == old(self).lookup(k),
    {
        let ghost e = self.entries@;
        let ghost k0 = segs_view(key@);
        let x = (key, Some(v));
        proof {
            assert forall|j: int| 0 <= j < e.len() implies segs_view(#[trigger] e[j].0@) != k0 by {
                if segs_view(e[j].0@) == k0 {
                    lemma_skip_to(e, k0, j);
                }
            }
            assert forall|k: Seq<Seq<char>>| true implies #[trigger] first_slot(e.push(x), k, 0) == (if first_slot(e, k, 0) is Some {
                first_slot(e, k, 0) } else if segs_view(x.0@) == k { Some(x.1) } else { None }) by {
                lemma_push(e, x, k, 0);
            }
        }
        self.entries.push(x);
        proof {
            assert forall|i: int, j: int| 0 <= i < self.entries@.len() && 0 <= j < self.entries@.len() && i != j
                implies segs_view(#[trigger] self.entries@[i].0@) != segs_view(#[trigger] self.entries@[j].0@) by {
                if i < e.len() && j < e.len() {
                    assert(self.entries@[i] == e[i]);
                    assert(self.entries@[j] == e[j]);
                } else if i == e.len() {
                    assert(self.entries@[j] == e[j]);
                } else {
                    assert(self.entries@[i] == e[i]);
                }
            }
        }
    }
}

proof fn lemma_first_slot_all_some<V>(e: Seq<(Vec<String>, Option<V>)>, k: Seq<Seq<char>>, i: int)
    requires
        0 <= i,
        forall|j: int| 0 <= j < e.len() ==> (#[trigger] e[j]).1 is Some,
    ensures
        first_slot(e, k, i) matches Some(o) ==> o is Some,
    decreases e.len() - i,
{
    if i < e.len() {
        lemma_first_slot_all_some(e, k, i + 1);
    }
}

/// If some slot at or after `i` has path `k`, the search from `i` finds a slot.
proof fn lemma_skip_to<V>(e: Seq<(Vec<String>, Option<V>)>, k: Seq<Seq<char>>, j: int)
    requires
        0 <= j < e.len(),
        segs_view(e[j].0@) == k,
    ensures
        first_slot(e, k, 0) is Some,
{
    lemma_found_from(e, k, 0, j);
}

proof fn lemma_found_from<V>(e: Seq<(Vec<String>, Option<V>)>, k: Seq<Seq<char>>, i: int, j: int)
    requires
        0 <= i <= j < e.len(),
        segs_view(e[j].0@) == k,
    ensures
        first_slot(e, k, i) is Some,
    decreases j - i,
{
    if i < j && segs_view(e[i].0@) != k {
        lemma_found_from(e, k, i + 1, j);
    }
}

} // verus!
