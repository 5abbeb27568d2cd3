use crate::error::StoreError;
use vstd::prelude::*;

verus! {

/// The view of a list of owned entries: each entry as a pair of
/// character sequences.
pub open spec fn pair_views(rows: Seq<(String, String)>) -> Seq<(Seq<char>, Seq<char>)> {
    rows.map_values(|p: (String, String)| (p.0@, p.1@))
}

/// No two entries share a key.
pub open spec fn unique_keys(prs: Seq<(Seq<char>, Seq<char>)>) -> bool {
    forall|i: int, j: int|
        0 <= i < j < prs.len() ==> (#[trigger] prs[i]).0 != (#[trigger] prs[j]).0
}

/// Some entry holds the key `k`.
pub open spec fn has_key(prs: Seq<(Seq<char>, Seq<char>)>, k: Seq<char>) -> bool {
    exists|i: int| 0 <= i < prs.len() && (#[trigger] prs[i]).0 == k
}

/// The mapping that a list of entries denotes; a later entry for a
/// repeated key wins.
pub open spec fn map_of(prs: Seq<(Seq<char>, Seq<char>)>) -> Map<Seq<char>, Seq<char>>
    decreases prs.len(),
{
    if prs.len() == 0 {
        Map::<Seq<char>, Seq<char>>::empty()
    } else {
        map_of(prs.drop_last()).insert(prs.last().0, prs.last().1)
    }
}

/// A key is in the denoted mapping exactly when some entry holds it.
pub proof fn lemma_map_of_domain(prs: Seq<(Seq<char>, Seq<char>)>)
    ensures
        forall|k: Seq<char>| #[trigger] map_of(prs).contains_key(k) <==> has_key(prs, k),
    decreases prs.len(),
{
    if prs.len() == 0 {
    } else {
        let d = prs.drop_last();
        lemma_map_of_domain(d);
        assert forall|k: Seq<char>| #[trigger] map_of(prs).contains_key(k) implies has_key(
            prs,
            k,
        ) by {
            if k == prs.last().0 {
                assert((prs[prs.len() - 1]).0 == k);
            } else {
                assert(map_of(d).contains_key(k));
                assert(has_key(d, k));
                let i = choose|i: int| 0 <= i < d.len() && (#[trigger] d[i]).0 == k;
                assert(d[i] == prs[i]);
                assert((prs[i]).0 == k);
            }
        }
        assert forall|k: Seq<char>| has_key(prs, k) implies map_of(prs).contains_key(k) by {
            let i = choose|i: int| 0 <= i < prs.len() && (#[trigger] prs[i]).0 == k;
            if i < prs.len() - 1 {
                assert((d[i]).0 == k);
                assert(has_key(d, k));
            }
        }
    }
}

/// Dropping the last entry keeps the keys unique.
proof fn lemma_unique_drop_last(prs: Seq<(Seq<char>, Seq<char>)>)
    requires
        unique_keys(prs),
        prs.len() > 0,
    ensures
        unique_keys(prs.drop_last()),
{
    let d = prs.drop_last();
    assert forall|i: int, j: int| 0 <= i < j < d.len() implies (#[trigger] d[i]).0 != (
    #[trigger] d[j]).0 by {
        assert(d[i] == prs[i]);
        assert(d[j] == prs[j]);
    }
}

/// With unique keys, the denoted mapping has exactly one member per
/// entry.
pub proof fn lemma_map_of_len(prs: Seq<(Seq<char>, Seq<char>)>)
    requires
        unique_keys(prs),
    ensures
        map_of(prs).dom().finite(),
        map_of(prs).len() == prs.len(),
    decreases prs.len(),
{
    if prs.len() == 0 {
    } else {
        let d = prs.drop_last();
        lemma_unique_drop_last(prs);
        lemma_map_of_len(d);
        lemma_map_of_domain(d);
        if map_of(d).contains_key(prs.last().0) {
            let i = choose|i: int| 0 <= i < d.len() && (#[trigger] d[i]).0 == prs.last().0;
            assert((prs[i]).0 == (prs[prs.len() - 1]).0);
            assert(false);
        }
    }
}

/// Appending an entry inserts its pair into the denoted mapping.
pub proof fn lemma_map_of_push(prs: Seq<(Seq<char>, Seq<char>)>, k: Seq<char>, v: Seq<char>)
    ensures
        map_of(prs.push((k, v))) == map_of(prs).insert(k, v),
{
    assert(prs.push((k, v)).drop_last() =~= prs);
    assert(prs.push((k, v)).last() == (k, v));
}

/// Removing the entry at index `i` removes exactly its key from the
/// denoted mapping, and keeps the remaining keys unique.
pub proof fn lemma_map_of_remove(prs: Seq<(Seq<char>, Seq<char>)>, i: int)
    requires
        unique_keys(prs),
        0 <= i < prs.len(),
    ensures
        unique_keys(prs.remove(i)),
        map_of(prs.remove(i)) == map_of(prs).remove(prs[i].0),
    decreases prs.len(),
{
    let k = prs[i].0;
    let r = prs.remove(i);
    prs.remove_ensures(i);
    assert forall|a: int, b: int| 0 <= a < b < r.len() implies (#[trigger] r[a]).0 != (
    #[trigger] r[b]).0 by {
        let a0 = if a < i { a } else { a + 1 };
        let b0 = if b < i { b } else { b + 1 };
        assert(r[a] == prs[a0]);
        assert(r[b] == prs[b0]);
    }
    if i == prs.len() - 1 {
        assert(r =~= prs.drop_last());
        lemma_unique_drop_last(prs);
        lemma_map_of_domain(prs.drop_last());
        if map_of(prs.drop_last()).contains_key(k) {
            let j = choose|j: int|
                0 <= j < prs.drop_last().len() && (#[trigger] prs.drop_last()[j]).0 == k;
            assert((prs[j]).0 == (prs[i]).0);
            assert(false);
        }
        assert(map_of(prs.drop_last()).insert(k, prs[i].1).remove(k) =~= map_of(prs.drop_last()));
    } else {
        let d = prs.drop_last();
        let last = prs.last();
        lemma_unique_drop_last(prs);
        assert(d[i] == prs[i]);
        lemma_map_of_remove(d, i);
        assert(r.last() == prs[prs.len() - 2 + 1]);
        assert(r.drop_last() =~= d.remove(i)) by {
            d.remove_ensures(i);
            assert forall|j: int| 0 <= j < r.len() - 1 implies r.drop_last()[j] == d.remove(
                i,
            )[j] by {
                if j < i {
                    assert(r[j] == prs[j]);
                    assert(d.remove(i)[j] == d[j]);
                    assert(d[j] == prs[j]);
                } else {
                    assert(r[j] == prs[j + 1]);
                    assert(d.remove(i)[j] == d[j + 1]);
                    assert(d[j + 1] == prs[j + 1]);
                }
            }
        }
        assert(map_of(r) == map_of(d.remove(i)).insert(last.0, last.1));
        assert(last.0 != k);
        assert(map_of(d).remove(k).insert(last.0, last.1) =~= map_of(d).insert(
            last.0,
            last.1,
        ).remove(k));
    }
}

/// A flat string-to-string mapping with unique keys, held fully in
/// memory between one backend read and the following write.
pub struct Store {
    entries: Vec<(String, String)>,
}

impl View for Store {
    type V = Map<Seq<char>, Seq<char>>;

    closed spec fn view(&self) -> Map<Seq<char>, Seq<char>> {
        map_of(pair_views(self.entries@))
    }
}

/// Locates the first entry holding the given key, if any.
fn index_of_key(entries: &Vec<(String, String)>, key: &String) -> (r: Option<usize>)
    ensures
        match r {
            Some(i) => i < entries@.len() && (entries@[i as int]).0@ == key@,
            None => forall|j: int| 0 <= j < entries@.len() ==> (#[trigger] entries@[j]).0@ != key@,
        },
{
    let mut i: usize = 0;
    while i < entries.len()
        invariant
            i <= entries@.len(),
            forall|j: int| 0 <= j < i ==> (#[trigger] entries@[j]).0@ != key@,
        decreases entries@.len() - i,
    {
        if entries[i].0 == *key {
            return Some(i);
        }
        i = i + 1;
    }
    None
}

impl Store {
    /// The store's keys are unique.
    pub closed spec fn wf(&self) -> bool {
        unique_keys(pair_views(self.entries@))
    }

    /// An empty store.
    pub fn new() -> (r: Store)
        ensures
            r.wf(),
            r@ == Map::<Seq<char>, Seq<char>>::empty(),
    {
        Store { entries: Vec::new() }
    }

    /// Builds a store from unique-keyed rows as a trusted decoder hands
    /// them out.
    pub fn from_unique_rows(rows: Vec<(String, String)>) -> (r: Store)
        requires
            unique_keys(pair_views(rows@)),
        ensures
            r.wf(),
            r@ == map_of(pair_views(rows@)),
    {
        Store { entries: rows }
    }

    /// Builds a store from rows as a backend read surfaced them,
    /// rejecting a repeated key instead of silently overwriting.
    pub fn from_rows(rows: Vec<(String, String)>) -> (r: Result<Store, StoreError>)
        ensures
            r is Ok <==> unique_keys(pair_views(rows@)),
            r is Ok ==> r->Ok_0.wf() && r->Ok_0@ == map_of(pair_views(rows@)),
            r is Err ==> r->Err_0 is DuplicateKey,
    {
        let mut entries: Vec<(String, String)> = Vec::new();
        let mut i: usize = 0;
        while i < rows.len()
            invariant
                i <= rows@.len(),
                entries@.len() == i,
                forall|j: int| 0 <= j < i ==> entries@[j] == rows@[j],
                unique_keys(pair_views(entries@)),
            decreases rows@.len() - i,
        {
            match index_of_key(&entries, &rows[i].0) {
                Some(j) => {
                    proof {
                        let pv = pair_views(rows@);
                        assert((pv[j as int]).0 == (pv[i as int]).0);
                        assert(!unique_keys(pv));
                    }
                    return Err(StoreError::DuplicateKey);
                },
                None => {
                    let k = rows[i].0.clone();
                    let v = rows[i].1.clone();
                    proof {
                        let pv = pair_views(entries@);
                        let pv2 = pair_views(entries@.push((k, v)));
                        assert(pv2 =~= pv.push((k@, v@)));
                        assert forall|a: int, b: int| 0 <= a < b < pv2.len() implies (
                        #[trigger] pv2[a]).0 != (#[trigger] pv2[b]).0 by {
                            if b < pv.len() {
                            } else {
                                assert((pv2[a]).0 == (entries@[a]).0@);
                            }
                        }
                    }
                    entries.push((k, v));
                },
            }
            i = i + 1;
        }
        proof {
            assert(entries@ =~= rows@);
        }
        Ok(Store { entries })
    }

    /// How many entries the store holds.
    pub fn len(&self) -> (r: usize)
        requires
            self.wf(),
        ensures
            r == self@.len(),
    {
        proof {
            lemma_map_of_len(pair_views(self.entries@));
        }
        self.entries.len()
    }

    /// Whether the store holds the given key.
    pub fn contains_key(&self, key: &String) -> (r: bool)
        ensures
            r == self@.contains_key(key@),
    {
        proof {
            lemma_map_of_domain(pair_views(self.entries@));
        }
        let r = index_of_key(&self.entries, key);
        proof {
            let pv = pair_views(self.entries@);
            match r {
                Some(i) => {
                    assert((pv[i as int]).0 == key@);
                    assert(has_key(pv, key@));
                },
                None => {
                    if has_key(pv, key@) {
                        let i = choose|i: int| 0 <= i < pv.len() && (#[trigger] pv[i]).0 == key@;
                        assert((self.entries@[i]).0@ == key@);
                        assert(false);
                    }
                },
            }
        }
        r.is_some()
    }

    /// Inserts a pair whose key is absent.
    pub fn insert(&mut self, key: String, value: String)
        requires
            old(self).wf(),
            !old(self)@.contains_key(key@),
        ensures
            final(self).wf(),
            final(self)@ == old(self)@.insert(key@, value@),
    {
        proof {
            let pv = pair_views(self.entries@);
            lemma_map_of_domain(pv);
            let pv2 = pair_views(self.entries@.push((key, value)));
            assert(pv2 =~= pv.push((key@, value@)));
            lemma_map_of_push(pv, key@, value@);
            assert forall|a: int, b: int| 0 <= a < b < pv2.len() implies (#[trigger] pv2[a]).0
                != (#[trigger] pv2[b]).0 by {
                if b == pv.len() {
                    assert(has_key(pv, (pv2[a]).0) ==> map_of(pv).contains_key((pv2[a]).0));
                    assert((pv2[a]).0 != key@) by {
                        if (pv2[a]).0 == key@ {
                            assert(has_key(pv, key@));
                        }
                    }
                }
            }
        }
        self.entries.push((key, value));
    }

    /// Deletes the entry of a key that is present.
    pub fn remove(&mut self, key: &String)
        requires
            old(self).wf(),
            old(self)@.contains_key(key@),
        ensures
            final(self).wf(),
            final(self)@ == old(self)@.remove(key@),
    {
        proof {
            lemma_map_of_domain(pair_views(self.entries@));
        }
        match index_of_key(&self.entries, key) {
            Some(i) => {
                proof {
                    let pv = pair_views(self.entries@);
                    lemma_map_of_remove(pv, i as int);
                    assert(pair_views(self.entries@.remove(i as int)) =~= pv.remove(i as int));
                    assert((pv[i as int]).0 == key@);
                }
                self.entries.remove(i);
            },
            None => {
                proof {
                    let pv = pair_views(self.entries@);
                    let i = choose|i: int| 0 <= i < pv.len() && (#[trigger] pv[i]).0 == key@;
                    assert((self.entries@[i]).0@ == key@);
                    assert(false);
                }
            },
        }
    }

    /// The entries as a backend write consumes them, in storage order.
    pub fn entries(&self) -> (r: &Vec<(String, String)>)
        ensures
            map_of(pair_views(r@)) == self@,
            unique_keys(pair_views(r@)) <==> self.wf(),
            self.wf() ==> r@.len() == self@.len(),
    {
        proof {
            if self.wf() {
                lemma_map_of_len(pair_views(self.entries@));
            }
        }
        &self.entries
    }
}

} // verus!
