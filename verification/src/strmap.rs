//! A map from strings to strings that keeps its entries in insertion order,
//! as the blog's page and comment settings are held.

use vstd::prelude::*;
use crate::text::same_text;

verus! {

/// Entries of a string map, as character sequences.
pub type Entries = Seq<(Seq<char>, Seq<char>)>;

/// No key occurs twice among `es`.
pub open spec fn keys_distinct<A>(es: Seq<(Seq<char>, A)>) -> bool {
    forall|i: int, j: int| 0 <= i < j < es.len() ==> es[i].0 != es[j].0
}

/// `k` is the key of some entry of `es`.
pub open spec fn has_key<A>(es: Seq<(Seq<char>, A)>, k: Seq<char>) -> bool {
    exists|i: int| 0 <= i < es.len() && es[i].0 == k
}

/// The value of the first entry of `es` whose key is `k`.
pub open spec fn lookup<A>(es: Seq<(Seq<char>, A)>, k: Seq<char>) -> Option<A>
    decreases es.len(),
{
    if es.len() == 0 {
        None
    } else if es[0].0 == k {
        Some(es[0].1)
    } else {
        lookup(es.drop_first(), k)
    }
}

/// `es` after inserting `v` under `k`: the entry with key `k` takes the new value
/// where it stands, or a new entry is added at the end.
pub open spec fn put<A>(es: Seq<(Seq<char>, A)>, k: Seq<char>, v: A) -> Seq<(Seq<char>, A)>
    decreases es.len(),
{
    if es.len() == 0 {
        seq![(k, v)]
    } else if es[0].0 == k {
        seq![(k, v)] + es.drop_first()
    } else {
        seq![es[0]] + put(es.drop_first(), k, v)
    }
}

/// The map built by inserting the entries of `es` one after the other.
pub open spec fn collected<A>(es: Seq<(Seq<char>, A)>) -> Seq<(Seq<char>, A)>
    decreases es.len(),
{
    if es.len() == 0 {
        seq![]
    } else {
        put(collected(es.drop_last()), es.last().0, es.last().1)
    }
}

/// Each entry of `es` with key and value exchanged.
pub open spec fn swapped(es: Entries) -> Entries {
    es.map_values(|e: (Seq<char>, Seq<char>)| (e.1, e.0))
}

pub proof fn lemma_has_key_put<A>(es: Seq<(Seq<char>, A)>, k: Seq<char>, v: A, x: Seq<char>)
    ensures
        has_key(put(es, k, v), x) <==> (has_key(es, x) || x == k),
    decreases es.len(),
{
    let p = put(es, k, v);
    if es.len() == 0 {
        if x == k {
            assert(p[0].0 == x);
        }
    } else if es[0].0 == k {
        if has_key(es, x) {
            let i = choose|i: int| 0 <= i < es.len() && es[i].0 == x;
            assert(p[i].0 == x);
        }
        if has_key(p, x) {
            let i = choose|i: int| 0 <= i < p.len() && p[i].0 == x;
            assert(es[i].0 == x);
        }
        if x == k {
            assert(p[0].0 == x);
        }
    } else {
        let r = es.drop_first();
        lemma_has_key_put(r, k, v, x);
        if has_key(es, x) {
            let i = choose|i: int| 0 <= i < es.len() && es[i].0 == x;
            if i == 0 {
                assert(p[0].0 == x);
            } else {
                assert(r[i - 1].0 == x);
                let j = choose|j: int| 0 <= j < put(r, k, v).len() && put(r, k, v)[j].0 == x;
                assert(p[j + 1].0 == x);
            }
        }
        if x == k {
            let j = choose|j: int| 0 <= j < put(r, k, v).len() && put(r, k, v)[j].0 == x;
            assert(p[j + 1].0 == x);
        }
        if has_key(p, x) {
            let i = choose|i: int| 0 <= i < p.len() && p[i].0 == x;
            if i == 0 {
                assert(es[0].0 == x);
            } else {
                assert(put(r, k, v)[i - 1].0 == x);
                if x != k {
                    let j = choose|j: int| 0 <= j < r.len() && r[j].0 == x;
                    assert(es[j + 1].0 == x);
                }
            }
        }
    }
}

pub proof fn lemma_put_distinct<A>(es: Seq<(Seq<char>, A)>, k: Seq<char>, v: A)
    requires
        keys_distinct(es),
    ensures
        keys_distinct(put(es, k, v)),
    decreases es.len(),
{
    let p = put(es, k, v);
    if es.len() == 0 {
    } else if es[0].0 == k {
        assert forall|i: int, j: int| 0 <= i < j < p.len() implies p[i].0 != p[j].0 by {
            assert(p[i].0 == es[i].0);
            assert(p[j].0 == es[j].0);
        }
    } else {
        let r = es.drop_first();
        lemma_put_distinct(r, k, v);
        assert forall|i: int, j: int| 0 <= i < j < p.len() implies p[i].0 != p[j].0 by {
            if i == 0 {
                let q = put(r, k, v);
                assert(p[j].0 == q[j - 1].0);
                if q[j - 1].0 == es[0].0 {
                    lemma_has_key_put(r, k, v, es[0].0);
                    assert(has_key(q, es[0].0));
                    let t = choose|t: int| 0 <= t < r.len() && r[t].0 == es[0].0;
                    assert(es[t + 1].0 == es[0].0);
                }
            }
        }
    }
}

pub proof fn lemma_collected_distinct<A>(es: Seq<(Seq<char>, A)>)
    ensures
        keys_distinct(collected(es)),
    decreases es.len(),
{
    if es.len() > 0 {
        lemma_collected_distinct(es.drop_last());
        lemma_put_distinct(collected(es.drop_last()), es.last().0, es.last().1);
    }
}

pub proof fn lemma_lookup_put<A>(es: Seq<(Seq<char>, A)>, k: Seq<char>, v: A, x: Seq<char>)
    ensures
        lookup(put(es, k, v), x) == if x == k { Some(v) } else { lookup(es, x) },
    decreases es.len(),
{
    let p = put(es, k, v);
    if es.len() == 0 {
        assert(p.drop_first().len() == 0);
    } else if es[0].0 == k {
        assert(p.drop_first() == es.drop_first());
    } else {
        assert(p.drop_first() == put(es.drop_first(), k, v));
        lemma_lookup_put(es.drop_first(), k, v, x);
    }
}

/// Where `k` is already a key, `put` changes the value of its first entry;
/// otherwise it adds `(k, v)` at the end.
pub proof fn lemma_put_shape<A>(es: Seq<(Seq<char>, A)>, k: Seq<char>, v: A)
    ensures
        (forall|i: int| 0 <= i < es.len() ==> es[i].0 != k) ==> put(es, k, v) == es.push((k, v)),
        forall|j: int|
            0 <= j < es.len() && es[j].0 == k && (forall|i: int| 0 <= i < j ==> es[i].0 != k)
                ==> put(es, k, v) == es.update(j, (k, v)),
    decreases es.len(),
{
    if es.len() > 0 {
        let r = es.drop_first();
        lemma_put_shape(r, k, v);
        if es[0].0 == k {
            assert(put(es, k, v) =~= es.update(0, (k, v)));
        } else {
            if forall|i: int| 0 <= i < es.len() ==> es[i].0 != k {
                assert forall|i: int| 0 <= i < r.len() implies r[i].0 != k by {
                    assert(r[i] == es[i + 1]);
                }
                assert(put(es, k, v) =~= es.push((k, v)));
            }
            assert forall|j: int|
                0 <= j < es.len() && es[j].0 == k && (forall|i: int| 0 <= i < j ==> es[i].0 != k)
                    implies put(es, k, v) == es.update(j, (k, v)) by {
                assert(j > 0);
                assert(r[j - 1].0 == k);
                assert forall|i: int| 0 <= i < j - 1 implies r[i].0 != k by {
                    assert(r[i] == es[i + 1]);
                }
                assert(put(r, k, v) == r.update(j - 1, (k, v)));
                assert(put(es, k, v) =~= es.update(j, (k, v)));
            }
        }
    } else {
        assert(put(es, k, v) =~= es.push((k, v)));
    }
}

/// Looking up in entries with one more at the end finds what the first
/// entries hold, or else the new entry.
pub proof fn lemma_lookup_push<A>(es: Seq<(Seq<char>, A)>, e: (Seq<char>, A), x: Seq<char>)
    ensures
        lookup(es.push(e), x) == match lookup(es, x) {
            Some(v) => Some(v),
            None => if e.0 == x {
                Some(e.1)
            } else {
                None
            },
        },
    decreases es.len(),
{
    if es.len() > 0 {
        assert(es.push(e)[0] == es[0]);
        assert(es.push(e).drop_first() =~= es.drop_first().push(e));
        lemma_lookup_push(es.drop_first(), e, x);
        if es[0].0 != x {
            assert(lookup(es.push(e), x) == lookup(es.drop_first().push(e), x));
            assert(lookup(es, x) == lookup(es.drop_first(), x));
        }
    } else {
        assert(es.push(e)[0] == e);
        assert(es.push(e).drop_first().len() == 0);
        assert(lookup(es.push(e).drop_first(), x) is None);
    }
}

/// A key that no entry has is found nowhere.
pub proof fn lemma_lookup_absent<A>(es: Seq<(Seq<char>, A)>, x: Seq<char>)
    requires
        !has_key(es, x),
    ensures
        lookup(es, x) is None,
    decreases es.len(),
{
    if es.len() > 0 {
        let r = es.drop_first();
        assert(es[0].0 != x);
        assert(!has_key(r, x)) by {
            if has_key(r, x) {
                let i = choose|i: int| 0 <= i < r.len() && r[i].0 == x;
                assert(es[i + 1].0 == x);
            }
        }
        lemma_lookup_absent(r, x);
    }
}

/// A read gives back the last write: after `v` is put under `k`, looking up `k`
/// finds `v`, and every other key finds what it found before.
pub proof fn law_lookup_after_put<A>(es: Seq<(Seq<char>, A)>, k: Seq<char>, v: A, x: Seq<char>)
    ensures
        lookup(put(es, k, v), k) == Some(v),
        x != k ==> lookup(put(es, k, v), x) == lookup(es, x),
{
    lemma_lookup_put(es, k, v, k);
    lemma_lookup_put(es, k, v, x);
}

/// Entries whose keys are distinct are held as they are: collecting them
/// changes nothing.
pub proof fn law_distinct_entries_kept<A>(es: Seq<(Seq<char>, A)>)
    requires
        keys_distinct(es),
    ensures
        collected(es) == es,
    decreases es.len(),
{
    if es.len() > 0 {
        let pre = es.drop_last();
        assert(keys_distinct(pre));
        law_distinct_entries_kept(pre);
        lemma_put_shape(pre, es.last().0, es.last().1);
        assert forall|i: int| 0 <= i < pre.len() implies pre[i].0 != es.last().0 by {
            assert(pre[i] == es[i]);
        }
        assert(pre.push(es.last()) =~= es);
    }
}

/// Every route of a route-to-page map (whose routes are distinct) that leads
/// to a page is matched by the inverse map: the page leads back to a route that
/// leads to it.
pub proof fn law_slug_leads_back(es: Entries, route: Seq<char>)
    requires
        keys_distinct(es),
        lookup(es, route) is Some,
    ensures
        ({
            let page = lookup(es, route)->0;
            let back = lookup(collected(swapped(es)), page);
            back is Some && lookup(es, back->0) == Some(page)
        }),
    decreases es.len(),
{
    let page = lookup(es, route)->0;
    let pre = es.drop_last();
    let last = es.last();
    assert(es =~= pre.push(last));
    assert(swapped(es).drop_last() =~= swapped(pre));
    assert(swapped(es).last() == (last.1, last.0));
    lemma_lookup_push(pre, last, route);
    lemma_lookup_put(collected(swapped(pre)), last.1, last.0, page);
    if page == last.1 {
        assert(!has_key(pre, last.0)) by {
            if has_key(pre, last.0) {
                let i = choose|i: int| 0 <= i < pre.len() && pre[i].0 == last.0;
                assert(es[i].0 == es[es.len() - 1].0);
            }
        }
        lemma_lookup_absent(pre, last.0);
        lemma_lookup_push(pre, last, last.0);
    } else {
        assert(lookup(pre, route) == Some(page));
        assert(keys_distinct(pre));
        law_slug_leads_back(pre, route);
        let back = lookup(collected(swapped(pre)), page)->0;
        lemma_lookup_push(pre, last, back);
    }
}

/// Collecting entries keeps exactly their keys.
pub proof fn lemma_has_key_collected<A>(es: Seq<(Seq<char>, A)>, x: Seq<char>)
    ensures
        has_key(collected(es), x) <==> has_key(es, x),
    decreases es.len(),
{
    if es.len() > 0 {
        let pre = es.drop_last();
        lemma_has_key_collected(pre, x);
        lemma_has_key_put(collected(pre), es.last().0, es.last().1, x);
        if has_key(pre, x) {
            let i = choose|i: int| 0 <= i < pre.len() && pre[i].0 == x;
            assert(es[i].0 == x);
        }
        if has_key(es, x) {
            let i = choose|i: int| 0 <= i < es.len() && es[i].0 == x;
            if i < es.len() - 1 {
                assert(pre[i].0 == x);
            }
        }
        if x == es.last().0 {
            assert(es[es.len() - 1].0 == x);
        }
    }
}

/// The pages of the inverse map are exactly the pages that the route-to-page
/// map names.
pub proof fn law_slug_keys_are_pages(es: Entries, page: Seq<char>)
    ensures
        has_key(collected(swapped(es)), page) <==> exists|i: int| 0 <= i < es.len() && es[i].1 == page,
{
    lemma_has_key_collected(swapped(es), page);
    let sw = swapped(es);
    if has_key(sw, page) {
        let i = choose|i: int| 0 <= i < sw.len() && sw[i].0 == page;
        assert(es[i].1 == page);
    }
    if exists|i: int| 0 <= i < es.len() && es[i].1 == page {
        let i = choose|i: int| 0 <= i < es.len() && es[i].1 == page;
        assert(sw[i].0 == page);
    }
}

/// A map from strings to strings whose keys are distinct; its entries keep the
/// order in which their keys were first inserted.
pub struct StrMap {
    entries: Vec<(String, String)>,
}

impl View for StrMap {
    type V = Entries;

    closed spec fn view(&self) -> Entries {
        self.entries.deep_view()
    }
}

impl StrMap {
    #[verifier::type_invariant]
    spec fn inv(self) -> bool {
        keys_distinct(self.entries.deep_view())
    }

    /// The empty map.
    pub fn new() -> (r: StrMap)
        ensures
            r@ == Seq::<(Seq<char>, Seq<char>)>::empty(),
    {
        let r = StrMap { entries: Vec::new() };
        assert(r@ =~= Seq::<(Seq<char>, Seq<char>)>::empty());
        r
    }

    /// The map that inserting `entries` in order gives: a later entry's value
    /// replaces an earlier one's with the same key.
    pub fn from_entries(entries: Vec<(String, String)>) -> (r: StrMap)
        ensures
            r@ == collected(entries.deep_view()),
    {
        let mut out: Vec<(String, String)> = Vec::new();
        let n = entries.len();
        let ghost src = entries.deep_view();
        assert(out.deep_view() =~= collected(src.take(0)));
        for i in 0..n
            invariant
                n == entries@.len(),
                src == entries.deep_view(),
                out.deep_view() == collected(src.take(i as int)),
        {
            let k = entries[i].0.clone();
            let v = entries[i].1.clone();
            assert(src.take(i + 1).drop_last() == src.take(i as int));
            insert_entry(&mut out, k, v);
        }
        assert(src.take(n as int) == src);
        proof {
            lemma_collected_distinct(src);
        }
        StrMap { entries: out }
    }

    /// The value stored under `key`.
    pub fn get(&self, key: &str) -> (r: Option<&String>)
        ensures
            r.deep_view() == lookup(self@, key@),
    {
        let n = self.entries.len();
        let ghost es = self@;
        assert(es.skip(0) == es);
        for i in 0..n
            invariant
                n == self.entries@.len(),
                es == self@,
                es == self.entries.deep_view(),
                lookup(es, key@) == lookup(es.skip(i as int), key@),
        {
            let ghost rest = es.skip(i as int);
            assert(rest[0] == es[i as int]);
            assert(rest.drop_first() == es.skip(i + 1));
            if same_text(self.entries[i].0.as_str(), key) {
                return Some(&self.entries[i].1);
            }
        }
        None
    }

    /// Whether the map has no entry.
    pub fn is_empty(&self) -> (r: bool)
        ensures
            r == (self@.len() == 0),
    {
        self.entries.len() == 0
    }

    /// The entries, in order.
    pub fn entries(&self) -> (r: &Vec<(String, String)>)
        ensures
            r.deep_view() == self@,
            keys_distinct(self@),
    {
        proof {
            use_type_invariant(self);
        }
        &self.entries
    }
}

/// Inserts `v` under `k` into the entries `es`.
fn insert_entry(es: &mut Vec<(String, String)>, k: String, v: String)
    ensures
        final(es).deep_view() == put(old(es).deep_view(), k@, v@),
{
    let ghost before = es.deep_view();
    let n = es.len();
    proof {
        lemma_put_shape(before, k@, v@);
    }
    for i in 0..n
        invariant
            n == es@.len(),
            es.deep_view() == before,
            before == old(es).deep_view(),
            forall|t: int| 0 <= t < i ==> before[t].0 != k@,
    {
        if same_text(es[i].0.as_str(), k.as_str()) {
            proof {
                lemma_put_shape(before, k@, v@);
                assert(before[i as int].0 == k@);
            }
            es.set(i, (k, v));
            assert(es.deep_view() =~= before.update(i as int, (k@, v@)));
            return;
        }
    }
    proof {
        lemma_put_shape(before, k@, v@);
    }
    es.push((k, v));
    assert(es.deep_view() =~= before.push((k@, v@)));
}

} // verus!
