//! The structure index: a concurrent map from structure key to content.
use vstd::prelude::*;

use dashmap::DashMap;

use crate::processor::{KeyModel, ParsedStructure, StructureModel};
use crate::types::{Content, ContentModel, StructureInfo};

verus! {

#[verifier::external_type_specification]
#[verifier::external_body]
#[verifier::reject_recursive_types(K)]
#[verifier::reject_recursive_types(V)]
#[verifier::reject_recursive_types(S)]
pub struct ExDashMap<K, V, S>(DashMap<K, V, S>);

/// The model of an index: the content held for each key.
pub type IndexModel = Map<KeyModel, ContentModel>;

/// What a map of structures holds, by the model of each key.
pub uninterp spec fn dash_entries(m: DashMap<StructureInfo, Content>) -> Map<KeyModel, ContentModel>;

/// Relies on `DashMap::new`: a new map is empty.
#[verifier::external_body]
fn dash_new() -> (r: DashMap<StructureInfo, Content>)
    ensures
        dash_entries(r) == IndexModel::empty(),
{
    DashMap::new()
}

/// Relies on `DashMap::insert`: the value for the key is added or replaced
/// and every other entry stays. Keys are told apart by the derived `Eq` of
/// `StructureInfo`, which compares name, kind and path, that is their models.
#[verifier::external_body]
fn dash_insert(m: &mut DashMap<StructureInfo, Content>, k: StructureInfo, v: Content)
    ensures
        dash_entries(*final(m)) == dash_entries(*old(m)).insert(k@, v@),
{
    m.insert(k, v);
}

/// Relies on `DashMap::len`: the number of entries.
#[verifier::external_body]
fn dash_len(m: &DashMap<StructureInfo, Content>) -> (n: usize)
    ensures
        n == dash_entries(*m).len(),
{
    m.len()
}

/// Relies on `DashMap::into_iter`: it yields every entry once, in no
/// particular order.
#[verifier::external_body]
fn dash_into_entries(m: DashMap<StructureInfo, Content>) -> (r: Vec<(StructureInfo, Content)>)
    ensures
        forall|i: int|
            0 <= i < r@.len() ==> #[trigger] dash_entries(m).contains_key(r@[i].0@)
                && dash_entries(m)[r@[i].0@] == r@[i].1@,
        forall|k: KeyModel|
            #[trigger] dash_entries(m).contains_key(k) ==> exists|i: int|
                0 <= i < r@.len() && r@[i].0@ == k,
        forall|i: int, j: int| 0 <= i < j < r@.len() ==> r@[i].0@ != r@[j].0@,
{
    m.into_iter().collect()
}

/// The map after inserting each structure of `s` in order: a later structure
/// replaces an earlier one with the same key.
pub open spec fn inserted_all(m: Map<KeyModel, ContentModel>, s: Seq<StructureModel>) -> Map<
    KeyModel,
    ContentModel,
>
    decreases s.len(),
{
    if s.len() == 0 {
        m
    } else {
        inserted_all(m, s.drop_last()).insert(s.last().0, s.last().1)
    }
}

/// The models of a sequence of structures.
pub open spec fn structure_models(s: Seq<ParsedStructure>) -> Seq<StructureModel> {
    s.map_values(|p: ParsedStructure| p@)
}

/// Inserting two sequences one after the other is inserting their
/// concatenation.
pub proof fn lemma_inserted_all_concat(
    m: Map<KeyModel, ContentModel>,
    a: Seq<StructureModel>,
    b: Seq<StructureModel>,
)
    ensures
        inserted_all(m, a + b) == inserted_all(inserted_all(m, a), b),
    decreases b.len(),
{
    if b.len() == 0 {
        assert(a + b =~= a);
    } else {
        lemma_inserted_all_concat(m, a, b.drop_last());
        assert((a + b).drop_last() =~= a + b.drop_last());
    }
}

/// Last write wins: after a sequence of insertions the index holds exactly
/// the keys it held before and the keys inserted, one entry each, and a key
/// inserted last at position `i` holds the content inserted there.
pub proof fn lemma_last_write_wins(m: IndexModel, s: Seq<StructureModel>, i: int)
    requires
        0 <= i < s.len(),
        forall|j: int| i < j < s.len() ==> s[j].0 != s[i].0,
    ensures
        inserted_all(m, s).contains_key(s[i].0),
        inserted_all(m, s)[s[i].0] == s[i].1,
        forall|k: KeyModel|
            inserted_all(m, s).contains_key(k) <==> (m.contains_key(k) || exists|j: int|
                0 <= j < s.len() && #[trigger] s[j].0 == k),
    decreases s.len(),
{
    lemma_inserted_keys(m, s);
    if i < s.len() - 1 {
        lemma_last_write_wins(m, s.drop_last(), i);
    }
}

proof fn lemma_inserted_keys(m: IndexModel, s: Seq<StructureModel>)
    ensures
        forall|k: KeyModel|
            inserted_all(m, s).contains_key(k) <==> (m.contains_key(k) || exists|j: int|
                0 <= j < s.len() && #[trigger] s[j].0 == k),
    decreases s.len(),
{
    if s.len() > 0 {
        let p = s.drop_last();
        lemma_inserted_keys(m, p);
        let last = s.last();
        assert(inserted_all(m, s) == inserted_all(m, p).insert(last.0, last.1));
        assert forall|k: KeyModel|
            inserted_all(m, s).contains_key(k) <==> (m.contains_key(k) || exists|j: int|
                0 <= j < s.len() && #[trigger] s[j].0 == k) by {
            assert(inserted_all(m, p).contains_key(k) <==> (m.contains_key(k) || exists|j: int|
                0 <= j < p.len() && #[trigger] p[j].0 == k));
            assert(inserted_all(m, s).contains_key(k) <==> (inserted_all(m, p).contains_key(k)
                || k == last.0));
            if exists|j: int| 0 <= j < s.len() && #[trigger] s[j].0 == k {
                let j = choose|j: int| 0 <= j < s.len() && #[trigger] s[j].0 == k;
                if j < s.len() - 1 {
                    assert(p[j].0 == k);
                } else {
                    assert(last.0 == k);
                }
            }
            if exists|j: int| 0 <= j < p.len() && #[trigger] p[j].0 == k {
                let j = choose|j: int| 0 <= j < p.len() && #[trigger] p[j].0 == k;
                assert(s[j].0 == k);
            }
            if k == last.0 {
                assert(s[s.len() - 1].0 == k);
            }
        }
    }
}

/// A sequence read back to front.
pub(crate) fn into_reversed<T>(v: Vec<T>) -> (r: Vec<T>)
    ensures
        r@.len() == v@.len(),
        forall|i: int| 0 <= i < v@.len() ==> r@[i] == v@[v@.len() - 1 - i],
{
    let mut v = v;
    let ghost orig = v@;
    let mut r: Vec<T> = Vec::new();
    while v.len() > 0
        invariant
            v@ == orig.subrange(0, v@.len() as int),
            r@.len() + v@.len() == orig.len(),
            forall|i: int| 0 <= i < r@.len() ==> r@[i] == orig[orig.len() - 1 - i],
        decreases v@.len(),
    {
        let x = v.pop().unwrap();
        r.push(x);
    }
    r
}

/// The index of all structures extracted in a run: one content per key.
pub struct StructureIndex {
    map: DashMap<StructureInfo, Content>,
}

impl View for StructureIndex {
    type V = Map<KeyModel, ContentModel>;

    closed spec fn view(&self) -> Map<KeyModel, ContentModel> {
        dash_entries(self.map)
    }
}

impl StructureIndex {
    /// An empty index.
    pub fn new() -> (r: StructureIndex)
        ensures
            r@ == Map::<KeyModel, ContentModel>::empty(),
    {
        StructureIndex { map: dash_new() }
    }

    /// Adds a structure, replacing the content held for its key.
    pub fn insert(&mut self, s: ParsedStructure)
        ensures
            final(self)@ == old(self)@.insert(s@.0, s@.1),
    {
        let ParsedStructure(k, v) = s;
        dash_insert(&mut self.map, k, v);
    }

    /// Adds each structure in order; a later one replaces an earlier one
    /// with the same key.
    pub fn insert_all(&mut self, structures: Vec<ParsedStructure>)
        ensures
            final(self)@ == inserted_all(old(self)@, structure_models(structures@)),
    {
        let ghost start = self@;
        let ghost all = structure_models(structures@);
        let n = structures.len();
        let mut rest = into_reversed(structures);
        let mut k: usize = 0;
        while k < n
            invariant
                k <= n,
                n == all.len(),
                rest@.len() == n - k,
                forall|i: int| 0 <= i < rest@.len() ==> #[trigger] rest@[i]@ == all[n - 1 - i],
                self@ == inserted_all(start, all.subrange(0, k as int)),
            decreases n - k,
        {
            let s = rest.pop().unwrap();
            proof {
                assert(s@ == all[k as int]);
                assert(all.subrange(0, k + 1).drop_last() =~= all.subrange(0, k as int));
            }
            self.insert(s);
            k = k + 1;
        }
        assert(all.subrange(0, n as int) =~= all);
    }

    /// The number of keys in the index.
    pub fn len(&self) -> (n: usize)
        ensures
            n == self@.len(),
    {
        dash_len(&self.map)
    }

    /// Every structure of the index, each key once, in no particular order.
    pub fn into_structures(self) -> (r: Vec<ParsedStructure>)
        ensures
            forall|i: int|
                0 <= i < r@.len() ==> #[trigger] self@.contains_key(r@[i]@.0) && self@[r@[i]@.0]
                    == r@[i]@.1,
            forall|k: KeyModel|
                #[trigger] self@.contains_key(k) ==> exists|i: int|
                    0 <= i < r@.len() && r@[i]@.0 == k,
            forall|i: int, j: int| 0 <= i < j < r@.len() ==> r@[i]@.0 != r@[j]@.0,
    {
        let entries = dash_into_entries(self.map);
        let ghost e = entries@;
        let n = entries.len();
        let mut rest = into_reversed(entries);
        let mut out: Vec<ParsedStructure> = Vec::new();
        let mut k: usize = 0;
        while k < n
            invariant
                k <= n,
                n == e.len(),
                rest@.len() == n - k,
                forall|i: int| 0 <= i < rest@.len() ==> #[trigger] rest@[i] == e[n - 1 - i],
                out@.len() == k,
                forall|i: int|
                    0 <= i < k ==> #[trigger] out@[i]@.0 == e[i].0@ && out@[i]@.1 == e[i].1@,
            decreases n - k,
        {
            let (key, content) = rest.pop().unwrap();
            let ghost before = out@;
            out.push(ParsedStructure(key, content));
            proof {
                assert forall|i: int| 0 <= i < k + 1 implies #[trigger] out@[i]@.0 == e[i].0@
                    && out@[i]@.1 == e[i].1@ by {
                    if i < k {
                        assert(out@[i] == before[i]);
                    }
                }
            }
            k = k + 1;
        }
        proof {
            assert forall|key: KeyModel| #[trigger] self@.contains_key(key) implies exists|i: int|
                0 <= i < out@.len() && out@[i]@.0 == key by {
                let i = choose|i: int| 0 <= i < e.len() && e[i].0@ == key;
                assert(out@[i]@.0 == key);
            }
        }
        out
    }
}

} // verus!
