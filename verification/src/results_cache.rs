use vstd::prelude::*;
use vstd::pervasive::VecAdditionalExecFns;

use crate::data::{PartitionV, ShufflePartition};

verus! {

struct CacheEntry {
    key: String,
    result: ShufflePartition,
}

/// The table the cache denotes: result identifier to stored snapshot.
spec fn map_of(s: Seq<CacheEntry>) -> Map<Seq<char>, PartitionV>
    decreases s.len(),
{
    if s.len() == 0 {
        Map::empty()
    } else {
        map_of(s.drop_last()).insert(s.last().key@, s.last().result@)
    }
}

spec fn unique_keys(s: Seq<CacheEntry>) -> bool {
    forall|i: int, j: int| 0 <= i < j < s.len() ==> s[i].key@ != s[j].key@
}

proof fn lemma_map_of_contains(s: Seq<CacheEntry>, k: Seq<char>)
    ensures
        map_of(s).contains_key(k) <==> exists|i: int| 0 <= i < s.len() && s[i].key@ == k,
    decreases s.len(),
{
    if s.len() > 0 {
        lemma_map_of_contains(s.drop_last(), k);
        if s.last().key@ == k {
            assert(s[s.len() - 1].key@ == k);
        } else if map_of(s).contains_key(k) {
            let i = choose|i: int| 0 <= i < s.len() - 1 && s.drop_last()[i].key@ == k;
            assert(s[i].key@ == k);
        } else if exists|i: int| 0 <= i < s.len() && s[i].key@ == k {
            let i = choose|i: int| 0 <= i < s.len() && s[i].key@ == k;
            assert(s.drop_last()[i].key@ == k);
        }
    }
}

proof fn lemma_map_of_at(s: Seq<CacheEntry>, i: int)
    requires
        unique_keys(s),
        0 <= i < s.len(),
    ensures
        map_of(s).contains_key(s[i].key@),
        map_of(s)[s[i].key@] == s[i].result@,
    decreases s.len(),
{
    if i == s.len() - 1 {
    } else {
        assert(s.drop_last()[i] == s[i]);
        lemma_map_of_at(s.drop_last(), i);
        assert(s[i].key@ != s.last().key@);
    }
}

proof fn lemma_map_of_update(s: Seq<CacheEntry>, i: int, e: CacheEntry)
    requires
        unique_keys(s),
        0 <= i < s.len(),
        e.key@ == s[i].key@,
    ensures
        map_of(s.update(i, e)) =~= map_of(s).insert(e.key@, e.result@),
    decreases s.len(),
{
    let t = s.update(i, e);
    if i == s.len() - 1 {
        assert(t.drop_last() =~= s.drop_last());
        assert(t.last() == e);
    } else {
        assert(t.drop_last() =~= s.drop_last().update(i, e));
        assert(t.last() == s.last());
        assert(s.drop_last()[i] == s[i]);
        lemma_map_of_update(s.drop_last(), i, e);
        assert(e.key@ != s.last().key@);
    }
}

/// Secondary table keyed by an opaque result identifier, read by the
/// out-of-band schema lookup. Its population path sits outside this
/// library's protocol, so storing is a plain map insert.
pub struct ResultsCache {
    entries: Vec<CacheEntry>,
}

impl View for ResultsCache {
    type V = Map<Seq<char>, PartitionV>;

    closed spec fn view(&self) -> Map<Seq<char>, PartitionV> {
        map_of(self.entries@)
    }
}

impl ResultsCache {
    /// Each identifier names at most one stored snapshot.
    pub closed spec fn wf(&self) -> bool {
        unique_keys(self.entries@)
    }

    /// An empty cache.
    pub fn new() -> (r: Self)
        ensures
            r.wf(),
            r@ == Map::<Seq<char>, PartitionV>::empty(),
    {
        ResultsCache { entries: Vec::new() }
    }

    /// The snapshot stored under an identifier, if any.
    pub fn get(&self, key: &String) -> (r: Option<&ShufflePartition>)
        requires
            self.wf(),
        ensures
            match r {
                None => !self@.contains_key(key@),
                Some(p) => self@.contains_key(key@) && p@ == self@[key@],
            },
    {
        let mut i: usize = 0;
        while i < self.entries.len()
            invariant
                self.wf(),
                i <= self.entries.len(),
                forall|j: int| 0 <= j < i ==> self.entries@[j].key@ != key@,
            decreases self.entries.len() - i,
        {
            if self.entries[i].key == *key {
                proof {
                    lemma_map_of_at(self.entries@, i as int);
                }
                return Some(&self.entries[i].result);
            }
            i = i + 1;
        }
        proof {
            lemma_map_of_contains(self.entries@, key@);
        }
        None
    }

    /// Stores a snapshot under an identifier, replacing any earlier one.
    pub fn insert(&mut self, key: String, result: ShufflePartition)
        requires
            old(self).wf(),
        ensures
            final(self).wf(),
            final(self)@ == old(self)@.insert(key@, result@),
    {
        let ghost s0 = self.entries@;
        let mut i: usize = 0;
        while i < self.entries.len()
            invariant
                self.wf(),
                self.entries@ == s0,
                old(self).entries@ == s0,
                i <= self.entries.len(),
                forall|j: int| 0 <= j < i ==> self.entries@[j].key@ != key@,
            decreases self.entries.len() - i,
        {
            if self.entries[i].key == key {
                proof {
                    lemma_map_of_update(s0, i as int, CacheEntry { key: key, result: result });
                }
                self.entries.set(i, CacheEntry { key, result });
                return ;
            }
            i = i + 1;
        }
        proof {
            lemma_map_of_contains(s0, key@);
        }
        self.entries.push(CacheEntry { key, result });
        proof {
            assert(self.entries@.drop_last() =~= s0);
        }
    }
}

} // verus!
