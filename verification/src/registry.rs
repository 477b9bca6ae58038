use vstd::prelude::*;
use vstd::pervasive::VecAdditionalExecFns;

use crate::data::{PartitionV, ShufflePartition};

verus! {

/// Lifecycle state of one task key: admitted and executing, finished with a
/// result snapshot, or finished with a diagnostic text.
#[derive(Debug)]
pub enum TaskStatus {
    Running,
    Completed(ShufflePartition),
    Failed(String),
}

/// Mathematical value of a [`TaskStatus`].
#[verifier::ext_equal]
pub ghost enum StatusV {
    Running,
    Completed(PartitionV),
    Failed(Seq<char>),
}

impl View for TaskStatus {
    type V = StatusV;

    open spec fn view(&self) -> StatusV {
        match self {
            TaskStatus::Running => StatusV::Running,
            TaskStatus::Completed(p) => StatusV::Completed(p@),
            TaskStatus::Failed(reason) => StatusV::Failed(reason@),
        }
    }
}

struct StatusEntry {
    key: String,
    status: TaskStatus,
}

/// The table the registry denotes: task key to lifecycle state.
spec fn map_of(s: Seq<StatusEntry>) -> Map<Seq<char>, StatusV>
    decreases s.len(),
{
    if s.len() == 0 {
        Map::empty()
    } else {
        map_of(s.drop_last()).insert(s.last().key@, s.last().status@)
    }
}

spec fn unique_keys(s: Seq<StatusEntry>) -> bool {
    forall|i: int, j: int| 0 <= i < j < s.len() ==> s[i].key@ != s[j].key@
}

/// How many entries are in the `Running` state.
spec fn count_running(s: Seq<StatusEntry>) -> nat
    decreases s.len(),
{
    if s.len() == 0 {
        0
    } else {
        count_running(s.drop_last()) + if s.last().status is Running {
            1nat
        } else {
            0nat
        }
    }
}

proof fn lemma_map_of_contains(s: Seq<StatusEntry>, k: Seq<char>)
    ensures
        map_of(s).contains_key(k) <==> exists|i: int| 0 <= i < s.len() && s[i].key@ == k,
    decreases s.len(),
{
    if s.len() > 0 {
        lemma_map_of_contains(s.drop_last(), k);
        if s.last().key@ == k {
            assert(s[s.len() - 1].key@ == k);
        } else if map_of(s).contains_key(k) {
            let i = choose|i: int| 0 <= i < s.len() - 1 && s.drop_last()[i].key@ == k;
            assert(s[i].key@ == k);
        } else if exists|i: int| 0 <= i < s.len() && s[i].key@ == k {
            let i = choose|i: int| 0 <= i < s.len() && s[i].key@ == k;
            assert(s.drop_last()[i].key@ == k);
        }
    }
}

proof fn lemma_map_of_at(s: Seq<StatusEntry>, i: int)
    requires
        unique_keys(s),
        0 <= i < s.len(),
    ensures
        map_of(s).contains_key(s[i].key@),
        map_of(s)[s[i].key@] == s[i].status@,
    decreases s.len(),
{
    if i == s.len() - 1 {
    } else {
        assert(s.drop_last()[i] == s[i]);
        lemma_map_of_at(s.drop_last(), i);
        assert(s[i].key@ != s.last().key@);
    }
}

proof fn lemma_map_of_update(s: Seq<StatusEntry>, i: int, e: StatusEntry)
    requires
        unique_keys(s),
        0 <= i < s.len(),
        e.key@ == s[i].key@,
    ensures
        map_of(s.update(i, e)) =~= map_of(s).insert(e.key@, e.status@),
    decreases s.len(),
{
    let t = s.update(i, e);
    assert(t.len() == s.len());
    if i == s.len() - 1 {
        assert(t.drop_last() =~= s.drop_last());
        assert(t.last() == e);
    } else {
        assert(t.drop_last() =~= s.drop_last().update(i, e));
        assert(t.last() == s.last());
        assert(s.drop_last()[i] == s[i]);
        lemma_map_of_update(s.drop_last(), i, e);
        assert(e.key@ != s.last().key@);
    }
}

proof fn lemma_count_running_update(s: Seq<StatusEntry>, i: int, e: StatusEntry)
    requires
        0 <= i < s.len(),
        s[i].status is Running,
        !(e.status is Running),
    ensures
        count_running(s.update(i, e)) + 1 == count_running(s),
    decreases s.len(),
{
    let t = s.update(i, e);
    if i == s.len() - 1 {
        assert(t.drop_last() =~= s.drop_last());
        assert(t.last() == e);
    } else {
        assert(t.drop_last() =~= s.drop_last().update(i, e));
        assert(t.last() == s.last());
        assert(s.drop_last()[i] == s[i]);
        lemma_count_running_update(s.drop_last(), i, e);
    }
}

proof fn lemma_count_running_at(s: Seq<StatusEntry>, i: int)
    requires
        0 <= i < s.len(),
        s[i].status is Running,
    ensures
        count_running(s) >= 1,
    decreases s.len(),
{
    if i == s.len() - 1 {
    } else {
        assert(s.drop_last()[i] == s[i]);
        lemma_count_running_at(s.drop_last(), i);
    }
}

/// Shared table mapping each task key to its lifecycle state. Entries are
/// created exactly once, on first admission of a key, and never removed;
/// a key's state moves only forward, from `Running` to one terminal state.
/// No eviction is defined, a deliberate limitation: the table grows with
/// the number of distinct keys over the process lifetime, and re-executing
/// a resolved key requires a new key.
pub struct StatusRegistry {
    entries: Vec<StatusEntry>,
}

impl View for StatusRegistry {
    type V = Map<Seq<char>, StatusV>;

    closed spec fn view(&self) -> Map<Seq<char>, StatusV> {
        map_of(self.entries@)
    }
}

impl StatusRegistry {
    /// Each key names at most one entry.
    pub closed spec fn wf(&self) -> bool {
        unique_keys(self.entries@)
    }

    /// How many keys the registry holds in the `Running` state.
    pub closed spec fn running(&self) -> nat {
        count_running(self.entries@)
    }

    /// A key in the `Running` state witnesses at least one running entry.
    pub proof fn lemma_running_positive(&self, k: Seq<char>)
        requires
            self.wf(),
            self@.contains_key(k),
            self@[k] is Running,
        ensures
            self.running() >= 1,
    {
        lemma_map_of_contains(self.entries@, k);
        let i = choose|i: int| 0 <= i < self.entries@.len() && self.entries@[i].key@ == k;
        lemma_map_of_at(self.entries@, i);
        lemma_count_running_at(self.entries@, i);
    }

    /// An empty registry: no key has ever been admitted.
    pub fn new() -> (r: Self)
        ensures
            r.wf(),
            r@ == Map::<Seq<char>, StatusV>::empty(),
            r.running() == 0,
    {
        StatusRegistry { entries: Vec::new() }
    }

    /// The current state of one key, observed atomically: absent, or
    /// exactly one of the three lifecycle states.
    pub fn get(&self, key: &String) -> (r: Option<&TaskStatus>)
        requires
            self.wf(),
        ensures
            match r {
                None => !self@.contains_key(key@),
                Some(st) => self@.contains_key(key@) && st@ == self@[key@],
            },
    {
        let mut i: usize = 0;
        while i < self.entries.len()
            invariant
                self.wf(),
                i <= self.entries.len(),
                forall|j: int| 0 <= j < i ==> self.entries@[j].key@ != key@,
            decreases self.entries.len() - i,
        {
            if self.entries[i].key == *key {
                proof {
                    lemma_map_of_at(self.entries@, i as int);
                }
                return Some(&self.entries[i].status);
            }
            i = i + 1;
        }
        proof {
            lemma_map_of_contains(self.entries@, key@);
        }
        None
    }

    /// First admission of a key: creates its entry in the `Running` state.
    pub fn insert_running(&mut self, key: String)
        requires
            old(self).wf(),
            !old(self)@.contains_key(key@),
        ensures
            final(self).wf(),
            final(self)@ == old(self)@.insert(key@, StatusV::Running),
            final(self).running() == old(self).running() + 1,
    {
        proof {
            lemma_map_of_contains(self.entries@, key@);
        }
        let ghost s0 = self.entries@;
        self.entries.push(StatusEntry { key, status: TaskStatus::Running });
        proof {
            assert(self.entries@.drop_last() =~= s0);
        }
    }

    /// Publishes a task's successful outcome: its key leaves `Running` for
    /// `Completed`, holding the produced result snapshot.
    pub fn mark_completed(&mut self, key: &String, result: ShufflePartition)
        requires
            old(self).wf(),
            old(self)@.contains_key(key@),
            old(self)@[key@] is Running,
        ensures
            final(self).wf(),
            final(self)@ == old(self)@.insert(key@, StatusV::Completed(result@)),
            final(self).running() + 1 == old(self).running(),
    {
        let entry = StatusEntry { key: key.clone(), status: TaskStatus::Completed(result) };
        self.replace_running(key, entry);
    }

    /// Publishes a task's failure: its key leaves `Running` for `Failed`,
    /// holding the diagnostic text.
    pub fn mark_failed(&mut self, key: &String, reason: String)
        requires
            old(self).wf(),
            old(self)@.contains_key(key@),
            old(self)@[key@] is Running,
        ensures
            final(self).wf(),
            final(self)@ == old(self)@.insert(key@, StatusV::Failed(reason@)),
            final(self).running() + 1 == old(self).running(),
    {
        let entry = StatusEntry { key: key.clone(), status: TaskStatus::Failed(reason) };
        self.replace_running(key, entry);
    }

    /// Swaps the single `Running` entry of `key` for its terminal entry.
    fn replace_running(&mut self, key: &String, entry: StatusEntry)
        requires
            old(self).wf(),
            old(self)@.contains_key(key@),
            old(self)@[key@] is Running,
            entry.key@ == key@,
            !(entry.status@ is Running),
        ensures
            final(self).wf(),
            final(self)@ == old(self)@.insert(key@, entry.status@),
            final(self).running() + 1 == old(self).running(),
    {
        proof {
            lemma_map_of_contains(self.entries@, key@);
        }
        let ghost s0 = self.entries@;
        let mut i: usize = 0;
        while i < self.entries.len()
            invariant
                self.wf(),
                self.entries@ == s0,
                old(self).entries@ == s0,
                old(self)@.contains_key(key@),
                old(self)@[key@] is Running,
                entry.key@ == key@,
                !(entry.status@ is Running),
                i <= self.entries.len(),
                forall|j: int| 0 <= j < i ==> self.entries@[j].key@ != key@,
                exists|j: int| 0 <= j < self.entries@.len() && self.entries@[j].key@ == key@,
            decreases self.entries.len() - i,
        {
            if self.entries[i].key == *key {
                proof {
                    lemma_map_of_at(s0, i as int);
                    assert(s0[i as int].status is Running);
                    lemma_map_of_update(s0, i as int, entry);
                    lemma_count_running_update(s0, i as int, entry);
                }
                self.entries.set(i, entry);
                return ;
            }
            i = i + 1;
        }
        proof {
            assert(false);
        }
    }
}

} // verus!
