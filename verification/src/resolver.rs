//! Lookup of a record by its name in a named collection.
//!
//! A collection is a sequence of records, each a name with a value. Names
//! need not be unique: of several records with one name the first counts.
//! Names are compared exactly, character by character.

use vstd::prelude::*;
use crate::apis::{
    AuthInfoView, ClusterView, ContextView, NamedAuthInfo, NamedCluster, NamedContext,
};

verus! {

/// A record that carries a name: its view is the name with the view of the
/// value.
pub trait Named<W>: View<V = (Seq<char>, W)> {
    /// The record's name.
    fn name(&self) -> (name: &String)
        ensures
            name@ == self@.0,
    ;
}

impl Named<ContextView> for NamedContext {
    fn name(&self) -> (name: &String) {
        &self.name
    }
}

impl Named<ClusterView> for NamedCluster {
    fn name(&self) -> (name: &String) {
        &self.name
    }
}

impl Named<AuthInfoView> for NamedAuthInfo {
    fn name(&self) -> (name: &String) {
        &self.name
    }
}

/// The views of the records of a collection, in order.
pub open spec fn records<W, T: Named<W>>(collection: Seq<T>) -> Seq<(Seq<char>, W)> {
    Seq::new(collection.len(), |i: int| collection[i]@)
}

/// Whether the record at index `i` is named `target` and no record before
/// it is.
pub open spec fn is_first_match<W>(records: Seq<(Seq<char>, W)>, target: Seq<char>, i: int) -> bool {
    &&& 0 <= i < records.len()
    &&& records[i].0 == target
    &&& forall|j: int| 0 <= j < i ==> (#[trigger] records[j]).0 != target
}

/// Whether no record is named `target`.
pub open spec fn is_absent<W>(records: Seq<(Seq<char>, W)>, target: Seq<char>) -> bool {
    forall|j: int| 0 <= j < records.len() ==> (#[trigger] records[j]).0 != target
}

/// Index of the first record named `target`, if there is one.
pub open spec fn first_match<W>(records: Seq<(Seq<char>, W)>, target: Seq<char>) -> Option<int> {
    if exists|i: int| is_first_match(records, target, i) {
        Some(choose|i: int| is_first_match(records, target, i))
    } else {
        None
    }
}

/// Value of the first record named `target`, if there is one.
pub open spec fn lookup<W>(records: Seq<(Seq<char>, W)>, target: Seq<char>) -> Option<W> {
    match first_match(records, target) {
        Some(i) => Some(records[i].1),
        None => None,
    }
}

/// A record that is the first of its name is the one `first_match` gives.
pub proof fn lemma_first_match_is<W>(records: Seq<(Seq<char>, W)>, target: Seq<char>, i: int)
    requires
        is_first_match(records, target, i),
    ensures
        first_match(records, target) == Some(i),
        lookup(records, target) == Some(records[i].1),
{
    let k = choose|k: int| is_first_match(records, target, k);
    assert(is_first_match(records, target, k));
    if k < i {
        assert(records[k].0 != target);
    }
    if i < k {
        assert(records[i].0 != target);
    }
}

/// Where no record has the name, `first_match` gives nothing; where one
/// has it, `first_match` gives something.
pub proof fn lemma_first_match_none<W>(records: Seq<(Seq<char>, W)>, target: Seq<char>)
    ensures
        first_match(records, target) is None <==> is_absent(records, target),
        lookup(records, target) is None <==> is_absent(records, target),
{
    if is_absent(records, target) {
        if exists|i: int| is_first_match(records, target, i) {
            let i = choose|i: int| is_first_match(records, target, i);
            assert(records[i].0 != target);
        }
    } else {
        let j = choose|j: int| 0 <= j < records.len() && (#[trigger] records[j]).0 == target;
        lemma_some_first_match(records, target, j);
    }
}

/// Where the record at index `j` has the name, some record at or before
/// `j` is the first of that name.
proof fn lemma_some_first_match<W>(records: Seq<(Seq<char>, W)>, target: Seq<char>, j: int)
    requires
        0 <= j < records.len(),
        records[j].0 == target,
    ensures
        exists|i: int| 0 <= i <= j && is_first_match(records, target, i),
    decreases j,
{
    if forall|k: int| 0 <= k < j ==> (#[trigger] records[k]).0 != target {
        assert(is_first_match(records, target, j));
    } else {
        let k = choose|k: int| 0 <= k < j && (#[trigger] records[k]).0 == target;
        lemma_some_first_match(records, target, k);
    }
}

/// Finds the first record named `target` by a linear scan.
pub fn find<'a, W, T: Named<W>>(collection: &'a Vec<T>, target: &String) -> (found: Option<&'a T>)
    ensures
        match found {
            Some(record) => first_match(records(collection@), target@) matches Some(i)
                && *record == collection@[i],
            None => first_match(records(collection@), target@) is None,
        },
{
    let mut i: usize = 0;
    while i < collection.len()
        invariant
            i <= collection.len(),
            forall|j: int| 0 <= j < i ==> (#[trigger] records(collection@)[j]).0 != target@,
        decreases collection.len() - i,
    {
        let record = &collection[i];
        if *record.name() == *target {
            proof {
                assert(records(collection@)[i as int] == record@);
                lemma_first_match_is(records(collection@), target@, i as int);
            }
            return Some(record);
        }
        assert(records(collection@)[i as int] == record@);
        i += 1;
    }
    proof {
        lemma_first_match_none(records(collection@), target@);
    }
    None
}

} // verus!
