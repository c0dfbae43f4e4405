//! Fail-fast aggregation of concurrent task results.
//!
//! The same pattern serves at two levels of the pipeline: all maps of a
//! category download concurrently, and all categories of an edition
//! download concurrently. In both, results arrive in completion order, the
//! first failure makes the whole group fail with no partial result handed
//! on, and a fully successful group yields every result, in the order of
//! arrival.

use vstd::prelude::*;

use crate::error::FetchError;
use crate::model::DownloadedMap;

verus! {

/// Collects the results of a group of concurrent tasks as they complete,
/// failing fast on the first error.
///
/// The caller makes one collector per group, sized to the group's task
/// count, feeds it each task's outcome as the task finishes, and stops at
/// the first error or once the collector reports the group complete.
pub struct Collector<T> {
    items: Vec<T>,
    expected: usize,
}

impl<T> Collector<T> {
    /// The results accepted so far, in arrival order.
    pub closed spec fn collected(&self) -> Seq<T> {
        self.items@
    }

    /// The size of the group: how many outcomes make it complete.
    pub closed spec fn group_size(&self) -> nat {
        self.expected as nat
    }

    /// A collector never holds more results than its group size.
    pub open spec fn wf(&self) -> bool {
        self.collected().len() <= self.group_size()
    }

    /// Whether every task of the group has delivered a result.
    pub open spec fn complete(&self) -> bool {
        self.collected().len() == self.group_size()
    }

    /// Makes an empty collector for a group of `expected` tasks.
    pub fn new(expected: usize) -> (r: Self)
        ensures
            r.wf(),
            r.collected() == Seq::<T>::empty(),
            r.group_size() == expected as nat,
    {
        Collector { items: Vec::new(), expected }
    }

    /// How many results the collector still waits for.
    pub fn remaining(&self) -> (r: usize)
        requires
            self.wf(),
        ensures
            r as nat == self.group_size() - self.collected().len(),
    {
        self.expected - self.items.len()
    }

    /// Accepts one task's outcome. A success is kept and the call reports
    /// whether the group is now complete; a failure is returned at once,
    /// nothing is kept of it, and the group counts as failed with no
    /// partial result.
    pub fn push(&mut self, outcome: Result<T, FetchError>) -> (r: Result<bool, FetchError>)
        requires
            old(self).wf(),
            !old(self).complete(),
        ensures
            final(self).wf(),
            final(self).group_size() == old(self).group_size(),
            outcome matches Ok(t) ==> (final(self).collected() == old(self).collected().push(t)
                && (r matches Ok(done) && (done <==> final(self).complete()))),
            outcome matches Err(e) ==> (final(self).collected() == old(self).collected()
                && (r matches Err(e2) && e2 == e)),
    {
        match outcome {
            Ok(item) => {
                self.items.push(item);
                Ok(self.items.len() == self.expected)
            },
            Err(e) => Err(e),
        }
    }

    /// Hands out everything collected, in arrival order.
    pub fn finish(self) -> (r: Vec<T>)
        ensures
            r@ == self.collected(),
    {
        self.items
    }
}

/// Reduces a group's outcomes, in their arrival order, to one result:
/// every outcome a success, and the whole group succeeds with all results
/// kept in that order; any outcome a failure, and the whole group fails
/// with the first failure, handing on no partial result.
pub fn join_or_fail<T>(outcomes: Vec<Result<T, FetchError>>) -> (r: Result<Vec<T>, FetchError>)
    ensures
        r is Ok <==> (forall|i: int| 0 <= i < outcomes@.len() ==> outcomes@[i] is Ok),
        r matches Ok(v) ==> (v@.len() == outcomes@.len() && forall|i: int|
            0 <= i < outcomes@.len() ==> v@[i] == #[trigger] outcomes@[i]->Ok_0),
        r matches Err(e) ==> exists|i: int|
            0 <= i < outcomes@.len() && ((#[trigger] outcomes@[i]) matches Err(e2) && e2 == e)
                && (forall|j: int| 0 <= j < i ==> outcomes@[j] is Ok),
{
    let ghost orig: Seq<Result<T, FetchError>> = outcomes@;
    let n = outcomes.len();
    let mut rest = outcomes;
    let mut col: Collector<T> = Collector::new(n);
    while rest.len() > 0
        invariant
            col.wf(),
            col.group_size() == n as nat,
            orig == outcomes@,
            orig.len() == n as nat,
            rest@.len() <= n as nat,
            rest@ == orig.skip(orig.len() - rest@.len()),
            col.collected().len() == orig.len() - rest@.len(),
            forall|j: int|
                0 <= j < orig.len() - rest@.len() ==> (#[trigger] orig[j] is Ok
                    && col.collected()[j] == orig[j]->Ok_0),
        decreases rest@.len(),
    {
        let ghost k: int = orig.len() - rest@.len();
        let outcome = rest.remove(0);
        proof {
            assert(rest@ =~= orig.skip(k + 1));
            assert(outcome == orig[k]);
        }
        match col.push(outcome) {
            Ok(_) => {
                proof {
                    assert(col.collected()[k] == orig[k]->Ok_0);
                }
            },
            Err(e) => {
                proof {
                    assert(0 <= k < outcomes@.len());
                    assert(outcomes@[k] matches Err(e2) && e2 == e);
                    assert(forall|j: int| 0 <= j < k ==> outcomes@[j] is Ok);
                }
                return Err(e);
            },
        }
    }
    proof {
        assert(rest@.len() == 0);
        assert(col.collected().len() == orig.len());
    }
    Ok(col.finish())
}

/// The decision half of one category's download: pairs the category handle
/// with the fail-fast aggregation of its maps' download outcomes. If any
/// one map failed, the category's result is that failure and no partial map
/// list is returned.
pub fn collect_category(handle: String, outcomes: Vec<Result<DownloadedMap, FetchError>>) -> (r:
    Result<(String, Vec<DownloadedMap>), FetchError>)
    ensures
        r is Ok <==> (forall|i: int| 0 <= i < outcomes@.len() ==> outcomes@[i] is Ok),
        r matches Ok(p) ==> (p.0 == handle && p.1@.len() == outcomes@.len() && forall|i: int|
            0 <= i < outcomes@.len() ==> p.1@[i] == #[trigger] outcomes@[i]->Ok_0),
        r matches Err(e) ==> exists|i: int|
            0 <= i < outcomes@.len() && ((#[trigger] outcomes@[i]) matches Err(e2) && e2 == e),
{
    match join_or_fail(outcomes) {
        Ok(maps) => Ok((handle, maps)),
        Err(e) => Err(e),
    }
}

} // verus!
