use vstd::prelude::*;
use crate::news::FetchOutcome;

verus! {

/// How many fetches a cycle keeps in flight at most.
pub const FETCH_LIMIT: usize = 2;

/// The bookkeeping of one cycle's fetches: sources are started in list order,
/// never more than `limit` at once, and their outcomes are collected in the
/// order in which they complete.
pub struct FanOut {
    total: usize,
    limit: usize,
    started: usize,
    outcomes: Vec<FetchOutcome>,
}

impl FanOut {
    /// How many sources the cycle fetches from.
    pub closed spec fn total(&self) -> nat {
        self.total as nat
    }

    /// How many fetches may be in flight at once.
    pub closed spec fn limit(&self) -> nat {
        self.limit as nat
    }

    /// How many fetches have been started.
    pub closed spec fn started(&self) -> nat {
        self.started as nat
    }

    /// The outcomes collected so far, in completion order.
    pub closed spec fn outcomes(&self) -> Seq<FetchOutcome> {
        self.outcomes@
    }

    /// How many fetches have completed.
    pub open spec fn finished(&self) -> nat {
        self.outcomes().len()
    }

    /// How many fetches are started and not yet completed.
    pub open spec fn in_flight(&self) -> int {
        self.started() - self.finished()
    }

    /// Whether every source has been fetched from.
    pub open spec fn done(&self) -> bool {
        self.finished() == self.total()
    }

    /// Whether another fetch may start now.
    pub open spec fn can_start(&self) -> bool {
        self.started() < self.total() && self.in_flight() < self.limit()
    }

    pub closed spec fn wf(&self) -> bool {
        &&& 0 < self.limit
        &&& self.outcomes@.len() <= self.started <= self.total
        &&& self.started - self.outcomes@.len() <= self.limit
    }

    /// A cycle over `total` sources with at most `limit` fetches at once.
    pub fn new(total: usize, limit: usize) -> (r: FanOut)
        requires
            limit > 0,
        ensures
            r.wf(),
            r.total() == total,
            r.limit() == limit,
            r.started() == 0,
            r.outcomes() == Seq::<FetchOutcome>::empty(),
    {
        FanOut { total, limit, started: 0, outcomes: Vec::new() }
    }

    /// The index of the next source to fetch from, if one may start now; that
    /// fetch then counts as in flight.
    pub fn next_source(&mut self) -> (r: Option<usize>)
        requires
            old(self).wf(),
        ensures
            final(self).wf(),
            final(self).total() == old(self).total(),
            final(self).limit() == old(self).limit(),
            final(self).outcomes() == old(self).outcomes(),
            old(self).can_start() ==> r == Some(old(self).started() as usize)
                && final(self).started() == old(self).started() + 1,
            !old(self).can_start() ==> r is None && final(self).started() == old(self).started(),
    {
        if self.started < self.total && self.started - self.outcomes.len() < self.limit {
            let index = self.started;
            self.started = self.started + 1;
            Some(index)
        } else {
            None
        }
    }

    /// Records the outcome of a fetch that was in flight.
    pub fn complete(&mut self, outcome: FetchOutcome)
        requires
            old(self).wf(),
            old(self).in_flight() > 0,
        ensures
            final(self).wf(),
            final(self).total() == old(self).total(),
            final(self).limit() == old(self).limit(),
            final(self).started() == old(self).started(),
            final(self).outcomes() == old(self).outcomes().push(outcome),
    {
        self.outcomes.push(outcome);
    }

    /// How many fetches are in flight.
    pub fn in_flight_count(&self) -> (r: usize)
        requires
            self.wf(),
        ensures
            r == self.in_flight(),
    {
        self.started - self.outcomes.len()
    }

    /// Whether every source has been fetched from.
    pub fn is_done(&self) -> (r: bool)
        requires
            self.wf(),
        ensures
            r == self.done(),
    {
        self.outcomes.len() == self.total
    }

    /// The outcomes, in completion order.
    pub fn into_outcomes(self) -> (r: Vec<FetchOutcome>)
        ensures
            r@ == self.outcomes(),
    {
        self.outcomes
    }
}

/// Fetches stay bounded: never more than the limit in flight, never more
/// started than there are sources, and once the cycle is done every source
/// has been fetched from exactly once. Until then, either a fetch may start
/// or one is in flight to wait for.
pub proof fn lemma_fan_out_bounded(f: FanOut)
    requires
        f.wf(),
    ensures
        0 <= f.in_flight() <= f.limit(),
        f.finished() <= f.started() <= f.total(),
        f.done() ==> f.started() == f.total() && f.finished() == f.total(),
        !f.done() ==> f.can_start() || f.in_flight() > 0,
{
}

} // verus!
