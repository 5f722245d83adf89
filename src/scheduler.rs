use vstd::prelude::*;
use crate::cycle::{cycle_output, fetched_stories, process_cycle};
use crate::dedup::{SeenSet, seen_after};
use crate::fanout::{FETCH_LIMIT, FanOut};
use crate::news::{FetchOutcome, NewsSource, NewsStory, story_views};
use crate::postprocess::{InvalidPattern, Postprocessor, RuleView, rule_views};

verus! {

/// Seconds to wait between two cycles unless configured otherwise.
pub const DEFAULT_CYCLE_SECS: u64 = 30;

/// Where the scheduler stands in its cycle.
#[derive(Clone, Copy, Debug, PartialEq, Eq, Structural)]
pub enum Phase {
    /// Configured, before the first cycle.
    Idle,
    /// Fetching from the sources.
    Fetching,
    /// Publishing the stories that were let through.
    Publishing,
    /// Waiting for the next cycle.
    Sleeping,
}

/// The state kept from cycle to cycle: the sources, the headline rules, the
/// addresses seen so far and the wait between cycles.
pub struct Scheduler {
    sources: Vec<NewsSource>,
    postprocessors: Vec<Postprocessor>,
    seen: SeenSet,
    interval_secs: u64,
    phase: Phase,
}

/// The rules as plain text, in order.
pub open spec fn rule_texts(rules: Seq<(String, String)>) -> Seq<RuleView> {
    rules.map_values(|r: (String, String)| RuleView { pattern: r.0@, substitution: r.1@ })
}

impl Scheduler {
    /// The sources, in configured order.
    pub closed spec fn sources(&self) -> Seq<NewsSource> {
        self.sources@
    }

    pub open spec fn source_count(&self) -> nat {
        self.sources().len()
    }

    pub closed spec fn rules(&self) -> Seq<RuleView> {
        rule_views(self.postprocessors@)
    }

    /// The addresses seen so far.
    pub closed spec fn seen(&self) -> Set<Seq<char>> {
        self.seen@
    }

    pub closed spec fn interval(&self) -> u64 {
        self.interval_secs
    }

    pub closed spec fn phase(&self) -> Phase {
        self.phase
    }

    /// A scheduler for `sources` that rewrites headlines by `rules`, each a
    /// pattern and its substitution, and waits `interval_secs` between cycles.
    /// Refused, with the first pattern that does not compile, when one does not.
    pub fn new(sources: Vec<NewsSource>, rules: Vec<(String, String)>, interval_secs: u64) -> (r: Result<Scheduler, InvalidPattern>)
        ensures
            r is Ok <==> forall|i: int| 0 <= i < rules@.len() ==> is_valid_rule(#[trigger] rules@[i]),
            r is Ok ==> {
                let s = r->Ok_0;
                &&& s.sources() == sources@
                &&& s.rules() == rule_texts(rules@)
                &&& s.seen() == Set::<Seq<char>>::empty()
                &&& s.interval() == interval_secs
                &&& s.phase() == Phase::Idle
            },
            r is Err ==> exists|i: int| {
                &&& 0 <= i < rules@.len()
                &&& !is_valid_rule(#[trigger] rules@[i])
                &&& r->Err_0.pattern@ == rules@[i].0@
                &&& forall|j: int| 0 <= j < i ==> is_valid_rule(#[trigger] rules@[j])
            },
    {
        let ghost all = rules@;
        let mut postprocessors: Vec<Postprocessor> = Vec::new();
        for rule in iter: rules
            invariant
                iter.seq() == all,
                postprocessors@.len() == iter.index(),
                forall|j: int| 0 <= j < iter.index() ==> is_valid_rule(#[trigger] all[j]),
                rule_views(postprocessors@) == rule_texts(all.subrange(0, iter.index() as int)),
        {
            let ghost i = iter.index() as int;
            assert(all[i] == rule);
            let (pattern, substitution) = rule;
            match Postprocessor::new(pattern, substitution) {
                Ok(p) => {
                    let ghost before = postprocessors@;
                    postprocessors.push(p);
                    assert(rule_views(postprocessors@) =~= rule_views(before).push(p@));
                    assert(rule_texts(all.subrange(0, i + 1)) =~= rule_texts(all.subrange(0, i)).push(p@));
                },
                Err(e) => {
                    return Err(e);
                },
            }
        }
        assert(all.subrange(0, all.len() as int) =~= all);
        let r = Scheduler { sources, postprocessors, seen: SeenSet::new(), interval_secs, phase: Phase::Idle };
        Ok(r)
    }

    /// The source at `index`.
    pub fn source(&self, index: usize) -> (r: &NewsSource)
        requires
            index < self.source_count(),
        ensures
            *r == self.sources()[index as int],
    {
        &self.sources[index]
    }

    /// Seconds to wait between cycles.
    pub fn interval_secs(&self) -> (r: u64)
        ensures
            r == self.interval(),
    {
        self.interval_secs
    }

    /// Starts a cycle: every source is to be fetched from, a few at a time.
    pub fn begin_fetch(&mut self) -> (r: FanOut)
        requires
            old(self).phase() == Phase::Idle || old(self).phase() == Phase::Sleeping,
        ensures
            r.wf(),
            r.total() == old(self).source_count(),
            r.limit() == FETCH_LIMIT,
            r.started() == 0,
            r.outcomes().len() == 0,
            final(self).phase() == Phase::Fetching,
            final(self).sources() == old(self).sources(),
            final(self).rules() == old(self).rules(),
            final(self).seen() == old(self).seen(),
            final(self).interval() == old(self).interval(),
    {
        self.phase = Phase::Fetching;
        FanOut::new(self.sources.len(), FETCH_LIMIT)
    }

    /// Ends the fetching of a cycle: the stories to publish, in order, with
    /// their headlines rewritten; their addresses are remembered.
    pub fn finish_fetch(&mut self, outcomes: Vec<FetchOutcome>) -> (r: Vec<NewsStory>)
        requires
            old(self).phase() == Phase::Fetching,
        ensures
            story_views(r@) == cycle_output(old(self).seen(), outcomes@, old(self).rules()),
            final(self).seen() == seen_after(old(self).seen(), fetched_stories(outcomes@)),
            final(self).phase() == Phase::Publishing,
            final(self).sources() == old(self).sources(),
            final(self).rules() == old(self).rules(),
            final(self).interval() == old(self).interval(),
    {
        let stories = process_cycle(&mut self.seen, outcomes, &self.postprocessors);
        self.phase = Phase::Publishing;
        stories
    }

    /// Ends the publishing of a cycle; the wait for the next one begins.
    pub fn finish_publish(&mut self)
        requires
            old(self).phase() == Phase::Publishing,
        ensures
            final(self).phase() == Phase::Sleeping,
            final(self).sources() == old(self).sources(),
            final(self).rules() == old(self).rules(),
            final(self).seen() == old(self).seen(),
            final(self).interval() == old(self).interval(),
    {
        self.phase = Phase::Sleeping;
    }

    /// Where the scheduler stands.
    pub fn current_phase(&self) -> (r: Phase)
        ensures
            r == self.phase(),
    {
        self.phase
    }
}

/// Whether a rule's pattern compiles.
pub open spec fn is_valid_rule(rule: (String, String)) -> bool {
    crate::postprocess::is_valid_pattern(rule.0@)
}

} // verus!
