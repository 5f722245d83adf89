use vstd::prelude::*;
use crate::dedup::{
    SeenSet, filter_unseen, lemma_known_stories_dropped, lemma_seen_grows, seen_after,
    unseen_stories,
};
use crate::news::{FetchOutcome, NewsStory, StoryView, story_views};
use crate::postprocess::{Postprocessor, RuleView, postprocess_story, postprocessed, rule_views};

verus! {

/// The stories that the successful fetches returned, in completion order;
/// fetches that failed or found nothing new contribute nothing.
pub open spec fn fetched_stories(outcomes: Seq<FetchOutcome>) -> Seq<StoryView>
    decreases outcomes.len(),
{
    if outcomes.len() == 0 {
        Seq::empty()
    } else {
        let earlier = fetched_stories(outcomes.drop_last());
        match outcomes.last() {
            Ok(Some(story)) => earlier.push(story@),
            _ => earlier,
        }
    }
}

/// A story with its headline rewritten by `rules`.
pub open spec fn postprocessed_story(story: StoryView, rules: Seq<RuleView>) -> StoryView {
    StoryView { headline: postprocessed(story.headline, rules), ..story }
}

/// What a cycle hands on for publication: the fetched stories whose address
/// is new, in order, each with its headline rewritten.
pub open spec fn cycle_output(
    seen: Set<Seq<char>>,
    outcomes: Seq<FetchOutcome>,
    rules: Seq<RuleView>,
) -> Seq<StoryView> {
    unseen_stories(seen, fetched_stories(outcomes)).map_values(
        |s: StoryView| postprocessed_story(s, rules),
    )
}

/// Keeps the stories of the successful fetches, in order.
pub fn collect_stories(outcomes: Vec<FetchOutcome>) -> (r: Vec<NewsStory>)
    ensures
        story_views(r@) == fetched_stories(outcomes@),
{
    let ghost all = outcomes@;
    let mut stories: Vec<NewsStory> = Vec::new();
    for outcome in iter: outcomes
        invariant
            iter.seq() == all,
            story_views(stories@) == fetched_stories(all.subrange(0, iter.index() as int)),
    {
        let ghost i = iter.index() as int;
        proof {
            let prefix = all.subrange(0, i + 1);
            assert(prefix.drop_last() =~= all.subrange(0, i));
            assert(prefix.last() == outcome);
        }
        match outcome {
            Ok(Some(story)) => {
                stories.push(story);
                assert(story_views(stories@) =~= fetched_stories(all.subrange(0, i)).push(story@));
            },
            _ => {},
        }
    }
    assert(all.subrange(0, all.len() as int) =~= all);
    stories
}

/// Rewrites the headline of every story, keeping their order.
pub fn postprocess_stories(stories: Vec<NewsStory>, rules: &Vec<Postprocessor>) -> (r: Vec<NewsStory>)
    ensures
        story_views(r@) == story_views(stories@).map_values(
            |s: StoryView| postprocessed_story(s, rule_views(rules@)),
        ),
{
    let ghost all = stories@;
    let ghost rv = rule_views(rules@);
    let mut out: Vec<NewsStory> = Vec::new();
    for story in iter: stories
        invariant
            iter.seq() == all,
            rv == rule_views(rules@),
            out@.len() == iter.index(),
            forall|j: int| 0 <= j < iter.index() ==> #[trigger] out@[j]@ == postprocessed_story(all[j]@, rv),
    {
        let mut story = story;
        postprocess_story(&mut story, rules);
        out.push(story);
    }
    assert(story_views(out@) =~= story_views(all).map_values(|s: StoryView| postprocessed_story(s, rv)));
    out
}

/// The work of one cycle between fetching and publishing: drops the failed
/// and empty fetches, lets through the stories whose address is new
/// (remembering every address), and rewrites their headlines.
pub fn process_cycle(
    seen: &mut SeenSet,
    outcomes: Vec<FetchOutcome>,
    rules: &Vec<Postprocessor>,
) -> (r: Vec<NewsStory>)
    ensures
        story_views(r@) == cycle_output(old(seen)@, outcomes@, rule_views(rules@)),
        final(seen)@ == seen_after(old(seen)@, fetched_stories(outcomes@)),
{
    let fetched = collect_stories(outcomes);
    let fresh = filter_unseen(seen, fetched);
    postprocess_stories(fresh, rules)
}

proof fn lemma_failure_contributes_nothing(outcomes: Seq<FetchOutcome>, k: int)
    requires
        0 <= k < outcomes.len(),
        outcomes[k] is Err,
    ensures
        fetched_stories(outcomes.remove(k)) == fetched_stories(outcomes),
    decreases outcomes.len(),
{
    if k == outcomes.len() - 1 {
        assert(outcomes.remove(k) =~= outcomes.drop_last());
    } else {
        lemma_failure_contributes_nothing(outcomes.drop_last(), k);
        assert(outcomes.remove(k).drop_last() =~= outcomes.drop_last().remove(k));
        assert(outcomes.remove(k).last() == outcomes.last());
    }
}

/// A failed fetch changes nothing else in its cycle: with or without it, the
/// same stories are published and the same addresses remembered.
pub proof fn lemma_failure_isolation(
    seen: Set<Seq<char>>,
    outcomes: Seq<FetchOutcome>,
    rules: Seq<RuleView>,
    k: int,
)
    requires
        0 <= k < outcomes.len(),
        outcomes[k] is Err,
    ensures
        cycle_output(seen, outcomes, rules) == cycle_output(seen, outcomes.remove(k), rules),
        seen_after(seen, fetched_stories(outcomes))
            == seen_after(seen, fetched_stories(outcomes.remove(k))),
{
    lemma_failure_contributes_nothing(outcomes, k);
}

/// A cycle that fetches again what the previous cycle fetched publishes
/// nothing: every address it brings was remembered the first time.
pub proof fn lemma_repeated_cycle_publishes_nothing(
    seen: Set<Seq<char>>,
    outcomes: Seq<FetchOutcome>,
    rules: Seq<RuleView>,
)
    ensures
        cycle_output(seen_after(seen, fetched_stories(outcomes)), outcomes, rules).len() == 0,
{
    let fetched = fetched_stories(outcomes);
    lemma_seen_grows(seen, fetched);
    lemma_known_stories_dropped(seen_after(seen, fetched), fetched);
}

} // verus!
