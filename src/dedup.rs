use vstd::prelude::*;
use crate::news::{NewsStory, StoryView, story_views};

verus! {

/// The canonical addresses of every story let through so far. It only grows.
pub struct SeenSet {
    keys: Vec<String>,
}

impl View for SeenSet {
    type V = Set<Seq<char>>;

    closed spec fn view(&self) -> Set<Seq<char>> {
        self.keys@.map_values(|k: String| k@).to_set()
    }
}

impl SeenSet {
    /// An empty store.
    pub fn new() -> (r: SeenSet)
        ensures
            r@ == Set::<Seq<char>>::empty(),
    {
        let r = SeenSet { keys: Vec::new() };
        assert(r@ =~= Set::<Seq<char>>::empty());
        r
    }

    /// Whether `key` has been let through before.
    pub fn contains(&self, key: &String) -> (r: bool)
        ensures
            r == self@.contains(key@),
    {
        let mut i: usize = 0;
        while i < self.keys.len()
            invariant
                i <= self.keys@.len(),
                forall|j: int| 0 <= j < i ==> self.keys@[j]@ != key@,
            decreases self.keys@.len() - i,
        {
            if self.keys[i] == *key {
                assert(self.keys@.map_values(|k: String| k@)[i as int] == key@);
                return true;
            }
            i = i + 1;
        }
        assert(!self.keys@.map_values(|k: String| k@).contains(key@));
        false
    }

    /// Whether `key` is new; a new key is remembered, so that every later
    /// call with it answers false.
    pub fn mark_or_skip(&mut self, key: &String) -> (r: bool)
        ensures
            r == !old(self)@.contains(key@),
            final(self)@ == old(self)@.insert(key@),
    {
        if self.contains(key) {
            assert(self@.insert(key@) =~= self@);
            false
        } else {
            let ghost before = self.keys@.map_values(|k: String| k@);
            self.keys.push(key.clone());
            assert(self.keys@.map_values(|k: String| k@) =~= before.push(key@));
            assert(self@ =~= before.to_set().insert(key@)) by {
                let after = before.push(key@);
                assert forall|k: Seq<char>| after.contains(k) <==> before.contains(k) || k == key@ by {
                    if before.contains(k) {
                        let j = choose|j: int| 0 <= j < before.len() && before[j] == k;
                        assert(after[j] == k);
                    }
                    if k == key@ {
                        assert(after[before.len() as int] == k);
                    }
                }
            }
            true
        }
    }
}

/// The addresses known after the stories have gone by, in order, from `seen`.
pub open spec fn seen_after(seen: Set<Seq<char>>, stories: Seq<StoryView>) -> Set<Seq<char>>
    decreases stories.len(),
{
    if stories.len() == 0 {
        seen
    } else {
        seen_after(seen, stories.drop_last()).insert(stories.last().story_url)
    }
}

/// The stories, in order, whose address neither `seen` nor an earlier story holds.
pub open spec fn unseen_stories(seen: Set<Seq<char>>, stories: Seq<StoryView>) -> Seq<StoryView>
    decreases stories.len(),
{
    if stories.len() == 0 {
        Seq::empty()
    } else {
        let earlier = stories.drop_last();
        let kept = unseen_stories(seen, earlier);
        if seen_after(seen, earlier).contains(stories.last().story_url) {
            kept
        } else {
            kept.push(stories.last())
        }
    }
}

/// Lets through, in order, the stories whose address has not been seen, and
/// remembers every address.
pub fn filter_unseen(seen: &mut SeenSet, stories: Vec<NewsStory>) -> (r: Vec<NewsStory>)
    ensures
        story_views(r@) == unseen_stories(old(seen)@, story_views(stories@)),
        final(seen)@ == seen_after(old(seen)@, story_views(stories@)),
{
    let ghost start = seen@;
    let ghost all = story_views(stories@);
    let mut kept: Vec<NewsStory> = Vec::new();
    for story in iter: stories
        invariant
            iter.seq() == stories@,
            all == story_views(stories@),
            story_views(kept@) == unseen_stories(start, all.subrange(0, iter.index() as int)),
            seen@ == seen_after(start, all.subrange(0, iter.index() as int)),
    {
        let ghost i = iter.index() as int;
        proof {
            let prefix = all.subrange(0, i + 1);
            assert(prefix.drop_last() =~= all.subrange(0, i));
            assert(prefix.last() == story@);
        }
        if seen.mark_or_skip(&story.story_url) {
            kept.push(story);
            assert(story_views(kept@) =~= unseen_stories(start, all.subrange(0, i)).push(all[i]));
        }
    }
    assert(all.subrange(0, all.len() as int) =~= all);
    kept
}

/// The addresses seen only grow as stories go by.
pub proof fn lemma_seen_grows(seen: Set<Seq<char>>, stories: Seq<StoryView>)
    ensures
        seen.subset_of(seen_after(seen, stories)),
        forall|i: int| 0 <= i < stories.len() ==> seen_after(seen, stories).contains(#[trigger] stories[i].story_url),
    decreases stories.len(),
{
    if stories.len() > 0 {
        let earlier = stories.drop_last();
        lemma_seen_grows(seen, earlier);
        assert forall|i: int| 0 <= i < stories.len() implies seen_after(seen, stories).contains(#[trigger] stories[i].story_url) by {
            if i < stories.len() - 1 {
                assert(earlier[i] == stories[i]);
            }
        }
    }
}

/// Once an address is let through it is never let through again: a story let
/// through was not seen before, is remembered afterwards, and no two stories
/// let through in one pass share an address.
pub proof fn lemma_dedup_monotonic(seen: Set<Seq<char>>, stories: Seq<StoryView>)
    ensures
        seen.subset_of(seen_after(seen, stories)),
        forall|i: int| 0 <= i < unseen_stories(seen, stories).len() ==> {
            let url = #[trigger] unseen_stories(seen, stories)[i].story_url;
            !seen.contains(url) && seen_after(seen, stories).contains(url)
        },
        forall|i: int, j: int| 0 <= i < j < unseen_stories(seen, stories).len()
            ==> unseen_stories(seen, stories)[i].story_url != unseen_stories(seen, stories)[j].story_url,
    decreases stories.len(),
{
    lemma_seen_grows(seen, stories);
    if stories.len() > 0 {
        let earlier = stories.drop_last();
        let last = stories.last();
        lemma_dedup_monotonic(seen, earlier);
        lemma_seen_grows(seen, earlier);
        let kept_before = unseen_stories(seen, earlier);
        let kept = unseen_stories(seen, stories);
        let known_before = seen_after(seen, earlier);
        let known = seen_after(seen, stories);
        assert forall|i: int| 0 <= i < kept.len() implies {
            let url = #[trigger] kept[i].story_url;
            !seen.contains(url) && known.contains(url)
        } by {
            if i < kept_before.len() {
                assert(kept[i] == kept_before[i]);
            }
        }
        assert forall|i: int, j: int| 0 <= i < j < kept.len()
            implies kept[i].story_url != kept[j].story_url by {
            assert(kept[i] == kept_before[i]);
            if j < kept_before.len() {
                assert(kept[j] == kept_before[j]);
            } else {
                assert(kept[j] == last);
                assert(known_before.contains(kept_before[i].story_url));
            }
        }
    }
}

/// Stories whose addresses are all known already are all dropped.
pub proof fn lemma_known_stories_dropped(seen: Set<Seq<char>>, stories: Seq<StoryView>)
    requires
        forall|i: int| 0 <= i < stories.len() ==> seen.contains(#[trigger] stories[i].story_url),
    ensures
        unseen_stories(seen, stories).len() == 0,
    decreases stories.len(),
{
    if stories.len() > 0 {
        let earlier = stories.drop_last();
        assert forall|i: int| 0 <= i < earlier.len() implies seen.contains(#[trigger] earlier[i].story_url) by {
            assert(earlier[i] == stories[i]);
        }
        lemma_known_stories_dropped(seen, earlier);
        lemma_seen_grows(seen, earlier);
        assert(seen.contains(stories[stories.len() - 1].story_url));
    }
}

/// An address let through in one pass is not let through in any later pass
/// that starts from what the first one remembered.
pub proof fn lemma_accepted_never_again(
    seen: Set<Seq<char>>,
    first: Seq<StoryView>,
    later: Seq<StoryView>,
)
    ensures
        forall|i: int, j: int|
            0 <= i < unseen_stories(seen, first).len()
            && 0 <= j < unseen_stories(seen_after(seen, first), later).len()
            ==> #[trigger] unseen_stories(seen, first)[i].story_url
                != #[trigger] unseen_stories(seen_after(seen, first), later)[j].story_url,
{
    lemma_dedup_monotonic(seen, first);
    lemma_dedup_monotonic(seen_after(seen, first), later);
}

} // verus!
