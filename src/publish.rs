use vstd::prelude::*;
use crate::news::NewsStory;

verus! {

/// The blog that stories are posted to.
pub const TARGET_BLOG: &'static str = "destiel-news-bot";

/// The name under which the rendered image is attached to a post.
pub const ATTACHMENT_ID: &'static str = "image-attachment";

/// The media type of the rendered image.
pub const IMAGE_MIME_TYPE: &'static str = "image/png";

pub open spec fn alt_text_prefix() -> Seq<char> {
    "the destiel confession meme edited to read \"I love you\" / \""@
}

pub open spec fn alt_text_suffix() -> Seq<char> {
    "\""@
}

/// The description of the image made for `headline`.
pub open spec fn alt_text_of(headline: Seq<char>) -> Seq<char> {
    alt_text_prefix() + headline + alt_text_suffix()
}

/// The description of the image made for `headline`.
pub fn alt_text(headline: &str) -> (r: String)
    ensures
        r@ == alt_text_of(headline@),
{
    let mut text = String::from_str("the destiel confession meme edited to read \"I love you\" / \"");
    text.append(headline);
    text.append("\"");
    text
}

/// Everything a post needs besides the image itself.
pub struct PostRequest {
    pub blog: String,
    pub alt_text: String,
    /// Where the story comes from, shown as the post's source.
    pub source_url: String,
    pub attachment_id: String,
    pub mime_type: String,
}

/// The post announcing `story`.
pub fn post_request(story: &NewsStory) -> (r: PostRequest)
    ensures
        r.blog@ == TARGET_BLOG@,
        r.alt_text@ == alt_text_of(story.headline@),
        r.source_url@ == story.story_url@,
        r.attachment_id@ == ATTACHMENT_ID@,
        r.mime_type@ == IMAGE_MIME_TYPE@,
{
    PostRequest {
        blog: String::from_str(TARGET_BLOG),
        alt_text: alt_text(story.headline.as_str()),
        source_url: story.story_url.clone(),
        attachment_id: String::from_str(ATTACHMENT_ID),
        mime_type: String::from_str(IMAGE_MIME_TYPE),
    }
}

/// What happened to one story at publication.
#[derive(Clone, Copy, Debug, PartialEq, Eq, Structural)]
pub enum ItemResult {
    Published,
    RenderFailed,
    PublishFailed,
}

/// The next thing to do for a cycle's stories.
#[derive(Clone, Copy, Debug, PartialEq, Eq, Structural)]
pub enum PublishAction {
    /// Render the image of the story at `index`.
    Render { index: usize },
    /// Publish the rendered image of the story at `index`.
    Publish { index: usize },
    /// Every story has had its turn.
    Finished,
}

/// Publication of a cycle's stories, one at a time and in list order: each
/// story is rendered, then published if rendering worked. A failure ends that
/// story's turn and the next story goes on.
pub struct Dispatcher {
    total: usize,
    rendered: bool,
    results: Vec<ItemResult>,
}

impl Dispatcher {
    /// How many stories there are to publish.
    pub closed spec fn total(&self) -> nat {
        self.total as nat
    }

    /// Whether the current story's image is rendered and awaits publication.
    pub closed spec fn rendered(&self) -> bool {
        self.rendered
    }

    /// What happened to each story so far, in list order.
    pub closed spec fn results(&self) -> Seq<ItemResult> {
        self.results@
    }

    /// The index of the story whose turn it is.
    pub open spec fn current(&self) -> nat {
        self.results().len()
    }

    /// The action for the current state.
    pub open spec fn next_action(&self) -> PublishAction {
        if self.current() >= self.total() {
            PublishAction::Finished
        } else if self.rendered() {
            PublishAction::Publish { index: self.current() as usize }
        } else {
            PublishAction::Render { index: self.current() as usize }
        }
    }

    pub closed spec fn wf(&self) -> bool {
        &&& self.results@.len() <= self.total
        &&& self.rendered ==> self.results@.len() < self.total
    }

    /// Publication of `total` stories, none handled yet.
    pub fn new(total: usize) -> (r: Dispatcher)
        ensures
            r.wf(),
            r.total() == total,
            !r.rendered(),
            r.results() == Seq::<ItemResult>::empty(),
    {
        Dispatcher { total, rendered: false, results: Vec::new() }
    }

    /// What to do next.
    pub fn action(&self) -> (r: PublishAction)
        requires
            self.wf(),
        ensures
            r == self.next_action(),
    {
        if self.results.len() >= self.total {
            PublishAction::Finished
        } else if self.rendered {
            PublishAction::Publish { index: self.results.len() }
        } else {
            PublishAction::Render { index: self.results.len() }
        }
    }

    /// Takes in whether rendering the current story worked. If it did, the
    /// story is published next; if not, its turn ends.
    pub fn on_rendered(&mut self, ok: bool)
        requires
            old(self).wf(),
            old(self).next_action() is Render,
        ensures
            final(self).wf(),
            final(self).total() == old(self).total(),
            ok ==> final(self).rendered() && final(self).results() == old(self).results(),
            !ok ==> !final(self).rendered()
                && final(self).results() == old(self).results().push(ItemResult::RenderFailed),
    {
        if ok {
            self.rendered = true;
        } else {
            self.results.push(ItemResult::RenderFailed);
        }
    }

    /// Takes in whether publishing the current story worked; its turn ends.
    pub fn on_published(&mut self, ok: bool)
        requires
            old(self).wf(),
            old(self).next_action() is Publish,
        ensures
            final(self).wf(),
            final(self).total() == old(self).total(),
            !final(self).rendered(),
            final(self).results() == old(self).results().push(
                if ok { ItemResult::Published } else { ItemResult::PublishFailed },
            ),
    {
        let result = if ok { ItemResult::Published } else { ItemResult::PublishFailed };
        self.results.push(result);
        self.rendered = false;
    }

    /// What happened to each story, in list order.
    pub fn into_results(self) -> (r: Vec<ItemResult>)
        ensures
            r@ == self.results(),
    {
        self.results
    }
}

/// Publication goes one story at a time, in list order, and a failure never
/// stops it: until every story has had its turn the next action is for the
/// story after those already handled, and when it is finished each story has
/// exactly one result.
pub proof fn lemma_dispatch_in_order(d: Dispatcher)
    requires
        d.wf(),
    ensures
        d.current() <= d.total(),
        d.next_action() is Finished <==> d.current() == d.total(),
        d.next_action() is Render ==> d.next_action()->Render_index == d.current(),
        d.next_action() is Publish ==> d.next_action()->Publish_index == d.current(),
        d.next_action() is Finished ==> d.results().len() == d.total(),
{
}

} // verus!
