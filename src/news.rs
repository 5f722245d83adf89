use vstd::prelude::*;

verus! {

/// Where news is pulled from: one kind of backend with its endpoint.
pub enum NewsSource {
    BBC { url: String },
}

/// The configured list of news sources.
pub struct NewsSources {
    pub sources: Vec<NewsSource>,
}

/// One story found by a news source.
pub struct NewsStory {
    pub id: String,
    pub headline: String,
    /// Canonical address of the story; stories are told apart by it.
    pub story_url: String,
}

/// A story as plain sequences of characters.
pub struct StoryView {
    pub id: Seq<char>,
    pub headline: Seq<char>,
    pub story_url: Seq<char>,
}

impl View for NewsStory {
    type V = StoryView;

    open spec fn view(&self) -> StoryView {
        StoryView { id: self.id@, headline: self.headline@, story_url: self.story_url@ }
    }
}

/// The views of a list of stories.
pub open spec fn story_views(stories: Seq<NewsStory>) -> Seq<StoryView> {
    stories.map_values(|s: NewsStory| s@)
}

/// The article that the BBC's latest-news endpoint points at.
pub struct BBCApiResponseAsset {
    pub asset_id: String,
    pub asset_uri: String,
    pub headline: String,
}

/// The BBC's latest-news answer; `asset` is absent when there is no current story.
pub struct BBCApiResponse {
    pub asset: Option<BBCApiResponseAsset>,
}

/// Why one fetch from a source gave nothing.
pub enum FetchError {
    /// The request or the decoding of its answer failed.
    Request { message: String },
}

/// What one fetch from a source gives: a story, nothing new, or a failure.
pub type FetchOutcome = Result<Option<NewsStory>, FetchError>;

pub open spec fn bbc_id_prefix() -> Seq<char> {
    "BBC_"@
}

pub open spec fn bbc_site() -> Seq<char> {
    "https://bbc.co.uk"@
}

/// The story that a BBC asset describes.
pub open spec fn bbc_story(asset: BBCApiResponseAsset) -> StoryView {
    StoryView {
        id: bbc_id_prefix() + asset.asset_id@,
        headline: asset.headline@,
        story_url: bbc_site() + asset.asset_uri@,
    }
}

/// Turns the BBC's answer into the story it announces, if any.
pub fn story_from_bbc_response(response: BBCApiResponse) -> (r: Option<NewsStory>)
    ensures
        response.asset is None <==> r is None,
        response.asset is Some ==> r.unwrap()@ == bbc_story(response.asset.unwrap()),
{
    match response.asset {
        Some(asset) => {
            let mut id = String::from_str("BBC_");
            id.append(asset.asset_id.as_str());
            let mut story_url = String::from_str("https://bbc.co.uk");
            story_url.append(asset.asset_uri.as_str());
            Some(NewsStory { id, headline: asset.headline, story_url })
        },
        None => None,
    }
}

} // verus!
