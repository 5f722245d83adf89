use destielbot_rs::news::NewsStory;
use destielbot_rs::publish::{
    alt_text, post_request, Dispatcher, ItemResult, PublishAction, ATTACHMENT_ID, IMAGE_MIME_TYPE,
    TARGET_BLOG,
};

#[test]
fn alt_text_quotes_the_headline() {
    assert_eq!(
        alt_text("Hello World"),
        "the destiel confession meme edited to read \"I love you\" / \"Hello World\""
    );
}

#[test]
fn post_request_carries_story_details() {
    let story = NewsStory {
        id: "BBC_1337".to_string(),
        headline: "Hello World".to_string(),
        story_url: "https://bbc.co.uk/news/uk-1337".to_string(),
    };
    let post = post_request(&story);
    assert_eq!(post.blog, "destiel-news-bot");
    assert_eq!(post.blog, TARGET_BLOG);
    assert_eq!(post.source_url, "https://bbc.co.uk/news/uk-1337");
    assert_eq!(post.attachment_id, ATTACHMENT_ID);
    assert_eq!(post.attachment_id, "image-attachment");
    assert_eq!(post.mime_type, IMAGE_MIME_TYPE);
    assert_eq!(post.mime_type, "image/png");
    assert_eq!(post.alt_text, alt_text("Hello World"));
}

#[test]
fn failures_do_not_stop_publication() {
    let mut d = Dispatcher::new(3);
    assert_eq!(d.action(), PublishAction::Render { index: 0 });
    d.on_rendered(false);
    assert_eq!(d.action(), PublishAction::Render { index: 1 });
    d.on_rendered(true);
    assert_eq!(d.action(), PublishAction::Publish { index: 1 });
    d.on_published(false);
    assert_eq!(d.action(), PublishAction::Render { index: 2 });
    d.on_rendered(true);
    assert_eq!(d.action(), PublishAction::Publish { index: 2 });
    d.on_published(true);
    assert_eq!(d.action(), PublishAction::Finished);
    assert_eq!(
        d.into_results(),
        vec![ItemResult::RenderFailed, ItemResult::PublishFailed, ItemResult::Published]
    );
}

#[test]
fn nothing_to_publish_is_finished_at_once() {
    let d = Dispatcher::new(0);
    assert_eq!(d.action(), PublishAction::Finished);
    assert!(d.into_results().is_empty());
}
