use destielbot_rs::image::{
    headline_extent, initial_font_size, next_font_size, to_layout_units, ImageGenConfig, Rect,
};
use destielbot_rs::news::{story_from_bbc_response, BBCApiResponse, BBCApiResponseAsset};
use destielbot_rs::tumblr::{TokenError, TokenInfo, UtcTime};

#[test]
fn bbc_response_without_asset_has_no_story() {
    assert!(story_from_bbc_response(BBCApiResponse { asset: None }).is_none());
}

#[test]
fn bbc_response_with_asset_gives_story() {
    let response = BBCApiResponse {
        asset: Some(BBCApiResponseAsset {
            asset_id: "1337".to_string(),
            asset_uri: "/news/uk-1337".to_string(),
            headline: "Hello World".to_string(),
        }),
    };
    let story = story_from_bbc_response(response).unwrap();
    assert_eq!(story.id, "BBC_1337");
    assert_eq!(story.headline, "Hello World");
    assert_eq!(story.story_url, "https://bbc.co.uk/news/uk-1337");
}

fn config() -> ImageGenConfig {
    ImageGenConfig {
        headline_bounds: Rect { x: 10, y: 20, width: 300, height: 100 },
        max_font_size: 48,
        template: "template.png".to_string(),
    }
}

#[test]
fn layout_sizes_scale_with_units() {
    assert_eq!(to_layout_units(300, 1024), Some(307200));
    assert_eq!(to_layout_units(-2, 1024), Some(-2048));
    assert_eq!(to_layout_units(i32::MAX, 2), None);
    assert_eq!(headline_extent(&config(), 1024), Some((307200, 102400)));
    assert_eq!(initial_font_size(&config(), 1024), Some(49152));
    let mut huge = config();
    huge.headline_bounds.height = 3_000_000;
    assert_eq!(headline_extent(&huge, 1024), None);
}

#[test]
fn font_shrinks_until_headline_fits() {
    assert_eq!(next_font_size(49152, 1024, 120, 100), Some(48128));
    assert_eq!(next_font_size(49152, 1024, 100, 100), None);
    assert_eq!(next_font_size(49152, 1024, 80, 100), None);
    assert_eq!(next_font_size(1024, 1024, 120, 100), None);
}

#[test]
fn token_without_lifetime_is_expired() {
    let token = TokenInfo { request_time: UtcTime { secs: 1000, nanos: 0 }, expires_in: None };
    assert!(matches!(token.is_expired_at(&UtcTime { secs: 0, nanos: 0 }), Ok(true)));
    assert!(matches!(token.is_expired(), Ok(true)));
}

#[test]
fn token_expires_after_its_lifetime() {
    let token = TokenInfo { request_time: UtcTime { secs: 1000, nanos: 500 }, expires_in: Some(60) };
    assert!(matches!(token.is_expired_at(&UtcTime { secs: 1059, nanos: 999 }), Ok(false)));
    assert!(matches!(token.is_expired_at(&UtcTime { secs: 1060, nanos: 500 }), Ok(false)));
    assert!(matches!(token.is_expired_at(&UtcTime { secs: 1060, nanos: 501 }), Ok(true)));
    assert!(matches!(token.is_expired_at(&UtcTime { secs: 2000, nanos: 0 }), Ok(true)));
}

#[test]
fn token_lifetime_out_of_range_is_an_error() {
    let token = TokenInfo { request_time: UtcTime { secs: 0, nanos: 0 }, expires_in: Some(u64::MAX) };
    assert!(matches!(
        token.is_expired_at(&UtcTime { secs: 0, nanos: 0 }),
        Err(TokenError::ExpiryOutOfRange)
    ));
}
