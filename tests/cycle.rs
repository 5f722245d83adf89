use destielbot_rs::cycle::{collect_stories, process_cycle};
use destielbot_rs::dedup::{filter_unseen, SeenSet};
use destielbot_rs::fanout::{FanOut, FETCH_LIMIT};
use destielbot_rs::news::{FetchError, FetchOutcome, NewsSource, NewsStory};
use destielbot_rs::postprocess::Postprocessor;
use destielbot_rs::scheduler::{Phase, Scheduler, DEFAULT_CYCLE_SECS};

fn story(key: &str) -> NewsStory {
    NewsStory {
        id: format!("id-{}", key),
        headline: format!("headline {}", key),
        story_url: key.to_string(),
    }
}

fn found(key: &str) -> FetchOutcome {
    Ok(Some(story(key)))
}

fn failed() -> FetchOutcome {
    Err(FetchError::Request { message: "network unreachable".to_string() })
}

fn source(url: &str) -> NewsSource {
    NewsSource::BBC { url: url.to_string() }
}

fn urls(stories: &[NewsStory]) -> Vec<String> {
    stories.iter().map(|s| s.story_url.clone()).collect()
}

#[test]
fn seen_set_accepts_a_key_once() {
    let mut seen = SeenSet::new();
    let key = "https://bbc.co.uk/news/a".to_string();
    assert!(!seen.contains(&key));
    assert!(seen.mark_or_skip(&key));
    assert!(seen.contains(&key));
    assert!(!seen.mark_or_skip(&key));
    assert!(!seen.mark_or_skip(&key));
    assert!(seen.mark_or_skip(&"https://bbc.co.uk/news/b".to_string()));
}

#[test]
fn duplicate_within_one_cycle_is_let_through_once() {
    let mut seen = SeenSet::new();
    let kept = filter_unseen(&mut seen, vec![story("u1"), story("u1"), story("u2")]);
    assert_eq!(urls(&kept), vec!["u1".to_string(), "u2".to_string()]);
    assert!(seen.contains(&"u1".to_string()));
    assert!(seen.contains(&"u2".to_string()));
}

#[test]
fn accepted_key_is_never_accepted_in_later_cycles() {
    let mut seen = SeenSet::new();
    let rules: Vec<Postprocessor> = Vec::new();
    let first = process_cycle(&mut seen, vec![found("u1")], &rules);
    assert_eq!(urls(&first), vec!["u1".to_string()]);
    for _ in 0..3 {
        let again = process_cycle(&mut seen, vec![found("u1"), found("u1")], &rules);
        assert!(again.is_empty());
    }
}

#[test]
fn failed_and_empty_fetches_contribute_nothing() {
    let stories = collect_stories(vec![failed(), Ok(None), found("u7"), failed()]);
    assert_eq!(urls(&stories), vec!["u7".to_string()]);
}

#[test]
fn same_keys_in_second_cycle_are_dropped() {
    let mut scheduler = Scheduler::new(vec![source("https://a"), source("https://b")], Vec::new(), DEFAULT_CYCLE_SECS)
        .ok()
        .unwrap();
    assert_eq!(scheduler.current_phase(), Phase::Idle);
    let fan = scheduler.begin_fetch();
    assert_eq!(scheduler.current_phase(), Phase::Fetching);
    assert!(!fan.is_done());
    let first = scheduler.finish_fetch(vec![found("u1"), found("u2")]);
    assert_eq!(scheduler.current_phase(), Phase::Publishing);
    assert_eq!(urls(&first), vec!["u1".to_string(), "u2".to_string()]);
    scheduler.finish_publish();
    assert_eq!(scheduler.current_phase(), Phase::Sleeping);

    let _fan = scheduler.begin_fetch();
    let second = scheduler.finish_fetch(vec![found("u2"), found("u1")]);
    assert!(second.is_empty());
}

#[test]
fn failed_source_does_not_hide_working_one() {
    let mut seen = SeenSet::new();
    let rules: Vec<Postprocessor> = Vec::new();
    let out = process_cycle(&mut seen, vec![failed(), found("u3")], &rules);
    assert_eq!(urls(&out), vec!["u3".to_string()]);
    assert_eq!(out[0].id, "id-u3");
    assert_eq!(out[0].headline, "headline u3");
}

#[test]
fn cycle_rewrites_headlines_of_new_stories() {
    let mut seen = SeenSet::new();
    let rules = vec![Postprocessor::new("headline".to_string(), "HEADLINE".to_string()).ok().unwrap()];
    let out = process_cycle(&mut seen, vec![found("u4")], &rules);
    assert_eq!(out.len(), 1);
    assert_eq!(out[0].headline, "HEADLINE u4");
    assert_eq!(out[0].id, "id-u4");
    assert_eq!(out[0].story_url, "u4");
}

#[test]
fn fan_out_keeps_within_limit_and_fetches_each_source_once() {
    let total: usize = 5;
    let mut fan = FanOut::new(total, FETCH_LIMIT);
    let mut started: Vec<usize> = Vec::new();
    let mut in_flight: Vec<usize> = Vec::new();
    let mut max_in_flight: usize = 0;
    while !fan.is_done() {
        while let Some(index) = fan.next_source() {
            started.push(index);
            in_flight.push(index);
            max_in_flight = max_in_flight.max(fan.in_flight_count());
        }
        assert_eq!(fan.in_flight_count(), in_flight.len());
        // the most recent fetch completes first
        let index = in_flight.pop().unwrap();
        let outcome = if index == 1 { failed() } else { found(&format!("s{}", index)) };
        fan.complete(outcome);
    }
    assert_eq!(max_in_flight, 2);
    assert_eq!(started, vec![0, 1, 2, 3, 4]);
    let outcomes = fan.into_outcomes();
    assert_eq!(outcomes.len(), total);
    let stories = collect_stories(outcomes);
    assert_eq!(stories.len(), 4);
}

#[test]
fn fan_out_over_no_sources_is_done_at_once() {
    let mut fan = FanOut::new(0, FETCH_LIMIT);
    assert!(fan.is_done());
    assert!(fan.next_source().is_none());
}

#[test]
fn scheduler_refuses_an_invalid_rule() {
    let rules = vec![
        ("ok".to_string(), "fine".to_string()),
        ("broken(".to_string(), "x".to_string()),
    ];
    match Scheduler::new(Vec::new(), rules, DEFAULT_CYCLE_SECS) {
        Ok(_) => panic!("an invalid pattern was accepted"),
        Err(e) => assert_eq!(e.pattern, "broken("),
    }
}

#[test]
fn scheduler_keeps_sources_and_interval() {
    let scheduler = Scheduler::new(vec![source("https://a")], Vec::new(), 45).ok().unwrap();
    assert_eq!(scheduler.interval_secs(), 45);
    match scheduler.source(0) {
        NewsSource::BBC { url } => assert_eq!(url, "https://a"),
    }
}
