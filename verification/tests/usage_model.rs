use std::collections::HashMap;

use usage_widget::browser::BrowserKind;
use usage_widget::config::Config;
use usage_widget::cookie_jar::CookieJar;
use usage_widget::popup::{focus_step, title_after_fetch};
use usage_widget::usage_state::{needs_account_name, SharedState, UsageModel};

#[derive(Clone, Debug, PartialEq)]
struct UsageBucket {
    utilization: Option<f64>,
    resets_at: Option<String>,
}

type UsageResponse = HashMap<String, UsageBucket>;

fn snapshot(utilization: f64) -> UsageResponse {
    let mut snapshot = HashMap::new();
    snapshot.insert(
        String::from("five_hour"),
        UsageBucket {
            utilization: Some(utilization),
            resets_at: Some(String::from("2026-04-17T10:00:00Z")),
        },
    );
    snapshot
}

#[test]
fn loads_cached_snapshot_from_config() {
    let mut snapshot = HashMap::new();
    snapshot.insert(
        String::from("five_hour"),
        UsageBucket {
            utilization: Some(42.0),
            resets_at: Some(String::from("2026-04-17T10:00:00Z")),
        },
    );

    let config = Config {
        last_usage_snapshot: Some(snapshot),
        last_usage_fetched_at: Some(1_713_312_000),
        ..Default::default()
    };

    let model = UsageModel::new(BrowserKind::Firefox, None, None, &config, None);

    assert!(matches!(model.cached_data, Some(Ok(_))));
    assert!(model.last_fetch.is_some());
}

#[test]
fn new_model_without_snapshot_has_nothing_and_default_interval() {
    let config: Config<UsageResponse> = Config::default();
    let model = UsageModel::new(BrowserKind::Chrome, None, None, &config, None);
    assert!(model.cached_data.is_none());
    assert!(model.last_fetch.is_none());
    assert_eq!(model.refresh_secs, 300);
}

#[test]
fn new_model_dates_snapshot_to_its_second() {
    let config = Config {
        last_usage_snapshot: Some(snapshot(17.0)),
        last_usage_fetched_at: Some(1234),
        refresh_secs: Some(600),
        ..Default::default()
    };
    let model = UsageModel::new(BrowserKind::Firefox, None, None, &config, None);
    assert_eq!(model.last_fetch, Some(1_234_000_000_000));
    assert_eq!(model.refresh_secs, 600);
    assert_eq!(model.cached_data, Some(Ok(snapshot(17.0))));
}

#[test]
fn success_is_taken_in_and_recorded() {
    let config: Config<UsageResponse> = Config::default();
    let mut model = UsageModel::new(BrowserKind::Firefox, None, None, &config, None);
    let mut shared = SharedState::new();
    assert!(model.start_fetch(&mut shared, 5));
    assert!(!model.start_fetch(&mut shared, 6));
    shared.finish_fetch(Ok(snapshot(50.0)), Some(String::from("Ada")), None);
    let out = model.poll_result(&mut shared, 1_700_000_000_500_000_000);
    assert!(out.received_first_success);
    assert_eq!(out.account_name, Some(String::from("Ada")));
    assert_eq!(model.cached_data, Some(Ok(snapshot(50.0))));
    assert_eq!(model.last_fetch, Some(1_700_000_000_500_000_000));
    let (saved, at) = out.snapshot_to_save.unwrap();
    assert_eq!(saved, snapshot(50.0));
    assert_eq!(at, Some(1_700_000_000));
    assert!(shared.data.is_none());
    assert!(!shared.fetching);

    let mut cfg: Config<UsageResponse> = Config::default();
    cfg.record_snapshot(saved, at);
    let again = UsageModel::new(BrowserKind::Firefox, None, None, &cfg, None);
    assert_eq!(again.cached_data, Some(Ok(snapshot(50.0))));
    assert_eq!(again.last_fetch, Some(1_700_000_000_000_000_000));
}

#[test]
fn error_never_replaces_success() {
    let config = Config {
        last_usage_snapshot: Some(snapshot(10.0)),
        ..Default::default()
    };
    let mut model = UsageModel::new(BrowserKind::Firefox, None, None, &config, None);
    let mut shared = SharedState::new();
    shared.finish_fetch(Err(String::from("offline")), None, None);
    let out = model.poll_result(&mut shared, 0);
    assert!(!out.received_first_success);
    assert!(out.snapshot_to_save.is_none());
    assert_eq!(model.cached_data, Some(Ok(snapshot(10.0))));
}

#[test]
fn error_is_shown_when_nothing_succeeded() {
    let config: Config<UsageResponse> = Config::default();
    let mut model = UsageModel::new(BrowserKind::Firefox, None, None, &config, None);
    let mut shared = SharedState::new();
    shared.finish_fetch(Err(String::from("offline")), None, None);
    model.poll_result(&mut shared, 0);
    assert_eq!(model.cached_data, Some(Err(String::from("offline"))));
}

#[test]
fn fresh_cookies_are_kept_and_recorded() {
    let config: Config<UsageResponse> = Config::default();
    let mut model = UsageModel::new(BrowserKind::Brave, None, None, &config, None);
    let mut shared = SharedState::new();
    let mut jar = CookieJar::new();
    jar.insert(String::from("sessionKey"), String::from("abc"));
    shared.finish_fetch(Ok(snapshot(1.0)), None, Some(jar));
    let out = model.poll_result(&mut shared, -5);
    let saved = out.cookies_to_save.unwrap();
    assert_eq!(saved.get("sessionKey"), Some(String::from("abc")));
    assert!(model.cached_cookies.unwrap().has_session());
    assert_eq!(out.snapshot_to_save.unwrap().1, None);
    let mut cfg: Config<UsageResponse> = Config::default();
    cfg.record_cookies(saved, BrowserKind::Brave);
    assert_eq!(cfg.cached_browser, Some(String::from("brave")));
}

#[test]
fn refresh_waits_for_interval_and_pauses_when_idle() {
    let config: Config<UsageResponse> = Config::default();
    let mut model = UsageModel::new(BrowserKind::Firefox, None, None, &config, None);
    assert!(model.should_refresh(None, 0));
    assert!(!model.should_refresh(Some(61), 0));
    assert!(model.should_refresh(Some(60), 0));
    let mut shared = SharedState::new();
    model.start_fetch(&mut shared, 1_000_000_000);
    assert!(!model.should_refresh(None, 1_000_000_000 + 299_999_999_999));
    assert!(model.should_refresh(None, 1_000_000_000 + 300_000_000_000));
    assert!(!model.should_refresh(None, 0));
    model.set_refresh_secs(60);
    assert!(model.should_refresh(None, 61_000_000_000));
}

#[test]
fn fetch_request_carries_model_settings() {
    let config: Config<UsageResponse> = Config::default();
    let mut jar = CookieJar::new();
    jar.insert(String::from("sessionKey"), String::from("k"));
    let model = UsageModel::new(
        BrowserKind::Edge,
        Some(String::from("/data")),
        Some(String::from("/oauth")),
        &config,
        Some(jar),
    );
    let req = model.fetch_request(true);
    assert_eq!(req.browser, BrowserKind::Edge);
    assert_eq!(req.data_dir, Some(String::from("/data")));
    assert_eq!(req.oauth_dir, Some(String::from("/oauth")));
    assert!(req.need_account_name);
    assert!(req.cached_cookies.unwrap().has_session());
}

#[test]
fn account_name_is_looked_up_only_for_the_default_title() {
    assert!(needs_account_name("Plan Usage", false));
    assert!(!needs_account_name("Plan Usage", true));
    assert!(!needs_account_name("Work", true));
    assert!(!needs_account_name("Jane", false));
}

#[test]
fn popup_closes_only_after_losing_focus() {
    let s = focus_step(false, false);
    assert!(!s.had_focus && !s.close);
    let s = focus_step(false, true);
    assert!(s.had_focus && !s.close);
    let s = focus_step(true, true);
    assert!(s.had_focus && !s.close);
    let s = focus_step(true, false);
    assert!(s.had_focus && s.close);
}

#[test]
fn account_name_replaces_default_title_only() {
    assert_eq!(title_after_fetch(String::from("Plan Usage"), false, Some(String::from("Ada"))), "Ada");
    assert_eq!(title_after_fetch(String::from("Work"), true, Some(String::from("Ada"))), "Work");
    assert_eq!(title_after_fetch(String::from("Plan Usage"), false, None), "Plan Usage");
}
