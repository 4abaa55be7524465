use usage_widget::browser::{detection_order, BrowserKind};
use usage_widget::cli::CliOptions;
use usage_widget::cookie_jar::CookieJar;
use usage_widget::cookies::{CookieError, CookieStore};
use usage_widget::detect::{read_outcome, DetectAction, DetectEvent, DetectState, ReadOutcome};
use usage_widget::fetch::{FetchAction, FetchEvent, FetchState, JarChoice};
use usage_widget::platform::Platform;
use usage_widget::resolve::{finish_explicit_read, no_session_message, plan_browser, ResolvePlan};

fn session_jar() -> CookieJar {
    let mut j = CookieJar::new();
    j.insert(String::from("sessionKey"), String::from("s"));
    j
}

#[test]
fn detection_order_per_platform() {
    assert_eq!(
        detection_order(Platform::Linux),
        vec![BrowserKind::Firefox, BrowserKind::Chrome, BrowserKind::Brave, BrowserKind::Edge]
    );
    assert_eq!(detection_order(Platform::MacOs).last(), Some(&BrowserKind::Safari));
}

#[test]
fn linux_detection_finds_first_session() {
    let (mut s, a) = DetectState::start(Platform::Linux);
    assert_eq!(a, DetectAction::ReadCookies(BrowserKind::Firefox));
    let a = s.step(DetectEvent::CookiesRead(ReadOutcome::NoSession));
    assert_eq!(a, DetectAction::ReadCookies(BrowserKind::Chrome));
    let a = s.step(DetectEvent::CookiesRead(ReadOutcome::Failed));
    assert_eq!(a, DetectAction::ReadCookies(BrowserKind::Brave));
    let a = s.step(DetectEvent::CookiesRead(ReadOutcome::HasSession));
    assert_eq!(a, DetectAction::Finish(Some(BrowserKind::Brave)));
}

#[test]
fn linux_detection_without_session() {
    let (mut s, mut a) = DetectState::start(Platform::Linux);
    for _ in 0..4 {
        assert!(matches!(a, DetectAction::ReadCookies(_)));
        a = s.step(DetectEvent::CookiesRead(ReadOutcome::NoSession));
    }
    assert_eq!(a, DetectAction::Finish(None));
}

#[test]
fn macos_keychain_prompt_once_and_safari() {
    let (mut s, a) = DetectState::start(Platform::MacOs);
    assert_eq!(a, DetectAction::ReadCookies(BrowserKind::Firefox));
    assert_eq!(s.step(DetectEvent::CookiesRead(ReadOutcome::NoSession)), DetectAction::CheckKeychainPrompted);
    assert_eq!(
        s.step(DetectEvent::KeychainChecked { already_prompted: false }),
        DetectAction::PromptKeychain
    );
    assert_eq!(s.step(DetectEvent::KeychainAnswered { proceed: true }), DetectAction::RecordKeychainPrompt);
    assert_eq!(s.step(DetectEvent::KeychainRecorded), DetectAction::ReadCookies(BrowserKind::Chrome));
    assert_eq!(
        s.step(DetectEvent::CookiesRead(ReadOutcome::NoSession)),
        DetectAction::ReadCookies(BrowserKind::Brave)
    );
    assert_eq!(
        s.step(DetectEvent::CookiesRead(ReadOutcome::NoSession)),
        DetectAction::ReadCookies(BrowserKind::Edge)
    );
    assert_eq!(
        s.step(DetectEvent::CookiesRead(ReadOutcome::NoSession)),
        DetectAction::ReadCookies(BrowserKind::Safari)
    );
    assert_eq!(
        s.step(DetectEvent::CookiesRead(ReadOutcome::PermissionDenied)),
        DetectAction::PromptFullDiskAccess
    );
    assert_eq!(s.step(DetectEvent::FullDiskPromptShown), DetectAction::Finish(None));
}

#[test]
fn macos_keychain_cancel_ends_detection() {
    let (mut s, _) = DetectState::start(Platform::MacOs);
    s.step(DetectEvent::CookiesRead(ReadOutcome::NoSession));
    s.step(DetectEvent::KeychainChecked { already_prompted: false });
    assert_eq!(s.step(DetectEvent::KeychainAnswered { proceed: false }), DetectAction::Finish(None));
}

#[test]
fn windows_elevation_once() {
    let (mut s, _) = DetectState::start(Platform::Windows);
    assert_eq!(s.step(DetectEvent::CookiesRead(ReadOutcome::NoSession)), DetectAction::Elevate);
    assert_eq!(
        s.step(DetectEvent::ElevationAnswered { proceed: true }),
        DetectAction::ReadCookies(BrowserKind::Chrome)
    );
    assert_eq!(
        s.step(DetectEvent::CookiesRead(ReadOutcome::NoSession)),
        DetectAction::ReadCookies(BrowserKind::Brave)
    );
    let (mut s, _) = DetectState::start(Platform::Windows);
    s.step(DetectEvent::CookiesRead(ReadOutcome::NoSession));
    assert_eq!(s.step(DetectEvent::ElevationAnswered { proceed: false }), DetectAction::Finish(None));
}

#[test]
fn unexpected_event_ends_detection() {
    let (mut s, _) = DetectState::start(Platform::Linux);
    assert_eq!(s.step(DetectEvent::KeychainRecorded), DetectAction::Finish(None));
}

#[test]
fn read_outcomes() {
    assert_eq!(read_outcome(&Ok(session_jar())), ReadOutcome::HasSession);
    assert_eq!(read_outcome(&Ok(CookieJar::new())), ReadOutcome::NoSession);
    assert_eq!(read_outcome(&Err(CookieError::PermissionDenied)), ReadOutcome::PermissionDenied);
    assert_eq!(read_outcome(&Err(CookieError::NoCookieDb)), ReadOutcome::Failed);
}

#[test]
fn resolve_plans() {
    let mut opts = CliOptions::default();
    let none: Option<CookieJar> = None;
    let cached = Some(session_jar());
    let chrome = Some(String::from("chrome"));
    assert_eq!(plan_browser(Platform::Linux, &opts, &none, &None, false), ResolvePlan::DetectOrExit);
    assert_eq!(plan_browser(Platform::Linux, &opts, &none, &None, true), ResolvePlan::DetectOrFirefox);
    assert_eq!(
        plan_browser(Platform::Linux, &opts, &none, &chrome, true),
        ResolvePlan::Use(BrowserKind::Chrome)
    );
    assert_eq!(
        plan_browser(Platform::Linux, &opts, &cached, &chrome, false),
        ResolvePlan::Use(BrowserKind::Chrome)
    );
    assert_eq!(
        plan_browser(Platform::Linux, &opts, &cached, &Some(String::from("safari")), false),
        ResolvePlan::DetectOrExit
    );
    opts.browser = Some(BrowserKind::Edge);
    assert_eq!(
        plan_browser(Platform::Windows, &opts, &none, &None, false),
        ResolvePlan::ReadExplicit { browser: BrowserKind::Edge, elevate_first: true }
    );
    assert_eq!(
        plan_browser(Platform::Linux, &opts, &none, &None, false),
        ResolvePlan::ReadExplicit { browser: BrowserKind::Edge, elevate_first: false }
    );
    assert_eq!(plan_browser(Platform::Linux, &opts, &cached, &None, false), ResolvePlan::Use(BrowserKind::Edge));
    assert_eq!(no_session_message("example.org"), "No example.org session found in any supported browser.");
}

#[test]
fn explicit_read_outcomes() {
    let r = finish_explicit_read(BrowserKind::Firefox, "example.org", false, Ok(session_jar()), None).unwrap();
    assert!(r.unwrap().has_session());
    assert_eq!(
        finish_explicit_read(BrowserKind::Firefox, "example.org", false, Ok(CookieJar::new()), None).unwrap_err(),
        "No example.org session found in firefox."
    );
    assert_eq!(
        finish_explicit_read(BrowserKind::Chrome, "example.org", false, Err(CookieError::NoCookieDb), None).unwrap_err(),
        "Error reading chrome cookies: No cookie database found"
    );
    let kept = finish_explicit_read(BrowserKind::Chrome, "example.org", true, Err(CookieError::NoCookieDb), Some(session_jar()));
    assert!(kept.unwrap().unwrap().has_session());
    assert!(finish_explicit_read(BrowserKind::Chrome, "example.org", true, Ok(CookieJar::new()), None).unwrap().is_none());
}

#[test]
fn fetch_prefers_oauth() {
    let (mut s, a) = FetchState::<u32>::new(Platform::Linux, BrowserKind::Firefox, String::from("example.org"), None, true, None);
    assert!(matches!(a, FetchAction::ReadOAuthToken));
    let a = s.step(FetchEvent::TokenRead(Some(String::from("tok"))));
    assert!(matches!(a, FetchAction::FetchWithOAuth(ref t) if t == "tok"));
    match s.step(FetchEvent::OAuthFetched(Some((7, Some(String::from("a@b")))))) {
        FetchAction::Finish(Ok(7), Some(n), None) => assert_eq!(n, "a@b"),
        _ => panic!("unexpected action"),
    }
}

#[test]
fn fetch_falls_back_to_cached_then_browser() {
    let (mut s, _) = FetchState::<u32>::new(Platform::Linux, BrowserKind::Chrome, String::from("example.org"), None, false, Some(session_jar()));
    let a = s.step(FetchEvent::TokenRead(None));
    assert!(matches!(a, FetchAction::FetchWithCookies(JarChoice::Cached)));
    assert!(s.jar(JarChoice::Cached).has_session());
    let a = s.step(FetchEvent::CookieFetched(Err(String::from("401"))));
    assert!(matches!(a, FetchAction::ReadCookies(ref r) if r.store == CookieStore::Chromium(BrowserKind::Chrome) && r.domain == "example.org" && r.data_dir.is_none()));
    let a = s.step(FetchEvent::CookiesRead(Ok(session_jar())));
    assert!(matches!(a, FetchAction::FetchWithCookies(JarChoice::Fresh)));
    match s.step(FetchEvent::CookieFetched(Ok(3))) {
        FetchAction::Finish(Ok(3), None, Some(j)) => assert!(j.has_session()),
        _ => panic!("unexpected action"),
    }
}

#[test]
fn fetch_fresh_failure_does_not_cache_cookies() {
    let (mut s, _) = FetchState::<u32>::new(Platform::Linux, BrowserKind::Chrome, String::from("example.org"), None, true, None);
    assert!(matches!(s.step(FetchEvent::TokenRead(None)), FetchAction::ReadCookies(ref r) if r.store == CookieStore::Chromium(BrowserKind::Chrome)));
    s.step(FetchEvent::CookiesRead(Ok(session_jar())));
    assert!(matches!(
        s.step(FetchEvent::CookieFetched(Err(String::from("403")))),
        FetchAction::FetchAccountName(JarChoice::Fresh)
    ));
    match s.step(FetchEvent::NameFetched(Some(String::from("Ada")))) {
        FetchAction::Finish(Err(e), Some(n), None) => {
            assert_eq!(e, "403");
            assert_eq!(n, "Ada");
        }
        _ => panic!("unexpected action"),
    }
}

#[test]
fn fetch_unreadable_browser() {
    let (mut s, _) = FetchState::<u32>::new(Platform::Linux, BrowserKind::Firefox, String::from("example.org"), None, false, None);
    match s.step(FetchEvent::TokenRead(None)) {
        FetchAction::ReadCookies(r) if r.store == CookieStore::Firefox => {}
        _ => panic!("unexpected action"),
    }
    match s.step(FetchEvent::CookiesRead(Err(CookieError::NoBrowserDir))) {
        FetchAction::Finish(Err(e), None, None) => assert_eq!(e, "Could not read cookies from browser"),
        _ => panic!("unexpected action"),
    }
    let (mut s, _) = FetchState::<u32>::new(Platform::Windows, BrowserKind::Edge, String::from("example.org"), None, false, Some(session_jar()));
    s.step(FetchEvent::TokenRead(None));
    s.step(FetchEvent::CookieFetched(Err(String::from("expired"))));
    match s.step(FetchEvent::CookiesRead(Err(CookieError::NoCookieDb))) {
        FetchAction::ElevateWithMessage(m) => assert!(m.starts_with("Your session cookie has expired.")),
        _ => panic!("unexpected action"),
    }
    match s.step(FetchEvent::Elevated) {
        FetchAction::Finish(Err(e), None, None) => assert_eq!(e, "Could not read cookies from browser"),
        _ => panic!("unexpected action"),
    }
}

#[test]
fn fetch_without_name_skips_lookup() {
    let (mut s, _) = FetchState::<u32>::new(Platform::Linux, BrowserKind::Chrome, String::from("example.org"), None, false, Some(session_jar()));
    s.step(FetchEvent::TokenRead(None));
    match s.step(FetchEvent::CookieFetched(Ok(5))) {
        FetchAction::Finish(Ok(5), None, None) => {}
        _ => panic!("unexpected action"),
    }
    let (mut s, _) = FetchState::<u32>::new(Platform::Linux, BrowserKind::Chrome, String::from("example.org"), None, false, None);
    s.step(FetchEvent::TokenRead(Some(String::from("tok"))));
    match s.step(FetchEvent::OAuthFetched(Some((9, Some(String::from("a@b")))))) {
        FetchAction::Finish(Ok(9), None, None) => {}
        _ => panic!("unexpected action"),
    }
}

#[test]
fn fetch_reads_from_given_data_dir() {
    let (mut s, _) = FetchState::<u32>::new(
        Platform::Linux,
        BrowserKind::Brave,
        String::from("example.org"),
        Some(String::from("/profiles/b")),
        false,
        None,
    );
    match s.step(FetchEvent::TokenRead(None)) {
        FetchAction::ReadCookies(r) => {
            assert_eq!(r.store, CookieStore::Chromium(BrowserKind::Brave));
            assert_eq!(r.domain, "example.org");
            assert_eq!(r.data_dir, Some(String::from("/profiles/b")));
        }
        _ => panic!("unexpected action"),
    }
}
