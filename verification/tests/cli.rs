use usage_widget::browser::{parse_browser, BrowserKind};
use usage_widget::cli::{parse_args, parse_i32_arg, CliOptions};
use usage_widget::platform::Platform;

fn args(list: &[&str]) -> Vec<String> {
    list.iter().map(|s| s.to_string()).collect()
}

#[test]
fn parses_popup_args() {
    let args = vec![
        String::from("--popup"),
        String::from("--popup-x"),
        String::from("120"),
        String::from("--popup-y"),
        String::from("80"),
        String::from("--browser"),
        String::from("firefox"),
    ];

    let options = parse_args(Platform::Linux, &args).unwrap();

    assert!(options.popup);
    assert_eq!(options.popup_x, Some(120));
    assert_eq!(options.popup_y, Some(80));
    assert_eq!(options.browser, Some(BrowserKind::Firefox));
}

#[test]
fn rejects_popup_position_without_popup_mode() {
    let args = vec![String::from("--popup-x"), String::from("120")];

    let err = parse_args(Platform::Linux, &args).unwrap_err();

    assert!(err.contains("--popup-x/--popup-y require --popup"));
}

#[test]
fn defaults_when_no_arguments() {
    let options = parse_args(Platform::Linux, &[]).unwrap();
    assert_eq!(options, CliOptions::default());
    assert_eq!(options.title, "Plan Usage");
    assert!(!options.title_explicit);
}

#[test]
fn data_dir_requires_browser() {
    let err = parse_args(Platform::Linux, &args(&["--data-dir", "/x"])).unwrap_err();
    assert_eq!(err, "Error: --data-dir requires --browser");
    let ok = parse_args(Platform::Linux, &args(&["--data-dir", "/x", "--browser", "chrome"])).unwrap();
    assert_eq!(ok.data_dir, Some(String::from("/x")));
    assert_eq!(ok.browser, Some(BrowserKind::Chrome));
}

#[test]
fn missing_value_and_unknown_argument() {
    assert_eq!(
        parse_args(Platform::Linux, &args(&["--title"])).unwrap_err(),
        "Error: --title requires a value"
    );
    assert_eq!(
        parse_args(Platform::Linux, &args(&["--bogus"])).unwrap_err(),
        "Error: unknown argument '--bogus'"
    );
    assert_eq!(
        parse_args(Platform::Linux, &args(&["--popup", "--popup-x", "12a"])).unwrap_err(),
        "Error: --popup-x requires an integer value"
    );
}

#[test]
fn help_stops_parsing() {
    let options = parse_args(Platform::Linux, &args(&["--popup", "-h", "--bogus"])).unwrap();
    assert!(options.help);
    assert!(options.popup);
}

#[test]
fn title_and_dirs_are_taken_verbatim() {
    let options = parse_args(
        Platform::Linux,
        &args(&["--title", "--help", "--oauth-dir", "~/.c", "--uninstall"]),
    )
    .unwrap();
    assert_eq!(options.title, "--help");
    assert!(options.title_explicit);
    assert_eq!(options.oauth_dir, Some(String::from("~/.c")));
    assert!(options.uninstall);
    assert!(!options.help);
}

#[test]
fn safari_only_on_macos() {
    assert_eq!(parse_browser(Platform::MacOs, "safari"), Ok(BrowserKind::Safari));
    assert_eq!(
        parse_browser(Platform::Linux, "safari"),
        Err(String::from("Error: unknown browser 'safari'"))
    );
    assert_eq!(parse_browser(Platform::Windows, "edge"), Ok(BrowserKind::Edge));
}

#[test]
fn integer_values_follow_i32_parsing() {
    assert_eq!(parse_i32_arg("--popup-x", "-2147483648"), Ok(i32::MIN));
    assert_eq!(parse_i32_arg("--popup-x", "+2147483647"), Ok(i32::MAX));
    assert_eq!(parse_i32_arg("--popup-x", "0007"), Ok(7));
    assert!(parse_i32_arg("--popup-x", "2147483648").is_err());
    assert!(parse_i32_arg("--popup-x", "-").is_err());
    assert!(parse_i32_arg("--popup-x", "").is_err());
    assert!(parse_i32_arg("--popup-x", " 1").is_err());
    for s in ["-2147483648", "+2147483647", "0007", "2147483648", "-", "", " 1", "99999999999999999999"] {
        assert_eq!(parse_i32_arg("--f", s).ok(), s.parse::<i32>().ok());
    }
}
