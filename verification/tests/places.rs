use usage_widget::config::{config_path, config_root_dir, tray_socket_path, Config, EnvDirs};
use usage_widget::desktop::{desktop_entry_content, desktop_entry_needs_install, sqlite_readonly_uri, usage_text};
use usage_widget::display::{refresh_options, time_left, updated_ago, weekly_keys};
use usage_widget::idle::{system_idle_secs, IdleSample};
use usage_widget::paths::{
    brave_default_dirs, candidate_dirs, chrome_default_dirs, desktop_file_path, edge_default_dirs,
    firefox_default_dir, firefox_default_dirs, icon_install_path, xdg_data_dir,
};
use usage_widget::platform::{join_path, Platform};

fn env(home: Option<&str>) -> EnvDirs {
    EnvDirs {
        home: home.map(String::from),
        xdg_config_home: None,
        xdg_data_home: None,
        app_data: None,
        local_app_data: None,
    }
}

#[test]
fn firefox_linux_default_dirs_include_snap_location() {
    let home = "/home/ada";
    let e = env(Some(home));
    let expected = join_path(Platform::Linux, home, "snap/firefox/common/.mozilla/firefox");
    let discovered = candidate_dirs(Platform::Linux, &e);
    assert!(discovered.iter().any(|path| path == &expected));
    let found = firefox_default_dirs(&e, &vec![expected.clone()]);
    assert_eq!(found, vec![expected]);
}

#[test]
fn path_joining() {
    assert_eq!(join_path(Platform::Linux, "/home/a", "x/y"), "/home/a/x/y");
    assert_eq!(join_path(Platform::Linux, "/home/a/", "x"), "/home/a/x");
    assert_eq!(join_path(Platform::Linux, "", "x"), "x");
    assert_eq!(join_path(Platform::Windows, "C:\\Users\\a", "Google"), "C:\\Users\\a\\Google");
    for (base, rel) in [("/home/a", "x/y"), ("/home/a/", "x"), ("", "x"), ("/", "b")] {
        let std_join = std::path::Path::new(base).join(rel);
        assert_eq!(join_path(Platform::Linux, base, rel), std_join.to_str().unwrap());
    }
}

#[test]
fn browser_dirs_keep_existing_in_order() {
    let e = env(Some("/h"));
    let existing = vec![
        String::from("/h/.var/app/org.mozilla.firefox/.mozilla/firefox"),
        String::from("/h/.mozilla/firefox"),
        String::from("/h/.config/chromium"),
        String::from("/h/.config/microsoft-edge"),
    ];
    assert_eq!(
        firefox_default_dirs(&e, &existing),
        vec![
            String::from("/h/.mozilla/firefox"),
            String::from("/h/.var/app/org.mozilla.firefox/.mozilla/firefox")
        ]
    );
    assert_eq!(firefox_default_dir(Platform::Linux, &e, &existing), Some(String::from("/h/.mozilla/firefox")));
    assert_eq!(chrome_default_dirs(Platform::Linux, &e, &existing), vec![String::from("/h/.config/chromium")]);
    assert!(brave_default_dirs(Platform::Linux, &e, &existing).is_empty());
    assert_eq!(edge_default_dirs(Platform::Linux, &e, &existing), vec![String::from("/h/.config/microsoft-edge")]);
    assert!(firefox_default_dirs(&env(None), &existing).is_empty());
    assert_eq!(candidate_dirs(Platform::Linux, &e).len(), 12);
}

#[test]
fn other_platform_dirs() {
    let mac = env(Some("/Users/a"));
    let chrome_mac = String::from("/Users/a/Library/Application Support/Google/Chrome");
    assert_eq!(chrome_default_dirs(Platform::MacOs, &mac, &vec![chrome_mac.clone()]), vec![chrome_mac]);
    assert!(chrome_default_dirs(Platform::MacOs, &mac, &vec![]).is_empty());
    assert_eq!(
        firefox_default_dir(Platform::MacOs, &mac, &vec![]),
        Some(String::from("/Users/a/Library/Application Support/Firefox/Profiles"))
    );
    let mut win = env(None);
    win.local_app_data = Some(String::from("C:\\L"));
    win.app_data = Some(String::from("C:\\R"));
    let edge = String::from("C:\\L\\Microsoft\\Edge\\User Data");
    assert_eq!(edge_default_dirs(Platform::Windows, &win, &vec![edge.clone()]), vec![edge]);
    assert_eq!(
        firefox_default_dir(Platform::Windows, &win, &vec![]),
        Some(String::from("C:\\R\\Mozilla/Firefox/Profiles"))
    );
    assert_eq!(candidate_dirs(Platform::Windows, &win).len(), 3);
    assert_eq!(firefox_default_dir(Platform::Other, &win, &vec![]), None);
}

#[test]
fn config_locations() {
    let mut e = env(Some("/home/a"));
    assert_eq!(
        config_path(Platform::Linux, &e),
        Some(String::from("/home/a/.config/SmartAppsCo/plan-usage-widget/config.json"))
    );
    e.xdg_config_home = Some(String::from("/cfg"));
    assert_eq!(
        tray_socket_path(Platform::Linux, &e),
        Some(String::from("/cfg/SmartAppsCo/plan-usage-widget/tray.sock"))
    );
    assert_eq!(
        config_root_dir(Platform::MacOs, &e),
        Some(String::from("/home/a/Library/Application Support/SmartAppsCo/plan-usage-widget"))
    );
    assert_eq!(config_root_dir(Platform::Windows, &e), None);
    assert_eq!(config_root_dir(Platform::Other, &e), None);
}

#[test]
fn desktop_entry() {
    let e = env(None);
    assert_eq!(xdg_data_dir(&e), "/tmp/.local/share");
    assert_eq!(desktop_file_path(&env(Some("/h"))), "/h/.local/share/applications/plan-usage.desktop");
    assert_eq!(
        icon_install_path(&env(Some("/h"))),
        "/h/.local/share/icons/hicolor/256x256/apps/plan-usage.png"
    );
    let content = desktop_entry_content("/usr/bin/x");
    assert!(content.starts_with("[Desktop Entry]\n"));
    assert!(content.contains("\nExec=/usr/bin/x\n"));
    assert!(!desktop_entry_needs_install(true, true, Some(&content), "/usr/bin/x"));
    assert!(desktop_entry_needs_install(true, true, Some(&content), "/opt/y"));
    assert!(desktop_entry_needs_install(false, true, Some(&content), "/usr/bin/x"));
    assert!(desktop_entry_needs_install(true, true, None, "/usr/bin/x"));
    assert!(usage_text().starts_with("Usage: plan-usage [OPTIONS]\n"));
}

#[test]
fn sqlite_uri_escapes() {
    assert_eq!(sqlite_readonly_uri("/a b/c%d?e#f"), "file:/a%20b/c%25d%3Fe%23f?immutable=1");
    assert_eq!(sqlite_readonly_uri("/plain"), "file:/plain?immutable=1");
}

#[test]
fn updated_texts() {
    let s = 1_000_000_000i128;
    assert_eq!(updated_ago(10 * s, 5 * s), "Last updated: just now");
    assert_eq!(updated_ago(0, 59 * s + s - 1), "Last updated: just now");
    assert_eq!(updated_ago(0, 60 * s), "Last updated: 1 minute ago");
    assert_eq!(updated_ago(0, 150 * s), "Last updated: 2 minutes ago");
    assert_eq!(updated_ago(0, 3600 * s), "Last updated: 1 hour ago");
    assert_eq!(updated_ago(0, 7300 * s), "Last updated: 2 hours ago");
}

#[test]
fn reset_texts() {
    let s = 1_000_000_000i128;
    let base = 1_776_420_000i128; // 2026-04-17T10:00:00Z
    assert_eq!(time_left(None, 0), "");
    assert_eq!(time_left(Some("not a date"), 0), "");
    assert_eq!(time_left(Some("2026-04-17T10:00:00Z"), base * s), "Resetting...");
    assert_eq!(time_left(Some("2026-04-17T10:00:00Z"), (base - 90) * s), "Resets in 1 min");
    assert_eq!(time_left(Some("2026-04-17T10:00:00Z"), (base - 3 * 3600 - 5 * 60) * s), "Resets in 3 hr 5 min");
    assert_eq!(time_left(Some("2026-04-17T12:00:00+02:00"), (base - 50 * 3600) * s), "Resets in 2d 2h");
}

#[test]
fn idle_readings() {
    assert_eq!(system_idle_secs(IdleSample::X11 { ms_since_user_input: 61_999 }), Some(61));
    assert_eq!(system_idle_secs(IdleSample::TickCounts { now: 5_000, last_input: 1_000 }), Some(4));
    assert_eq!(
        system_idle_secs(IdleSample::TickCounts { now: 1_000, last_input: u32::MAX - 999 }),
        Some(2)
    );
    assert_eq!(system_idle_secs(IdleSample::Seconds(7)), Some(7));
    assert_eq!(system_idle_secs(IdleSample::Unavailable), None);
}

#[test]
fn settings_records() {
    let mut c: Config<u8> = Config::default();
    c.record_refresh_secs(900);
    assert_eq!(c.refresh_secs, Some(900));
    c.record_prompted_exe(Some(String::from("/bin/x")));
    assert_eq!(c.chromium_prompted_exe, Some(String::from("/bin/x")));
    c.record_snapshot(3, Some(12));
    assert_eq!(c.last_usage_snapshot, Some(3));
    assert_eq!(c.last_usage_fetched_at, Some(12));
    assert_eq!(refresh_options()[2], (300, "5 min"));
    assert_eq!(weekly_keys()[0], ("seven_day", "All models"));
}
