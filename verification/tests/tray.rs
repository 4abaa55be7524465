use usage_widget::browser::BrowserKind;
use usage_widget::cli::{parse_args, CliOptions};
use usage_widget::platform::Platform;
use usage_widget::tray::{
    parse_socket_command, popup_command_args, popup_origin, toggle_message, SocketCommand, TrayOptions,
};

#[test]
fn popup_origin_clamps_and_flips() {
    assert_eq!(popup_origin(1000, 10), (826, 22));
    assert_eq!(popup_origin(1000, 800), (826, 514));
    assert_eq!(popup_origin(50, 274), (0, 0));
    assert_eq!(popup_origin(10, -50), (0, 0));
}

#[test]
fn popup_args_round_trip() {
    let mut opts = CliOptions::default();
    opts.browser = Some(BrowserKind::Chrome);
    opts.data_dir = Some(String::from("/data dir"));
    opts.title = String::from("Work");
    opts.title_explicit = true;
    let tray = TrayOptions::from_cli(&opts);
    let args = popup_command_args(&tray, Some((1000, 10)));
    assert_eq!(
        args,
        vec![
            "--popup", "--browser", "chrome", "--data-dir", "/data dir", "--title", "Work", "--popup-x", "826",
            "--popup-y", "22"
        ]
    );
    let back = parse_args(Platform::Linux, &args).unwrap();
    assert!(back.popup);
    assert_eq!(back.browser, Some(BrowserKind::Chrome));
    assert_eq!(back.data_dir, Some(String::from("/data dir")));
    assert_eq!(back.title, "Work");
    assert_eq!(back.popup_x, Some(826));
    assert_eq!(back.popup_y, Some(22));
}

#[test]
fn implicit_title_is_not_passed_on() {
    let tray = TrayOptions::from_cli(&CliOptions::default());
    assert!(tray.title.is_none());
    assert_eq!(popup_command_args(&tray, None), vec![String::from("--popup")]);
}

#[test]
fn socket_commands() {
    assert_eq!(parse_socket_command(toggle_message()), SocketCommand::Toggle);
    assert_eq!(parse_socket_command("  quit \r\n"), SocketCommand::Quit);
    assert_eq!(parse_socket_command("\u{a0}toggle\u{3000}"), SocketCommand::Toggle);
    assert_eq!(parse_socket_command("toggle now"), SocketCommand::Unknown);
    assert_eq!(parse_socket_command(""), SocketCommand::Unknown);
}
