use luwidget::notification::NotificationManager;

#[test]
fn show_command_matches_fixed_window_shape() {
    let mgr = NotificationManager::new();
    let cmd = mgr.begin_show(&"Hello".to_string());
    assert_eq!(cmd.label, "notification");
    assert_eq!(cmd.url, "notification.html");
    assert_eq!(cmd.title, "Notification");
    assert_eq!(cmd.width, 600);
    assert_eq!(cmd.height, 200);
    assert!(!cmd.decorations);
    assert!(cmd.transparent);
    assert!(cmd.always_on_top);
    assert!(!cmd.resizable);
    assert!(cmd.skip_taskbar);
    assert!(cmd.centered);
    // No window is open yet, so nothing is to be closed first.
    assert!(!cmd.close_existing);
}

#[test]
fn payload_is_json_encoded_and_decodes_back() {
    let mgr = NotificationManager::new();
    let cmd = mgr.begin_show(&"Hello".to_string());
    // The payload is the JSON text of the message, not the raw message.
    assert_eq!(cmd.payload_json, "\"Hello\"");
    let decoded: String = serde_json::from_str(&cmd.payload_json).expect("valid JSON");
    assert_eq!(decoded, "Hello");
}

#[test]
fn payload_escapes_are_real_json() {
    let mgr = NotificationManager::new();
    let message = "line\nbreak \"quoted\"".to_string();
    let cmd = mgr.begin_show(&message);
    let decoded: String = serde_json::from_str(&cmd.payload_json).expect("valid JSON");
    assert_eq!(decoded, message);
}

#[test]
fn newest_notification_wins() {
    let mut mgr = NotificationManager::new();
    assert_eq!(mgr.begin_show(&"first".to_string()).close_existing, false);
    assert_eq!(mgr.finish_show("first".to_string(), Ok(())), Ok(()));
    assert!(mgr.is_open());
    assert_eq!(mgr.open_message(), Some(&"first".to_string()));
    // A second show while one is open closes the old window first and
    // leaves exactly one window, carrying the newest message.
    let cmd = mgr.begin_show(&"second".to_string());
    assert!(cmd.close_existing);
    assert_eq!(mgr.finish_show("second".to_string(), Ok(())), Ok(()));
    assert!(mgr.is_open());
    assert_eq!(mgr.open_message(), Some(&"second".to_string()));
}

#[test]
fn failed_show_leaves_no_window() {
    let mut mgr = NotificationManager::new();
    assert_eq!(mgr.finish_show("first".to_string(), Ok(())), Ok(()));
    let err = Err("window construction failed".to_string());
    assert_eq!(
        mgr.finish_show("second".to_string(), err.clone()),
        err
    );
    assert!(!mgr.is_open());
    assert_eq!(mgr.open_message(), None);
}

#[test]
fn close_is_idempotent() {
    let mut mgr = NotificationManager::new();
    // Closing with no window open is a no-op and does not fail.
    assert!(!mgr.close_notification());
    assert!(!mgr.is_open());
    // After a show, the first close tells the platform to act ...
    assert_eq!(mgr.finish_show("Hello".to_string(), Ok(())), Ok(()));
    assert!(mgr.close_notification());
    assert!(!mgr.is_open());
    // ... and a second close is again a no-op.
    assert!(!mgr.close_notification());
    assert!(!mgr.is_open());
}
