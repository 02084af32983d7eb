use win_task_dialog::constants::S_OK;
use win_task_dialog::handle_notification;
use win_task_dialog::run_notifications;
use win_task_dialog::TaskDialogConfig;
use win_task_dialog::TaskDialogNotification;

fn units_of(s: &str) -> Vec<u16> {
    s.encode_utf16().collect()
}

#[test]
fn created_captures_handle() {
    let mut c = TaskDialogConfig::default();
    let o = handle_notification(&mut c, 4242, &TaskDialogNotification::Created);
    assert_eq!(c.dialog_hwnd, 4242);
    assert!(!c.is_destroyed);
    assert!(o.hyperlink.is_none());
    assert!(!o.invoke_raw);
    assert_eq!(o.code, S_OK);
}

#[test]
fn destroyed_sets_flag_once_and_for_all() {
    let mut c = TaskDialogConfig::default();
    handle_notification(&mut c, 9, &TaskDialogNotification::Created);
    assert!(!c.is_destroyed);
    handle_notification(&mut c, 9, &TaskDialogNotification::Destroyed);
    assert!(c.is_destroyed);
    // Later notifications never reset the flag.
    handle_notification(&mut c, 9, &TaskDialogNotification::Navigated);
    assert!(c.is_destroyed);
    handle_notification(&mut c, 9, &TaskDialogNotification::ButtonClicked { button_id: 2 });
    assert!(c.is_destroyed);
    handle_notification(&mut c, 9, &TaskDialogNotification::Destroyed);
    assert!(c.is_destroyed);
    handle_notification(&mut c, 10, &TaskDialogNotification::Created);
    assert!(c.is_destroyed);
    assert_eq!(c.dialog_hwnd, 10);
}

#[test]
fn hyperlink_dispatches_exact_link_text() {
    let mut c = TaskDialogConfig::default();
    c.hyperlink_callback = true;
    handle_notification(&mut c, 5, &TaskDialogNotification::Created);
    let o = handle_notification(
        &mut c,
        5,
        &TaskDialogNotification::HyperlinkClicked { link: units_of("http://example.com") },
    );
    assert_eq!(o.hyperlink.as_deref(), Some("http://example.com"));
    // The dispatch leaves the runtime state untouched.
    assert_eq!(c.dialog_hwnd, 5);
    assert!(!c.is_destroyed);
}

#[test]
fn hyperlink_without_callback_dispatches_nothing() {
    let mut c = TaskDialogConfig::default();
    let o = handle_notification(
        &mut c,
        5,
        &TaskDialogNotification::HyperlinkClicked { link: units_of("http://example.com") },
    );
    assert!(o.hyperlink.is_none());
}

#[test]
fn hyperlink_with_mixed_script_text() {
    let mut c = TaskDialogConfig::default();
    c.hyperlink_callback = true;
    let o = handle_notification(
        &mut c,
        5,
        &TaskDialogNotification::HyperlinkClicked { link: units_of("ссылка 链接 🦀") },
    );
    assert_eq!(o.hyperlink.as_deref(), Some("ссылка 链接 🦀"));
}

#[test]
fn hyperlink_with_malformed_payload_dispatches_nothing() {
    let mut c = TaskDialogConfig::default();
    c.hyperlink_callback = true;
    // A lone high surrogate is not well-formed wide text.
    let o = handle_notification(
        &mut c,
        5,
        &TaskDialogNotification::HyperlinkClicked { link: vec![0xD800] },
    );
    assert!(o.hyperlink.is_none());
}

#[test]
fn raw_callback_requested_exactly_when_installed() {
    let mut c = TaskDialogConfig::default();
    let o = handle_notification(&mut c, 1, &TaskDialogNotification::Created);
    assert!(!o.invoke_raw);
    c.callback = true;
    let o = handle_notification(&mut c, 1, &TaskDialogNotification::Navigated);
    assert!(o.invoke_raw);
    assert_eq!(o.code, S_OK);
    let o = handle_notification(
        &mut c,
        1,
        &TaskDialogNotification::Other { kind: 4, w_param: 0, l_param: 0 },
    );
    assert!(o.invoke_raw);
}

#[test]
fn replayed_stream_collects_links_and_ends_destroyed() {
    let mut c = TaskDialogConfig::default();
    c.hyperlink_callback = true;
    let events = vec![
        (70usize, TaskDialogNotification::Created),
        (70, TaskDialogNotification::HyperlinkClicked { link: units_of("http://example.com") }),
        (70, TaskDialogNotification::ButtonClicked { button_id: 1 }),
        (70, TaskDialogNotification::HyperlinkClicked { link: units_of("第二") }),
        (70, TaskDialogNotification::Destroyed),
        (70, TaskDialogNotification::Navigated),
    ];
    let links = run_notifications(&mut c, &events);
    assert_eq!(links, vec!["http://example.com".to_string(), "第二".to_string()]);
    assert_eq!(c.dialog_hwnd, 70);
    assert!(c.is_destroyed);
}

#[test]
fn replayed_stream_without_callback_collects_nothing() {
    let mut c = TaskDialogConfig::default();
    let events = vec![
        (70usize, TaskDialogNotification::Created),
        (70, TaskDialogNotification::HyperlinkClicked { link: units_of("http://example.com") }),
    ];
    let links = run_notifications(&mut c, &events);
    assert!(links.is_empty());
    assert_eq!(c.dialog_hwnd, 70);
}

#[test]
fn other_notifications_leave_state_alone() {
    let mut c = TaskDialogConfig::default();
    handle_notification(&mut c, 3, &TaskDialogNotification::Created);
    c.content = "body".to_string();
    handle_notification(
        &mut c,
        3,
        &TaskDialogNotification::Other { kind: 4, w_param: 7, l_param: -7 },
    );
    handle_notification(&mut c, 3, &TaskDialogNotification::ButtonClicked { button_id: 8 });
    assert_eq!(c.dialog_hwnd, 3);
    assert!(!c.is_destroyed);
    assert_eq!(c.content, "body");
}
