use win_task_dialog::constants::TDCBF_CANCEL_BUTTON;
use win_task_dialog::constants::TDCBF_CLOSE_BUTTON;
use win_task_dialog::constants::TDCBF_OK_BUTTON;
use win_task_dialog::decode_dialog_outcome;
use win_task_dialog::execute_task_dialog;
use win_task_dialog::handle_notification;
use win_task_dialog::show_msg_dialog;
use win_task_dialog::show_task_dialog;
use win_task_dialog::DialogMessage;
use win_task_dialog::EngineAction;
use win_task_dialog::ExecuteOption;
use win_task_dialog::TaskDialogButton;
use win_task_dialog::TaskDialogConfig;
use win_task_dialog::TaskDialogNotification;

fn wide_z_of(s: &str) -> Vec<u16> {
    let mut units: Vec<u16> = s.encode_utf16().collect();
    units.push(0);
    units
}

/// A chosen button is reported through the decoded host outcome: button 11
/// clicked and confirmed yields (11, 0, unchecked).
#[test]
fn button_choice_reported_in_result() {
    let mut conf = TaskDialogConfig::default();
    conf.buttons = vec![
        TaskDialogButton { id: 10, text: "One".to_string() },
        TaskDialogButton { id: 11, text: "Two".to_string() },
    ];
    conf.default_button = 11;
    conf.common_buttons = TDCBF_OK_BUTTON | TDCBF_CANCEL_BUTTON;

    // The engine prepares exactly one first-display action.
    let action = execute_task_dialog(&mut conf, ExecuteOption::TaskDialogIndirect).unwrap();
    let request = match action {
        EngineAction::ShowDialog { request } => request,
        EngineAction::SendMessage { .. } => panic!("first display must show, not send"),
    };
    assert_eq!(request.default_button, 11);
    assert_eq!(request.buttons.len(), 2);

    // The host runs its loop: created, button 11 clicked, destroyed.
    handle_notification(&mut conf, 808, &TaskDialogNotification::Created);
    handle_notification(&mut conf, 808, &TaskDialogNotification::ButtonClicked { button_id: 11 });
    handle_notification(&mut conf, 808, &TaskDialogNotification::Destroyed);
    assert!(conf.is_destroyed);

    // The host returns (ok, 11, 0, unchecked); the caller sees exactly that.
    let result = decode_dialog_outcome(0, 11, 0, false).unwrap();
    assert_eq!(result.button_id, 11);
    assert_eq!(result.radio_button_id, 0);
    assert!(!result.checked);
}

/// A raw callback reacting to a button click rewrites the configuration and
/// navigates: exactly one navigation message to the existing handle goes
/// out, and no second "show dialog" action is ever produced.
#[test]
fn page_navigation_from_raw_callback() {
    let mut conf = TaskDialogConfig::default();
    conf.window_title = "Page Navigation".to_string();
    conf.main_instruction = "Page #1".to_string();
    conf.callback = true;
    conf.common_buttons = TDCBF_CLOSE_BUTTON;
    conf.buttons = vec![TaskDialogButton { id: 1776, text: "Go".to_string() }];

    let mut show_calls = 0usize;
    let mut sends = Vec::new();

    let action = execute_task_dialog(&mut conf, ExecuteOption::TaskDialogIndirect).unwrap();
    match action {
        EngineAction::ShowDialog { .. } => show_calls += 1,
        EngineAction::SendMessage { send } => sends.push(send),
    }
    assert_eq!(show_calls, 1);

    handle_notification(&mut conf, 414, &TaskDialogNotification::Created);
    let outcome = handle_notification(
        &mut conf,
        414,
        &TaskDialogNotification::ButtonClicked { button_id: 1776 },
    );
    // The built-in stage asks for the raw callback; this is its body.
    assert!(outcome.invoke_raw);
    conf.window_title = "Page #1".to_string();
    conf.main_instruction = "Page #1".to_string();
    conf.buttons = vec![TaskDialogButton { id: 1777, text: "Continue".to_string() }];
    if let Some(action) = execute_task_dialog(&mut conf, ExecuteOption::TaskDialogNavigate) {
        match action {
            EngineAction::ShowDialog { .. } => show_calls += 1,
            EngineAction::SendMessage { send } => sends.push(send),
        }
    }

    // Exactly one navigation send, against the existing handle.
    assert_eq!(show_calls, 1);
    assert_eq!(sends.len(), 1);
    assert_eq!(sends[0].hwnd, 414);
    match &sends[0].message {
        DialogMessage::NavigatePage { request } => {
            assert_eq!(request.window_title, wide_z_of("Page #1"));
            assert_eq!(request.buttons.len(), 1);
            assert_eq!(request.buttons[0].id, 1777);
            assert_eq!(request.buttons[0].text, wide_z_of("Continue"));
        }
        _ => panic!("expected a navigation message"),
    }
}

/// A navigation attempted before the dialog exists stays a silent no-op.
#[test]
fn navigation_without_dialog_is_refused() {
    let mut conf = TaskDialogConfig::default();
    assert!(execute_task_dialog(&mut conf, ExecuteOption::TaskDialogNavigate).is_none());
}

/// The hyperlink callback receives exactly the activated link's text, and
/// the runtime state stays as it was.
#[test]
fn hyperlink_activation_invokes_callback_with_text() {
    let mut conf = TaskDialogConfig::default();
    conf.hyperlink_callback = true;
    handle_notification(&mut conf, 99, &TaskDialogNotification::Created);

    let mut seen: Vec<String> = Vec::new();
    let link: Vec<u16> = "http://example.com".encode_utf16().collect();
    let outcome = handle_notification(
        &mut conf,
        99,
        &TaskDialogNotification::HyperlinkClicked { link },
    );
    // The driver hands the decoded text to the installed callback.
    if let Some(text) = outcome.hyperlink {
        seen.push(text);
    }
    assert_eq!(seen, vec!["http://example.com".to_string()]);
    assert_eq!(conf.dialog_hwnd, 99);
    assert!(!conf.is_destroyed);
}

/// Host failure: a nonzero status surfaces as the one error with that code.
#[test]
fn nonzero_status_becomes_error() {
    let err = decode_dialog_outcome(-2147023673, 0, 0, false).unwrap_err();
    assert_eq!(err.code, -2147023673);
    let ok = decode_dialog_outcome(0, 2, 0, true).unwrap();
    assert_eq!(ok.button_id, 2);
    assert!(ok.checked);
}

/// Without a native host, the portable entry points answer with the default
/// result and report no failure.
#[test]
fn portable_entry_points_are_noops() {
    let mut conf = TaskDialogConfig::default();
    let result = show_task_dialog(&mut conf).unwrap();
    assert_eq!(result.button_id, 0);
    assert_eq!(result.radio_button_id, 0);
    assert!(!result.checked);
    assert!(show_msg_dialog("Title", "Hi", "Info", 0).is_none());
}
