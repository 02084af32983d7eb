//! The execution engine: the two host operations share one entry point.
//! A first display marshals the whole configuration into a fresh request
//! for the host's blocking "show dialog" primitive; an in-place navigation
//! marshals a new page and addresses it to the handle of the dialog that is
//! already running. The engine computes the exact host action; performing
//! it — and pumping the dialog's loop — belongs to the host, so a driver
//! feeds what the host returns back through `decode_dialog_outcome`.

use vstd::prelude::*;

use crate::config::TaskDialogConfig;
use crate::config::live_update_ready;
use crate::constants::TDCBF_OK_BUTTON;
use crate::live::DialogMessage;
use crate::live::OutboundSend;
use crate::marshal::NativeRequest;
use crate::marshal::marshal;
use crate::marshal::marshal_view;

verus! {

/// Which of the two host operations to prepare.
pub enum ExecuteOption {
    /// First display: a new dialog with its own modal loop.
    TaskDialogIndirect,
    /// In-place page navigation of the dialog already running.
    TaskDialogNavigate,
}

/// The host action the engine decided on.
pub enum EngineAction {
    /// Invoke the blocking "show dialog" primitive with this request.
    ShowDialog { request: NativeRequest },
    /// Send this one message; for navigation it carries the new page.
    SendMessage { send: OutboundSend },
}

/// What a finished dialog reports: the chosen button, the chosen radio
/// option (0 when no radio group was supplied), and the verification
/// checkbox state.
#[derive(Debug)]
pub struct TaskDialogResult {
    pub button_id: i32,
    pub radio_button_id: i32,
    pub checked: bool,
}

impl Default for TaskDialogResult {
    /// The empty result: nothing chosen, nothing checked.
    fn default() -> (r: TaskDialogResult)
        ensures
            r.button_id == 0,
            r.radio_button_id == 0,
            !r.checked,
    {
        TaskDialogResult { button_id: 0, radio_button_id: 0, checked: false }
    }
}

/// A failed host call, carrying the host's status code. Display is a
/// one-shot user interaction: nothing is retried.
#[derive(Debug)]
pub struct TaskDialogError {
    pub code: i32,
}

/// Decides the host action for one execution. A first display always yields
/// the "show dialog" action over a fresh marshaling of the configuration.
/// A navigation requires an already-created, not yet destroyed dialog: it
/// yields exactly one send of the new page to the existing handle — never a
/// second "show dialog" — and outside that window it is the guarded no-op.
pub fn execute_task_dialog(conf: &mut TaskDialogConfig, opt: ExecuteOption) -> (action: Option<
    EngineAction,
>)
    ensures
        final(conf)@ == old(conf)@,
        opt is TaskDialogIndirect ==> (action matches Some(a) && (
        a matches EngineAction::ShowDialog { request } && request@ == marshal_view(old(conf)@))),
        opt is TaskDialogNavigate && live_update_ready(old(conf)@) ==> (action matches Some(a) && (
        a matches EngineAction::SendMessage { send } && send.hwnd == old(conf)@.dialog_hwnd && (
        send.message matches DialogMessage::NavigatePage { request } && request@ == marshal_view(
            old(conf)@,
        )))),
        opt is TaskDialogNavigate && !live_update_ready(old(conf)@) ==> action is None,
{
    match opt {
        ExecuteOption::TaskDialogIndirect => {
            let request = marshal(conf);
            Some(EngineAction::ShowDialog { request })
        },
        ExecuteOption::TaskDialogNavigate => {
            if conf.dialog_hwnd == 0 || conf.is_destroyed {
                return None;
            }
            let request = marshal(conf);
            Some(
                EngineAction::SendMessage {
                    send: OutboundSend {
                        hwnd: conf.dialog_hwnd,
                        message: DialogMessage::NavigatePage { request },
                    },
                },
            )
        },
    }
}

/// Recovers the caller-visible result from what the "show dialog" primitive
/// handed back. A zero status yields the three outputs as the host reported
/// them; any nonzero status yields the one error, carrying that status, and
/// no partial result.
pub fn decode_dialog_outcome(status: i32, button_id: i32, radio_button_id: i32, checked: bool) -> (r:
    Result<TaskDialogResult, TaskDialogError>)
    ensures
        status == 0 ==> (r matches Ok(t) && t.button_id == button_id && t.radio_button_id
            == radio_button_id && t.checked == checked),
        status != 0 ==> (r matches Err(e) && e.code == status),
{
    if status == 0 {
        Ok(TaskDialogResult { button_id, radio_button_id, checked })
    } else {
        Err(TaskDialogError { code: status })
    }
}

/// First display, as callable on a platform without the native host: every
/// entry point stays present and behaves as a no-op yielding the default
/// result, which keeps the caller-facing surface portable. A driver with a
/// live host runs `execute_task_dialog` and `decode_dialog_outcome` around
/// the blocking host call instead.
pub fn show_task_dialog(conf: &mut TaskDialogConfig) -> (r: Result<
    TaskDialogResult,
    TaskDialogError,
>)
    ensures
        final(conf)@ == old(conf)@,
        r matches Ok(t) && t.button_id == 0 && t.radio_button_id == 0 && !t.checked,
{
    Ok(TaskDialogResult::default())
}

/// Shows a message dialog with only an OK button: builds the one-shot
/// configuration (title, instruction, body, main icon) and runs the
/// portable first display, reporting only a failure. Without a native host
/// there is none.
pub fn show_msg_dialog(title: &str, main_instruction: &str, content: &str, icon: usize) -> (r:
    Option<TaskDialogError>)
    ensures
        r is None,
{
    let mut conf = TaskDialogConfig::default();
    conf.common_buttons = TDCBF_OK_BUTTON;
    conf.window_title = title.to_owned();
    conf.main_instruction = main_instruction.to_owned();
    conf.content = content.to_owned();
    conf.main_icon = icon;
    match show_task_dialog(&mut conf) {
        Ok(_) => None,
        Err(e) => Some(e),
    }
}

} // verus!
