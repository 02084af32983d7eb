//! The live-update channel: narrow operations a caller may issue from any
//! thread against a dialog that is currently displayed. Each one computes
//! the exact window message to send to the handle recorded in the
//! configuration — or computes nothing at all when the handle is unset or
//! the dialog already destroyed. That silent no-op is the designed guard:
//! those are expected races, never faults.

use vstd::prelude::*;

use crate::config::ConfigView;
use crate::config::TaskDialogConfig;
use crate::config::live_update_ready;
use crate::constants::TDE_CONTENT;
use crate::constants::TDE_EXPANDED_INFORMATION;
use crate::constants::TDE_FOOTER;
use crate::constants::TDE_MAIN_INSTRUCTION;
use crate::constants::TDM_NAVIGATE_PAGE;
use crate::constants::TDM_SET_BUTTON_ELEVATION_REQUIRED_STATE;
use crate::constants::TDM_SET_PROGRESS_BAR_MARQUEE;
use crate::constants::TDM_SET_PROGRESS_BAR_POS;
use crate::constants::TDM_UPDATE_ELEMENT_TEXT;
use crate::marshal::NativeRequest;
use crate::marshal::encode_wide_z;
use crate::marshal::marshal;
use crate::marshal::marshal_view;
use crate::marshal::wide_z;

verus! {

/// One window message of the live-update channel, held symbolically: the
/// variant fixes the message identifier and the payload carries what the
/// host's send primitive takes as its two parameters.
pub enum DialogMessage {
    /// Progress position, determinate mode.
    SetProgressBarPos { percentage: usize },
    /// Marquee animation on or off, with its animation interval.
    SetProgressBarMarquee { enable: bool, time: isize },
    /// Replace one displayed text element; the payload is the
    /// zero-terminated wide text.
    UpdateElementText { element: u32, text: Vec<u16> },
    /// Show or clear the elevation badge of the button with this identifier.
    SetButtonElevationRequiredState { button_id: usize, enable: bool },
    /// Replace the running dialog's whole page with a newly marshaled
    /// request, keeping the modal loop alive.
    NavigatePage { request: NativeRequest },
}

/// The message identifier a symbolic message goes out under.
pub open spec fn message_kind_view(m: DialogMessage) -> u32 {
    match m {
        DialogMessage::SetProgressBarPos { .. } => TDM_SET_PROGRESS_BAR_POS,
        DialogMessage::SetProgressBarMarquee { .. } => TDM_SET_PROGRESS_BAR_MARQUEE,
        DialogMessage::UpdateElementText { .. } => TDM_UPDATE_ELEMENT_TEXT,
        DialogMessage::SetButtonElevationRequiredState { .. } => {
            TDM_SET_BUTTON_ELEVATION_REQUIRED_STATE
        },
        DialogMessage::NavigatePage { .. } => TDM_NAVIGATE_PAGE,
    }
}

/// The message identifier, for a driver that puts a message on the wire.
pub fn message_kind(m: &DialogMessage) -> (k: u32)
    ensures
        k == message_kind_view(*m),
{
    match m {
        DialogMessage::SetProgressBarPos { .. } => TDM_SET_PROGRESS_BAR_POS,
        DialogMessage::SetProgressBarMarquee { .. } => TDM_SET_PROGRESS_BAR_MARQUEE,
        DialogMessage::UpdateElementText { .. } => TDM_UPDATE_ELEMENT_TEXT,
        DialogMessage::SetButtonElevationRequiredState { .. } => {
            TDM_SET_BUTTON_ELEVATION_REQUIRED_STATE
        },
        DialogMessage::NavigatePage { .. } => TDM_NAVIGATE_PAGE,
    }
}

/// One outbound send: the recorded dialog handle and the message for it.
pub struct OutboundSend {
    pub hwnd: usize,
    pub message: DialogMessage,
}

impl TaskDialogConfig {
    /// Starts or stops the marquee animation with the given interval.
    /// Exactly one send when the dialog is live, nothing otherwise; the
    /// configuration is untouched either way.
    pub fn set_process_bar_marquee(&mut self, enable: bool, time: isize) -> (send: Option<
        OutboundSend,
    >)
        ensures
            final(self)@ == old(self)@,
            live_update_ready(old(self)@) ==> (send matches Some(s) && s.hwnd == old(
                self,
            )@.dialog_hwnd && (s.message matches DialogMessage::SetProgressBarMarquee {
                enable: e,
                time: t,
            } && e == enable && t == time)),
            !live_update_ready(old(self)@) ==> send is None,
    {
        if self.dialog_hwnd == 0 || self.is_destroyed {
            return None;
        }
        Some(
            OutboundSend {
                hwnd: self.dialog_hwnd,
                message: DialogMessage::SetProgressBarMarquee { enable, time },
            },
        )
    }

    /// Sets the determinate progress position. Exactly one send carrying the
    /// given percentage when the dialog is live, nothing otherwise.
    pub fn set_process_bar(&mut self, percentage: usize) -> (send: Option<OutboundSend>)
        ensures
            final(self)@ == old(self)@,
            live_update_ready(old(self)@) ==> (send matches Some(s) && s.hwnd == old(
                self,
            )@.dialog_hwnd && (s.message matches DialogMessage::SetProgressBarPos { percentage: p }
                && p == percentage)),
            !live_update_ready(old(self)@) ==> send is None,
    {
        if self.dialog_hwnd == 0 || self.is_destroyed {
            return None;
        }
        Some(
            OutboundSend {
                hwnd: self.dialog_hwnd,
                message: DialogMessage::SetProgressBarPos { percentage },
            },
        )
    }

    /// Updates the displayed body content and records it in the
    /// configuration, so later reads see what is on screen.
    pub fn set_content(&mut self, content: &str) -> (send: Option<OutboundSend>)
        ensures
            live_update_ready(old(self)@) ==> final(self)@ == (ConfigView {
                content: content@,
                ..old(self)@
            }) && (send matches Some(s) && s.hwnd == old(self)@.dialog_hwnd && (
            s.message matches DialogMessage::UpdateElementText { element, text } && element
                == TDE_CONTENT && text@ == wide_z(content@))),
            !live_update_ready(old(self)@) ==> final(self)@ == old(self)@ && send is None,
    {
        if self.dialog_hwnd == 0 || self.is_destroyed {
            return None;
        }
        self.content = content.to_owned();
        let text = encode_wide_z(content);
        Some(
            OutboundSend {
                hwnd: self.dialog_hwnd,
                message: DialogMessage::UpdateElementText { element: TDE_CONTENT, text },
            },
        )
    }

    /// Updates the displayed main instruction and records it.
    pub fn set_main_instruction(&mut self, main_instruction: &str) -> (send: Option<OutboundSend>)
        ensures
            live_update_ready(old(self)@) ==> final(self)@ == (ConfigView {
                main_instruction: main_instruction@,
                ..old(self)@
            }) && (send matches Some(s) && s.hwnd == old(self)@.dialog_hwnd && (
            s.message matches DialogMessage::UpdateElementText { element, text } && element
                == TDE_MAIN_INSTRUCTION && text@ == wide_z(main_instruction@))),
            !live_update_ready(old(self)@) ==> final(self)@ == old(self)@ && send is None,
    {
        if self.dialog_hwnd == 0 || self.is_destroyed {
            return None;
        }
        self.main_instruction = main_instruction.to_owned();
        let text = encode_wide_z(main_instruction);
        Some(
            OutboundSend {
                hwnd: self.dialog_hwnd,
                message: DialogMessage::UpdateElementText { element: TDE_MAIN_INSTRUCTION, text },
            },
        )
    }

    /// Updates the displayed footer and records it.
    pub fn set_footer(&mut self, footer: &str) -> (send: Option<OutboundSend>)
        ensures
            live_update_ready(old(self)@) ==> final(self)@ == (ConfigView {
                footer: footer@,
                ..old(self)@
            }) && (send matches Some(s) && s.hwnd == old(self)@.dialog_hwnd && (
            s.message matches DialogMessage::UpdateElementText { element, text } && element
                == TDE_FOOTER && text@ == wide_z(footer@))),
            !live_update_ready(old(self)@) ==> final(self)@ == old(self)@ && send is None,
    {
        if self.dialog_hwnd == 0 || self.is_destroyed {
            return None;
        }
        self.footer = footer.to_owned();
        let text = encode_wide_z(footer);
        Some(
            OutboundSend {
                hwnd: self.dialog_hwnd,
                message: DialogMessage::UpdateElementText { element: TDE_FOOTER, text },
            },
        )
    }

    /// Updates the displayed expanded-detail text and records it.
    pub fn set_expanded_information(&mut self, expanded_information: &str) -> (send: Option<
        OutboundSend,
    >)
        ensures
            live_update_ready(old(self)@) ==> final(self)@ == (ConfigView {
                expanded_information: expanded_information@,
                ..old(self)@
            }) && (send matches Some(s) && s.hwnd == old(self)@.dialog_hwnd && (
            s.message matches DialogMessage::UpdateElementText { element, text } && element
                == TDE_EXPANDED_INFORMATION && text@ == wide_z(expanded_information@))),
            !live_update_ready(old(self)@) ==> final(self)@ == old(self)@ && send is None,
    {
        if self.dialog_hwnd == 0 || self.is_destroyed {
            return None;
        }
        self.expanded_information = expanded_information.to_owned();
        let text = encode_wide_z(expanded_information);
        Some(
            OutboundSend {
                hwnd: self.dialog_hwnd,
                message: DialogMessage::UpdateElementText {
                    element: TDE_EXPANDED_INFORMATION,
                    text,
                },
            },
        )
    }

    /// Shows or clears the elevation badge on the button with the given
    /// identifier. The configuration is untouched.
    pub fn set_button_elevation_required_state(&mut self, button_id: usize, enable: bool) -> (send:
        Option<OutboundSend>)
        ensures
            final(self)@ == old(self)@,
            live_update_ready(old(self)@) ==> (send matches Some(s) && s.hwnd == old(
                self,
            )@.dialog_hwnd && (s.message matches DialogMessage::SetButtonElevationRequiredState {
                button_id: b,
                enable: e,
            } && b == button_id && e == enable)),
            !live_update_ready(old(self)@) ==> send is None,
    {
        if self.dialog_hwnd == 0 || self.is_destroyed {
            return None;
        }
        Some(
            OutboundSend {
                hwnd: self.dialog_hwnd,
                message: DialogMessage::SetButtonElevationRequiredState { button_id, enable },
            },
        )
    }

    /// Replaces this running dialog's page with `conf`, marshaled anew and
    /// sent to the existing handle — the modal loop keeps running under the
    /// new content, and no second dialog is shown. A no-op before "created"
    /// and after "destroyed".
    pub fn navigate_page(&mut self, conf: &mut TaskDialogConfig) -> (send: Option<OutboundSend>)
        ensures
            final(self)@ == old(self)@,
            final(conf)@ == old(conf)@,
            live_update_ready(old(self)@) ==> (send matches Some(s) && s.hwnd == old(
                self,
            )@.dialog_hwnd && (s.message matches DialogMessage::NavigatePage { request } && request@
                == marshal_view(old(conf)@))),
            !live_update_ready(old(self)@) ==> send is None,
    {
        if self.dialog_hwnd == 0 || self.is_destroyed {
            return None;
        }
        let request = marshal(conf);
        Some(
            OutboundSend { hwnd: self.dialog_hwnd, message: DialogMessage::NavigatePage { request } },
        )
    }
}

} // verus!
