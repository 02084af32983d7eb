//! The caller-owned configuration of one dialog: declarative content, choice
//! sets, behavior flags, icon references, the installed-callback markers, and
//! the two fields of runtime state that the notification bridge writes (the
//! dialog's window handle and the destroyed flag).
//!
//! Handles and icon references are carried as plain machine words: 0 means
//! "none". The host owns what they denote.

use vstd::prelude::*;

use crate::constants::TDCBF_CANCEL_BUTTON;
use crate::constants::TDF_SHOW_MARQUEE_PROGRESS_BAR;
use crate::constants::TDF_SHOW_PROGRESS_BAR;

verus! {

/// One command button or radio option: a caller-chosen identifier and a
/// label. Identifiers are the only channel by which the caller learns which
/// control fired.
pub struct TaskDialogButton {
    pub id: i32,
    pub text: String,
}

/// Mathematical image of a button: the identifier and the label's text.
#[verifier::ext_equal]
pub ghost struct ButtonView {
    pub id: i32,
    pub text: Seq<char>,
}

impl View for TaskDialogButton {
    type V = ButtonView;

    open spec fn view(&self) -> ButtonView {
        ButtonView { id: self.id, text: self.text@ }
    }
}

/// The configuration record. It is mutated by three actors: the caller
/// (before and after display), the notification bridge (`dialog_hwnd` and
/// `is_destroyed`, during display), and live-update callers (the text slots).
pub struct TaskDialogConfig {
    /// Owning window; 0 for none.
    pub parent: usize,
    /// Resource module the icon references resolve in; 0 for the current one.
    pub instance: usize,
    /// Behavior flag bits.
    pub flags: u32,
    /// Common button bits.
    pub common_buttons: u32,
    pub window_title: String,
    pub main_instruction: String,
    pub content: String,
    pub verification_text: String,
    pub expanded_information: String,
    pub expanded_control_text: String,
    pub collapsed_control_text: String,
    pub footer: String,
    /// Command buttons, in on-screen order.
    pub buttons: Vec<TaskDialogButton>,
    pub default_button: i32,
    /// Radio options, in on-screen order.
    pub radio_buttons: Vec<TaskDialogButton>,
    pub default_radio_buttons: i32,
    /// Main icon reference; 0 for none.
    pub main_icon: usize,
    /// Footer icon reference; 0 for none.
    pub footer_icon: usize,
    /// Handle of the displayed dialog, written by the bridge on "created";
    /// 0 before that, and meaningful only until "destroyed".
    pub dialog_hwnd: usize,
    /// Set once by the bridge on "destroyed", never cleared.
    pub is_destroyed: bool,
    /// Whether a hyperlink-activation callback is installed. The callback
    /// itself lives with the caller; the bridge reports what to hand it.
    pub hyperlink_callback: bool,
    /// Whether a raw notification callback is installed. The bridge reports
    /// when it must run, always after the built-in handling.
    pub callback: bool,
    /// Pixel width hint; 0 lets the host choose.
    pub cx_width: u32,
}

/// Mathematical image of a configuration.
#[verifier::ext_equal]
pub ghost struct ConfigView {
    pub parent: usize,
    pub instance: usize,
    pub flags: u32,
    pub common_buttons: u32,
    pub window_title: Seq<char>,
    pub main_instruction: Seq<char>,
    pub content: Seq<char>,
    pub verification_text: Seq<char>,
    pub expanded_information: Seq<char>,
    pub expanded_control_text: Seq<char>,
    pub collapsed_control_text: Seq<char>,
    pub footer: Seq<char>,
    pub buttons: Seq<ButtonView>,
    pub default_button: i32,
    pub radio_buttons: Seq<ButtonView>,
    pub default_radio_buttons: i32,
    pub main_icon: usize,
    pub footer_icon: usize,
    pub dialog_hwnd: usize,
    pub is_destroyed: bool,
    pub hyperlink_callback: bool,
    pub callback: bool,
    pub cx_width: u32,
}

impl View for TaskDialogConfig {
    type V = ConfigView;

    open spec fn view(&self) -> ConfigView {
        ConfigView {
            parent: self.parent,
            instance: self.instance,
            flags: self.flags,
            common_buttons: self.common_buttons,
            window_title: self.window_title@,
            main_instruction: self.main_instruction@,
            content: self.content@,
            verification_text: self.verification_text@,
            expanded_information: self.expanded_information@,
            expanded_control_text: self.expanded_control_text@,
            collapsed_control_text: self.collapsed_control_text@,
            footer: self.footer@,
            buttons: self.buttons@.map_values(|b: TaskDialogButton| b@),
            default_button: self.default_button,
            radio_buttons: self.radio_buttons@.map_values(|b: TaskDialogButton| b@),
            default_radio_buttons: self.default_radio_buttons,
            main_icon: self.main_icon,
            footer_icon: self.footer_icon,
            dialog_hwnd: self.dialog_hwnd,
            is_destroyed: self.is_destroyed,
            hyperlink_callback: self.hyperlink_callback,
            callback: self.callback,
            cx_width: self.cx_width,
        }
    }
}

/// The guard every live-update operation checks first: the dialog has
/// signaled "created" and has not signaled "destroyed". Outside this window
/// the operations do nothing, by design.
pub open spec fn live_update_ready(c: ConfigView) -> bool {
    c.dialog_hwnd != 0 && !c.is_destroyed
}

impl Default for TaskDialogConfig {
    /// The documented defaults: no owner, no icons, a cancel-only common
    /// button set, empty text everywhere, no choice sets, no progress bar,
    /// no callbacks, and no runtime state yet.
    fn default() -> (c: TaskDialogConfig)
        ensures
            c@ == (ConfigView {
                parent: 0,
                instance: 0,
                flags: 0,
                common_buttons: TDCBF_CANCEL_BUTTON,
                window_title: Seq::<char>::empty(),
                main_instruction: Seq::<char>::empty(),
                content: Seq::<char>::empty(),
                verification_text: Seq::<char>::empty(),
                expanded_information: Seq::<char>::empty(),
                expanded_control_text: Seq::<char>::empty(),
                collapsed_control_text: Seq::<char>::empty(),
                footer: Seq::<char>::empty(),
                buttons: Seq::<ButtonView>::empty(),
                default_button: 0,
                radio_buttons: Seq::<ButtonView>::empty(),
                default_radio_buttons: 0,
                main_icon: 0,
                footer_icon: 0,
                dialog_hwnd: 0,
                is_destroyed: false,
                hyperlink_callback: false,
                callback: false,
                cx_width: 0,
            }),
    {
        let c = TaskDialogConfig {
            parent: 0,
            instance: 0,
            flags: 0,
            common_buttons: TDCBF_CANCEL_BUTTON,
            window_title: String::new(),
            main_instruction: String::new(),
            content: String::new(),
            verification_text: String::new(),
            expanded_information: String::new(),
            expanded_control_text: String::new(),
            collapsed_control_text: String::new(),
            footer: String::new(),
            buttons: Vec::new(),
            default_button: 0,
            radio_buttons: Vec::new(),
            default_radio_buttons: 0,
            main_icon: 0,
            footer_icon: 0,
            dialog_hwnd: 0,
            is_destroyed: false,
            hyperlink_callback: false,
            callback: false,
            cx_width: 0,
        };
        proof {
            assert(c@.buttons =~= Seq::<ButtonView>::empty());
            assert(c@.radio_buttons =~= Seq::<ButtonView>::empty());
        }
        c
    }
}

impl TaskDialogConfig {
    /// Selects the progress bar: the marquee bit for marquee presentation,
    /// else the determinate bit. Only the chosen bit is added; every other
    /// field is untouched.
    pub fn enable_process_bar(&mut self, marquee: bool)
        ensures
            marquee ==> final(self)@ == (ConfigView {
                flags: old(self)@.flags | TDF_SHOW_MARQUEE_PROGRESS_BAR,
                ..old(self)@
            }),
            !marquee ==> final(self)@ == (ConfigView {
                flags: old(self)@.flags | TDF_SHOW_PROGRESS_BAR,
                ..old(self)@
            }),
    {
        if marquee {
            self.flags = self.flags | TDF_SHOW_MARQUEE_PROGRESS_BAR;
        } else {
            self.flags = self.flags | TDF_SHOW_PROGRESS_BAR;
        }
    }

    /// Clears the progress bar selected by `marquee`, leaving every other
    /// flag bit and every other field untouched.
    pub fn disable_process_bar(&mut self, marquee: bool)
        ensures
            marquee ==> final(self)@ == (ConfigView {
                flags: old(self)@.flags & !TDF_SHOW_MARQUEE_PROGRESS_BAR,
                ..old(self)@
            }),
            !marquee ==> final(self)@ == (ConfigView {
                flags: old(self)@.flags & !TDF_SHOW_PROGRESS_BAR,
                ..old(self)@
            }),
    {
        if marquee {
            self.flags = self.flags & !TDF_SHOW_MARQUEE_PROGRESS_BAR;
        } else {
            self.flags = self.flags & !TDF_SHOW_PROGRESS_BAR;
        }
    }
}

} // verus!
