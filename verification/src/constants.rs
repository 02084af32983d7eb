//! Numeric values of the native task-dialog protocol: behavior flags, common
//! button sets, notification identifiers, window messages, text elements and
//! standard icon references. The values are fixed by the host's ABI.

use vstd::prelude::*;

verus! {

// Common button sets (bits of `common_buttons`).
pub const TDCBF_OK_BUTTON: u32 = 0x0001;
pub const TDCBF_YES_BUTTON: u32 = 0x0002;
pub const TDCBF_NO_BUTTON: u32 = 0x0004;
pub const TDCBF_CANCEL_BUTTON: u32 = 0x0008;
pub const TDCBF_RETRY_BUTTON: u32 = 0x0010;
pub const TDCBF_CLOSE_BUTTON: u32 = 0x0020;

// Behavior flags (bits of `flags`).
pub const TDF_ENABLE_HYPERLINKS: u32 = 0x0001;
pub const TDF_ALLOW_DIALOG_CANCELLATION: u32 = 0x0008;
pub const TDF_USE_COMMAND_LINKS: u32 = 0x0010;
pub const TDF_USE_COMMAND_LINKS_NO_ICON: u32 = 0x0020;
pub const TDF_EXPAND_FOOTER_AREA: u32 = 0x0040;
pub const TDF_EXPANDED_BY_DEFAULT: u32 = 0x0080;
pub const TDF_VERIFICATION_FLAG_CHECKED: u32 = 0x0100;
pub const TDF_SHOW_PROGRESS_BAR: u32 = 0x0200;
pub const TDF_SHOW_MARQUEE_PROGRESS_BAR: u32 = 0x0400;
pub const TDF_POSITION_RELATIVE_TO_WINDOW: u32 = 0x1000;
pub const TDF_RTL_LAYOUT: u32 = 0x2000;
pub const TDF_NO_DEFAULT_RADIO_BUTTON: u32 = 0x4000;
pub const TDF_CAN_BE_MINIMIZED: u32 = 0x8000;
pub const TDF_NO_SET_FOREGROUND: u32 = 0x10000;
pub const TDF_SIZE_TO_CONTENT: u32 = 0x1000000;

// Notification identifiers delivered to the bridge.
pub const TDN_CREATED: u32 = 0;
pub const TDN_NAVIGATED: u32 = 1;
pub const TDN_BUTTON_CLICKED: u32 = 2;
pub const TDN_HYPERLINK_CLICKED: u32 = 3;
pub const TDN_DESTROYED: u32 = 5;

// Window messages of the live-update channel (offsets from the host's
// user-message base, 0x400).
pub const TDM_NAVIGATE_PAGE: u32 = 0x465;
pub const TDM_SET_PROGRESS_BAR_POS: u32 = 0x46A;
pub const TDM_SET_PROGRESS_BAR_MARQUEE: u32 = 0x46B;
pub const TDM_UPDATE_ELEMENT_TEXT: u32 = 0x472;
pub const TDM_SET_BUTTON_ELEVATION_REQUIRED_STATE: u32 = 0x473;

// Text elements addressed by TDM_UPDATE_ELEMENT_TEXT.
pub const TDE_CONTENT: u32 = 0;
pub const TDE_EXPANDED_INFORMATION: u32 = 1;
pub const TDE_FOOTER: u32 = 2;
pub const TDE_MAIN_INSTRUCTION: u32 = 3;

// Standard icon references: the host encodes them as the low 16 bits of a
// resource identifier (the two's complement of a small index). 0 means
// "no icon".
pub const TD_WARNING_ICON: usize = 0xFFFF;
pub const TD_ERROR_ICON: usize = 0xFFFE;
pub const TD_INFORMATION_ICON: usize = 0xFFFD;
pub const TD_SHIELD_ICON: usize = 0xFFFC;

// Result codes a bridge callback may return to the host.
pub const S_OK: i32 = 0;
pub const S_FALSE: i32 = 1;

} // verus!
