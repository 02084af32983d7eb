//! Marshaling: a configuration becomes one self-contained native request.
//!
//! Every text slot is re-encoded as wide text with one terminating zero unit,
//! and the button and radio arrays are built in the caller-supplied order —
//! order is significant, it fixes the on-screen ordering. The request holds
//! everything the host's blocking "show dialog" primitive and its in-place
//! "navigate to page" message consume.

use vstd::prelude::*;

use crate::config::ButtonView;
use crate::config::ConfigView;
use crate::config::TaskDialogButton;
use crate::config::TaskDialogConfig;
use crate::wide::encode_wide;
use crate::wide::lemma_wide_z_injective;
use crate::wide::wide_of;

verus! {

/// One button entry of a native request: the caller's identifier and the
/// zero-terminated wide label.
pub struct NativeButton {
    pub id: i32,
    pub text: Vec<u16>,
}

/// Mathematical image of a native button entry.
#[verifier::ext_equal]
pub ghost struct NativeButtonView {
    pub id: i32,
    pub text: Seq<u16>,
}

impl View for NativeButton {
    type V = NativeButtonView;

    open spec fn view(&self) -> NativeButtonView {
        NativeButtonView { id: self.id, text: self.text@ }
    }
}

/// The native request: the one value handed to the host for a first display
/// or an in-place navigation. Self-contained — the text lives in the request
/// itself for exactly the duration of the call that consumes it.
pub struct NativeRequest {
    pub parent: usize,
    pub instance: usize,
    pub flags: u32,
    pub common_buttons: u32,
    pub window_title: Vec<u16>,
    pub main_instruction: Vec<u16>,
    pub content: Vec<u16>,
    pub verification_text: Vec<u16>,
    pub expanded_information: Vec<u16>,
    pub expanded_control_text: Vec<u16>,
    pub collapsed_control_text: Vec<u16>,
    pub footer: Vec<u16>,
    pub buttons: Vec<NativeButton>,
    pub default_button: i32,
    pub radio_buttons: Vec<NativeButton>,
    pub default_radio_button: i32,
    pub main_icon: usize,
    pub footer_icon: usize,
    pub cx_width: u32,
}

/// Mathematical image of a native request.
#[verifier::ext_equal]
pub ghost struct RequestView {
    pub parent: usize,
    pub instance: usize,
    pub flags: u32,
    pub common_buttons: u32,
    pub window_title: Seq<u16>,
    pub main_instruction: Seq<u16>,
    pub content: Seq<u16>,
    pub verification_text: Seq<u16>,
    pub expanded_information: Seq<u16>,
    pub expanded_control_text: Seq<u16>,
    pub collapsed_control_text: Seq<u16>,
    pub footer: Seq<u16>,
    pub buttons: Seq<NativeButtonView>,
    pub default_button: i32,
    pub radio_buttons: Seq<NativeButtonView>,
    pub default_radio_button: i32,
    pub main_icon: usize,
    pub footer_icon: usize,
    pub cx_width: u32,
}

impl View for NativeRequest {
    type V = RequestView;

    open spec fn view(&self) -> RequestView {
        RequestView {
            parent: self.parent,
            instance: self.instance,
            flags: self.flags,
            common_buttons: self.common_buttons,
            window_title: self.window_title@,
            main_instruction: self.main_instruction@,
            content: self.content@,
            verification_text: self.verification_text@,
            expanded_information: self.expanded_information@,
            expanded_control_text: self.expanded_control_text@,
            collapsed_control_text: self.collapsed_control_text@,
            footer: self.footer@,
            buttons: self.buttons@.map_values(|b: NativeButton| b@),
            default_button: self.default_button,
            radio_buttons: self.radio_buttons@.map_values(|b: NativeButton| b@),
            default_radio_button: self.default_radio_button,
            main_icon: self.main_icon,
            footer_icon: self.footer_icon,
            cx_width: self.cx_width,
        }
    }
}

/// Wide text as the host takes it: the code units with one terminating zero.
/// Text holding an embedded zero unit is thereby truncated at the native
/// layer to the prefix before it — a known surface quirk, not validated here.
pub open spec fn wide_z(s: Seq<char>) -> Seq<u16> {
    wide_of(s).push(0)
}

/// Mathematical image of one marshaled button.
pub open spec fn marshal_button_view(b: ButtonView) -> NativeButtonView {
    NativeButtonView { id: b.id, text: wide_z(b.text) }
}

/// Mathematical image of the whole marshaling step: what `marshal` builds.
pub open spec fn marshal_view(c: ConfigView) -> RequestView {
    RequestView {
        parent: c.parent,
        instance: c.instance,
        flags: c.flags,
        common_buttons: c.common_buttons,
        window_title: wide_z(c.window_title),
        main_instruction: wide_z(c.main_instruction),
        content: wide_z(c.content),
        verification_text: wide_z(c.verification_text),
        expanded_information: wide_z(c.expanded_information),
        expanded_control_text: wide_z(c.expanded_control_text),
        collapsed_control_text: wide_z(c.collapsed_control_text),
        footer: wide_z(c.footer),
        buttons: c.buttons.map_values(|b: ButtonView| marshal_button_view(b)),
        default_button: c.default_button,
        radio_buttons: c.radio_buttons.map_values(|b: ButtonView| marshal_button_view(b)),
        default_radio_button: c.default_radio_buttons,
        main_icon: c.main_icon,
        footer_icon: c.footer_icon,
        cx_width: c.cx_width,
    }
}

/// Encodes one text slot as zero-terminated wide text.
pub(crate) fn encode_wide_z(s: &str) -> (r: Vec<u16>)
    ensures
        r@ == wide_z(s@),
{
    let mut units = encode_wide(s);
    units.push(0);
    units
}

/// Builds one button array in the given order.
fn marshal_buttons(buttons: &Vec<TaskDialogButton>) -> (r: Vec<NativeButton>)
    ensures
        r@.map_values(|b: NativeButton| b@) == buttons@.map_values(|b: TaskDialogButton| b@)
            .map_values(|b: ButtonView| marshal_button_view(b)),
{
    let mut out: Vec<NativeButton> = Vec::new();
    let mut i: usize = 0;
    while i < buttons.len()
        invariant
            i <= buttons.len(),
            out@.len() == i,
            forall|j: int| 0 <= j < i ==> out@[j]@ == marshal_button_view(buttons@[j]@),
        decreases buttons.len() - i,
    {
        let text = encode_wide_z(buttons[i].text.as_str());
        out.push(NativeButton { id: buttons[i].id, text });
        i += 1;
    }
    proof {
        assert(out@.map_values(|b: NativeButton| b@) =~= buttons@.map_values(
            |b: TaskDialogButton| b@,
        ).map_values(|b: ButtonView| marshal_button_view(b)));
    }
    out
}

/// Marshals a configuration into the one native request that the host call
/// consumes: every pointer the host will see points into this value. The
/// request is exactly `marshal_view` of the configuration — text preserved
/// unit for unit, button and radio arrays in caller order.
pub fn marshal(conf: &TaskDialogConfig) -> (r: NativeRequest)
    ensures
        r@ == marshal_view(conf@),
{
    let r = NativeRequest {
        parent: conf.parent,
        instance: conf.instance,
        flags: conf.flags,
        common_buttons: conf.common_buttons,
        window_title: encode_wide_z(conf.window_title.as_str()),
        main_instruction: encode_wide_z(conf.main_instruction.as_str()),
        content: encode_wide_z(conf.content.as_str()),
        verification_text: encode_wide_z(conf.verification_text.as_str()),
        expanded_information: encode_wide_z(conf.expanded_information.as_str()),
        expanded_control_text: encode_wide_z(conf.expanded_control_text.as_str()),
        collapsed_control_text: encode_wide_z(conf.collapsed_control_text.as_str()),
        footer: encode_wide_z(conf.footer.as_str()),
        buttons: marshal_buttons(&conf.buttons),
        default_button: conf.default_button,
        radio_buttons: marshal_buttons(&conf.radio_buttons),
        default_radio_button: conf.default_radio_buttons,
        main_icon: conf.main_icon,
        footer_icon: conf.footer_icon,
        cx_width: conf.cx_width,
    };
    proof {
        assert(r@ =~= marshal_view(conf@));
    }
    r
}

/// The identifiers of a configured choice set, in order.
pub open spec fn button_ids(bs: Seq<ButtonView>) -> Seq<i32> {
    bs.map_values(|b: ButtonView| b.id)
}

/// The identifiers offered by a marshaled choice set, in order.
pub open spec fn native_button_ids(bs: Seq<NativeButtonView>) -> Seq<i32> {
    bs.map_values(|b: NativeButtonView| b.id)
}

/// An identifier the host reserves for its own controls (the common buttons
/// and the system close affordance). A result may carry one of these even
/// though the caller never registered it.
pub open spec fn is_host_reserved_id(id: i32) -> bool {
    1 <= id <= 8
}

/// Marshaling offers exactly the supplied identifiers, in the supplied order,
/// for buttons and radio options alike.
pub proof fn lemma_request_ids_match(c: ConfigView)
    ensures
        native_button_ids(marshal_view(c).buttons) == button_ids(c.buttons),
        native_button_ids(marshal_view(c).radio_buttons) == button_ids(c.radio_buttons),
{
    assert(native_button_ids(marshal_view(c).buttons) =~= button_ids(c.buttons));
    assert(native_button_ids(marshal_view(c).radio_buttons) =~= button_ids(c.radio_buttons));
}

/// Order invariant of the result channel: the host picks a button identifier
/// from the request it was handed or from its own reserved set, so any
/// identifier it reports is one the caller supplied or a host-reserved
/// sentinel — never anything else.
pub proof fn lemma_result_id_was_supplied(c: ConfigView, id: i32)
    requires
        native_button_ids(marshal_view(c).buttons).contains(id) || is_host_reserved_id(id),
    ensures
        button_ids(c.buttons).contains(id) || is_host_reserved_id(id),
{
    lemma_request_ids_match(c);
}

/// Round trip across the encoding boundary: the wide buffers of a request
/// determine the configured text exactly, for every text slot and every
/// button label — two configurations that marshal to the same request had
/// the same text. With `marshal`'s postcondition this says the request
/// carries the text as authored, with no corruption a decoder could not
/// undo.
pub proof fn lemma_marshal_round_trip(c1: ConfigView, c2: ConfigView)
    requires
        marshal_view(c1) == marshal_view(c2),
    ensures
        c1.window_title == c2.window_title,
        c1.main_instruction == c2.main_instruction,
        c1.content == c2.content,
        c1.verification_text == c2.verification_text,
        c1.expanded_information == c2.expanded_information,
        c1.expanded_control_text == c2.expanded_control_text,
        c1.collapsed_control_text == c2.collapsed_control_text,
        c1.footer == c2.footer,
        c1.buttons == c2.buttons,
        c1.radio_buttons == c2.radio_buttons,
{
    lemma_wide_z_injective(c1.window_title, c2.window_title);
    lemma_wide_z_injective(c1.main_instruction, c2.main_instruction);
    lemma_wide_z_injective(c1.content, c2.content);
    lemma_wide_z_injective(c1.verification_text, c2.verification_text);
    lemma_wide_z_injective(c1.expanded_information, c2.expanded_information);
    lemma_wide_z_injective(c1.expanded_control_text, c2.expanded_control_text);
    lemma_wide_z_injective(c1.collapsed_control_text, c2.collapsed_control_text);
    lemma_wide_z_injective(c1.footer, c2.footer);
    lemma_marshal_buttons_round_trip(c1.buttons, c2.buttons);
    lemma_marshal_buttons_round_trip(c1.radio_buttons, c2.radio_buttons);
}

/// A marshaled choice set determines the supplied one: identifiers and
/// labels alike.
proof fn lemma_marshal_buttons_round_trip(b1: Seq<ButtonView>, b2: Seq<ButtonView>)
    requires
        b1.map_values(|b: ButtonView| marshal_button_view(b)) == b2.map_values(
            |b: ButtonView| marshal_button_view(b),
        ),
    ensures
        b1 == b2,
{
    assert(b1.map_values(|b: ButtonView| marshal_button_view(b)).len() == b1.len());
    assert(b2.map_values(|b: ButtonView| marshal_button_view(b)).len() == b2.len());
    assert forall|i: int| 0 <= i < b1.len() implies b1[i] == b2[i] by {
        assert(0 <= i < b2.len());
        assert(marshal_button_view(b1[i]) == b1.map_values(
            |b: ButtonView| marshal_button_view(b),
        )[i]);
        assert(marshal_button_view(b2[i]) == b2.map_values(
            |b: ButtonView| marshal_button_view(b),
        )[i]);
        lemma_wide_z_injective(b1[i].text, b2[i].text);
        assert(b1[i] =~= b2[i]);
    }
    assert(b1 =~= b2);
}

/// The same, for the radio-option identifier of a result.
pub proof fn lemma_result_radio_id_was_supplied(c: ConfigView, id: i32)
    requires
        native_button_ids(marshal_view(c).radio_buttons).contains(id) || is_host_reserved_id(id),
    ensures
        button_ids(c.radio_buttons).contains(id) || is_host_reserved_id(id),
{
    lemma_request_ids_match(c);
}

} // verus!
