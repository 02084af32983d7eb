//! The notification bridge: one fixed-signature step, run by the host on its
//! own loop thread once per notification, that demultiplexes host events into
//! configuration state and tells the driver which caller callbacks to run.
//!
//! The built-in handling always comes first: "created" captures the window
//! handle, "destroyed" sets the destroyed flag (and never clears it),
//! "hyperlink activated" decodes the payload for the caller's hyperlink
//! callback. The caller's raw callback, when installed, runs last and its
//! return code wins; a raw callback observing "created" therefore always
//! sees the handle already captured.

use vstd::prelude::*;

use crate::config::ConfigView;
use crate::config::TaskDialogConfig;
use crate::constants::S_OK;
use crate::wide::decode_wide;
use crate::wide::is_wide_encoding;
use crate::wide::wide_of;

verus! {

/// One host event, already lifted from the raw notification parameters: the
/// payload a variant carries is what the bridge reads from them.
pub enum TaskDialogNotification {
    /// The dialog became interactive; the bridge's window-handle argument is
    /// now the live handle.
    Created,
    /// An in-place page navigation completed.
    Navigated,
    /// A command button or common button fired.
    ButtonClicked { button_id: usize },
    /// A hyperlink was activated; the payload is the link's wide text.
    HyperlinkClicked { link: Vec<u16> },
    /// The dialog is gone; its handle is stale from here on.
    Destroyed,
    /// Any other notification: passed through to the raw callback only.
    Other { kind: u32, w_param: usize, l_param: isize },
}

/// Mathematical image of a notification.
#[verifier::ext_equal]
pub ghost enum NotificationView {
    Created,
    Navigated,
    ButtonClicked { button_id: usize },
    HyperlinkClicked { link: Seq<u16> },
    Destroyed,
    Other { kind: u32, w_param: usize, l_param: isize },
}

impl View for TaskDialogNotification {
    type V = NotificationView;

    open spec fn view(&self) -> NotificationView {
        match self {
            TaskDialogNotification::Created => NotificationView::Created,
            TaskDialogNotification::Navigated => NotificationView::Navigated,
            TaskDialogNotification::ButtonClicked { button_id } => {
                NotificationView::ButtonClicked { button_id: *button_id }
            },
            TaskDialogNotification::HyperlinkClicked { link } => {
                NotificationView::HyperlinkClicked { link: link@ }
            },
            TaskDialogNotification::Destroyed => NotificationView::Destroyed,
            TaskDialogNotification::Other { kind, w_param, l_param } => {
                NotificationView::Other {
                    kind: *kind,
                    w_param: *w_param,
                    l_param: *l_param,
                }
            },
        }
    }
}

/// What one bridge step does to the configuration: "created" writes the
/// handle, "destroyed" sets the flag — and nothing ever clears it — and every
/// other notification leaves the configuration as it stands.
pub open spec fn bridge_step(c: ConfigView, hwnd: usize, n: NotificationView) -> ConfigView {
    match n {
        NotificationView::Created => ConfigView { dialog_hwnd: hwnd, ..c },
        NotificationView::Destroyed => ConfigView { is_destroyed: true, ..c },
        _ => c,
    }
}

/// The configuration after a whole run of notifications, each paired with
/// the window handle the host passed alongside it.
pub open spec fn bridge_run(c: ConfigView, events: Seq<(usize, NotificationView)>) -> ConfigView
    decreases events.len(),
{
    if events.len() == 0 {
        c
    } else {
        bridge_run(bridge_step(c, events[0].0, events[0].1), events.drop_first())
    }
}

/// What the driver owes the caller after the built-in handling: the link
/// text to hand to the hyperlink callback (when one is installed and the
/// payload decodes), whether the raw callback must now run — always last,
/// with its return code overriding — and the default code to return to the
/// host otherwise.
pub struct NotificationOutcome {
    pub hyperlink: Option<String>,
    pub invoke_raw: bool,
    pub code: i32,
}

/// One step of the bridge: the built-in handling of a notification.
///
/// The configuration moves exactly by `bridge_step`. The outcome names the
/// hyperlink dispatch if and only if the event is a hyperlink activation, a
/// hyperlink callback is installed, and the payload is well-formed wide
/// text — decoded exactly; an undecodable payload dispatches nothing. The
/// raw callback is to run precisely when one is installed.
pub fn handle_notification(
    conf: &mut TaskDialogConfig,
    hwnd: usize,
    notification: &TaskDialogNotification,
) -> (o: NotificationOutcome)
    ensures
        final(conf)@ == bridge_step(old(conf)@, hwnd, notification@),
        o.invoke_raw == old(conf)@.callback,
        o.code == S_OK,
        o.hyperlink matches Some(s) ==> old(conf)@.hyperlink_callback
            && (notification@ matches NotificationView::HyperlinkClicked { link }
                && wide_of(s@) == link),
        (old(conf)@.hyperlink_callback
            && (notification@ matches NotificationView::HyperlinkClicked { link }
                && is_wide_encoding(link))) ==> o.hyperlink is Some,
{
    let hyperlink: Option<String> = match notification {
        TaskDialogNotification::Created => {
            conf.dialog_hwnd = hwnd;
            None
        },
        TaskDialogNotification::Destroyed => {
            conf.is_destroyed = true;
            None
        },
        TaskDialogNotification::HyperlinkClicked { link } => {
            if conf.hyperlink_callback {
                decode_wide(link.as_slice())
            } else {
                None
            }
        },
        _ => None,
    };
    NotificationOutcome { hyperlink, invoke_raw: conf.callback, code: S_OK }
}

/// Running one more event is one more step.
proof fn lemma_bridge_run_push(
    c: ConfigView,
    events: Seq<(usize, NotificationView)>,
    e: (usize, NotificationView),
)
    ensures
        bridge_run(c, events.push(e)) == bridge_step(bridge_run(c, events), e.0, e.1),
    decreases events.len(),
{
    let extended = events.push(e);
    assert(extended.len() == events.len() + 1);
    assert(bridge_run(c, extended) == bridge_run(
        bridge_step(c, extended[0].0, extended[0].1),
        extended.drop_first(),
    ));
    if events.len() == 0 {
        assert(extended[0] == e);
        assert(extended.drop_first() =~= Seq::<(usize, NotificationView)>::empty());
        assert(bridge_run(bridge_step(c, e.0, e.1), extended.drop_first()) == bridge_step(
            c,
            e.0,
            e.1,
        ));
        assert(bridge_run(c, events) == c);
    } else {
        assert(extended[0] == events[0]);
        assert(extended.drop_first() =~= events.drop_first().push(e));
        lemma_bridge_run_push(bridge_step(c, events[0].0, events[0].1), events.drop_first(), e);
        assert(bridge_run(c, events) == bridge_run(
            bridge_step(c, events[0].0, events[0].1),
            events.drop_first(),
        ));
    }
}

/// A hyperlink activation whose payload is the encoding of this text.
pub open spec fn is_hyperlink_event_for(e: NotificationView, text: Seq<char>) -> bool {
    e matches NotificationView::HyperlinkClicked { link } && link == wide_of(text)
}

/// Some event of the stream is a hyperlink activation carrying this text.
pub open spec fn link_dispatched(events: Seq<(usize, NotificationView)>, text: Seq<char>) -> bool {
    exists|i: int| 0 <= i < events.len() && is_hyperlink_event_for(#[trigger] events[i].1, text)
}

/// Replays a recorded host notification stream through the bridge, one step
/// per event — each event paired with the window handle the host passed —
/// and collects the dispatched hyperlink texts in order. The configuration
/// ends exactly where `bridge_run` puts it; every collected text is the
/// exact decoding of some hyperlink activation in the stream, and without
/// an installed hyperlink callback nothing is collected.
pub fn run_notifications(
    conf: &mut TaskDialogConfig,
    events: &Vec<(usize, TaskDialogNotification)>,
) -> (links: Vec<String>)
    ensures
        final(conf)@ == bridge_run(
            old(conf)@,
            events@.map_values(|p: (usize, TaskDialogNotification)| p@),
        ),
        !old(conf)@.hyperlink_callback ==> links@.len() == 0,
        forall|k: int| 0 <= k < links@.len() ==> link_dispatched(
            events@.map_values(|p: (usize, TaskDialogNotification)| p@),
            #[trigger] links@[k]@,
        ),
{
    let ghost evs = events@.map_values(|p: (usize, TaskDialogNotification)| p@);
    let mut links: Vec<String> = Vec::new();
    let mut i: usize = 0;
    while i < events.len()
        invariant
            i <= events.len(),
            evs == events@.map_values(|p: (usize, TaskDialogNotification)| p@),
            conf@ == bridge_run(old(conf)@, evs.take(i as int)),
            conf@.hyperlink_callback == old(conf)@.hyperlink_callback,
            !old(conf)@.hyperlink_callback ==> links@.len() == 0,
            forall|k: int| 0 <= k < links@.len() ==> link_dispatched(
                evs.take(i as int),
                #[trigger] links@[k]@,
            ),
        decreases events.len() - i,
    {
        let ghost prior_links = links@;
        let outcome = handle_notification(conf, events[i].0, &events[i].1);
        proof {
            assert(evs[i as int] == (events@[i as int].0, events@[i as int].1@));
            assert(evs.take(i + 1) =~= evs.take(i as int).push(evs[i as int]));
            lemma_bridge_run_push(old(conf)@, evs.take(i as int), evs[i as int]);
        }
        match outcome.hyperlink {
            Some(text) => {
                proof {
                    assert(evs.take(i + 1)[i as int].1 == events@[i as int].1@);
                    assert(is_hyperlink_event_for(evs.take(i + 1)[i as int].1, text@));
                }
                links.push(text);
            },
            None => {},
        }
        proof {
            assert forall|k: int| 0 <= k < links@.len() implies link_dispatched(
                evs.take(i + 1),
                #[trigger] links@[k]@,
            ) by {
                if k < prior_links.len() {
                    let j = choose|j: int|
                        0 <= j < evs.take(i as int).len() && is_hyperlink_event_for(
                            #[trigger] evs.take(i as int)[j].1,
                            prior_links[k]@,
                        );
                    assert(evs.take(i + 1)[j] == evs.take(i as int)[j]);
                    assert(is_hyperlink_event_for(evs.take(i + 1)[j].1, links@[k]@));
                }
            }
        }
        i += 1;
    }
    proof {
        assert(evs.take(events@.len() as int) =~= evs);
    }
    links
}

/// Single-transition invariant: over any run of notifications, the destroyed
/// flag ends true exactly when it already was true or a "destroyed"
/// notification occurred — it moves from false to true at most once and no
/// later notification resets it.
pub proof fn lemma_destroyed_single_transition(
    c: ConfigView,
    events: Seq<(usize, NotificationView)>,
)
    ensures
        bridge_run(c, events).is_destroyed == (c.is_destroyed || exists|i: int|
            0 <= i < events.len() && events[i].1 is Destroyed),
    decreases events.len(),
{
    if events.len() > 0 {
        let c1 = bridge_step(c, events[0].0, events[0].1);
        lemma_destroyed_single_transition(c1, events.drop_first());
        if exists|i: int| 0 <= i < events.drop_first().len() && events.drop_first()[i].1
            is Destroyed {
            let i = choose|i: int|
                0 <= i < events.drop_first().len() && events.drop_first()[i].1 is Destroyed;
            assert(events[i + 1].1 is Destroyed);
        }
        if c1.is_destroyed && !c.is_destroyed {
            assert(events[0].1 is Destroyed);
        }
        if exists|i: int| 0 <= i < events.len() && events[i].1 is Destroyed {
            let i = choose|i: int| 0 <= i < events.len() && events[i].1 is Destroyed;
            if i > 0 {
                assert(events.drop_first()[i - 1].1 is Destroyed);
            }
        }
    }
}

/// Once created, the handle stays as the bridge last captured it: a run
/// without "created" notifications leaves the handle untouched.
pub proof fn lemma_handle_stable(c: ConfigView, events: Seq<(usize, NotificationView)>)
    requires
        forall|i: int| 0 <= i < events.len() ==> !(events[i].1 is Created),
    ensures
        bridge_run(c, events).dialog_hwnd == c.dialog_hwnd,
    decreases events.len(),
{
    if events.len() > 0 {
        let c1 = bridge_step(c, events[0].0, events[0].1);
        assert(forall|i: int| 0 <= i < events.drop_first().len() ==> !(events.drop_first()[i].1
            is Created));
        lemma_handle_stable(c1, events.drop_first());
    }
}

} // verus!
