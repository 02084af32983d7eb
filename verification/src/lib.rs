//! A portable model of a native task dialog: a caller-owned configuration is
//! marshaled into one self-contained native request, a notification bridge
//! demultiplexes host events into configuration state, and a live-update
//! channel turns post-creation mutations into explicit window messages.
//!
//! The operating system's dialog host (the blocking "show dialog" primitive
//! and the cross-thread "send message" primitive) is an outside collaborator:
//! every operation here computes the exact request or message value to hand
//! to it, so the logic can be exercised and checked against a mocked host.

pub mod bridge;
pub mod config;
pub mod constants;
pub mod engine;
pub mod live;
pub mod marshal;
pub mod wide;

pub use bridge::NotificationOutcome;
pub use bridge::NotificationView;
pub use bridge::TaskDialogNotification;
pub use bridge::bridge_run;
pub use bridge::bridge_step;
pub use bridge::handle_notification;
pub use bridge::run_notifications;
pub use config::ButtonView;
pub use config::ConfigView;
pub use config::TaskDialogButton;
pub use config::TaskDialogConfig;
pub use config::live_update_ready;
pub use engine::EngineAction;
pub use engine::ExecuteOption;
pub use engine::TaskDialogError;
pub use engine::TaskDialogResult;
pub use engine::decode_dialog_outcome;
pub use engine::execute_task_dialog;
pub use engine::show_msg_dialog;
pub use engine::show_task_dialog;
pub use live::DialogMessage;
pub use live::OutboundSend;
pub use live::message_kind;
pub use marshal::NativeButton;
pub use marshal::NativeRequest;
pub use marshal::marshal;
pub use marshal::marshal_view;
pub use wide::is_wide_encoding;
pub use wide::wide_of;
pub use wide::wide_units;
