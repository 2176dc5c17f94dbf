//! Global hotkeys that switch the default audio output and input devices.
//!
//! The library holds the decisions of the hotkey listener and of the
//! foreground coordinator: resolving a configured name against a snapshot of
//! devices, building the binding table from registration outcomes, and the
//! steps of the two polling loops. The platform work (device enumeration, the
//! default-device commit, hotkey registration, the tray icon) is done by the
//! caller, which hands the library plain values.

pub mod bindings;
pub mod config;
pub mod coordinator;
pub mod device;
pub mod listener;
pub mod matcher;
pub mod notice;
pub mod switch;
pub mod validate;

pub use bindings::{BindingTable, HotkeyBinding, RegistrationError};
pub use config::{Config, FuzzyMatchAlgorithm, HotkeyMapping, MatchPolicy, Threshold};
pub use coordinator::{coordinator_step, AppMessage, ChannelPoll, CoordinatorStep};
pub use device::{usable_devices, AudioDevice, DeviceKind, RawEndpoint};
pub use listener::{
    after_poll, next_state, Dispatch, FatalInit, HotkeyEvent, ListenerEvent, ListenerState,
    LoopStep, Session,
};
pub use matcher::{
    accepts, best_score_index, best_similarity_index, find_best_match, find_exact, more_similar,
    pick_by_threshold, similarity, Similarity,
};
pub use notice::missing_devices_notice;
pub use switch::{commit_outcome, resolve_switch, switch_requests, SwitchError, SwitchRequest};
pub use validate::{validate_configured_devices, DeviceReport, MissingDevice};
