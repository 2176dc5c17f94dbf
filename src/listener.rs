use vstd::prelude::*;

use crate::bindings::{errors_after, table_after, BindingTable, RegistrationError};
use crate::config::{Config, MatchPolicy};
use crate::device::{AudioDevice, DeviceKind};
use crate::switch::{requests_of, resolution, resolve_switch, switch_requests, SwitchError, SwitchRequest};

verus! {

/// The phases of the hotkey listener.
#[derive(Clone, Copy, Debug, PartialEq, Eq, Structural)]
pub enum ListenerState {
    /// Registering hotkeys and taking the device snapshot.
    Starting,
    /// Polling for hotkey events, native messages and the shutdown signal.
    Running,
    /// Unregistering the hotkeys.
    Draining,
    /// Finished; the listener thread returns.
    Stopped,
}

/// What moves the listener from one phase to the next.
#[derive(Clone, Copy, Debug, PartialEq, Eq, Structural)]
pub enum ListenerEvent {
    StartupSucceeded,
    StartupFailed,
    ShutdownObserved,
    Drained,
}

/// The phase that follows `s` on `e`; the phase stays where `e` does not
/// apply to it.
pub open spec fn next_state_spec(s: ListenerState, e: ListenerEvent) -> ListenerState {
    match (s, e) {
        (ListenerState::Starting, ListenerEvent::StartupSucceeded) => ListenerState::Running,
        (ListenerState::Starting, ListenerEvent::StartupFailed) => ListenerState::Stopped,
        (ListenerState::Running, ListenerEvent::ShutdownObserved) => ListenerState::Draining,
        (ListenerState::Draining, ListenerEvent::Drained) => ListenerState::Stopped,
        _ => s,
    }
}

/// The phase that follows `s` on `e`.
pub fn next_state(s: ListenerState, e: ListenerEvent) -> (r: ListenerState)
    ensures
        r == next_state_spec(s, e),
{
    match (s, e) {
        (ListenerState::Starting, ListenerEvent::StartupSucceeded) => ListenerState::Running,
        (ListenerState::Starting, ListenerEvent::StartupFailed) => ListenerState::Stopped,
        (ListenerState::Running, ListenerEvent::ShutdownObserved) => ListenerState::Draining,
        (ListenerState::Draining, ListenerEvent::Drained) => ListenerState::Stopped,
        _ => s,
    }
}

/// A hotkey event as the platform reports it.
#[derive(Clone, Copy, Debug, PartialEq, Eq, Structural)]
pub struct HotkeyEvent {
    pub id: u32,
    pub pressed: bool,
}

/// What the listener does with one hotkey event.
pub enum Dispatch {
    /// A release, which switches nothing.
    Ignored,
    /// A press of a hotkey that the table does not hold: a warning, no switch.
    UnknownHotkey(u32),
    /// A press of a registered hotkey: these switches, in order.
    Switch(Vec<SwitchRequest>),
}

/// What the poll loop does at the end of one iteration.
#[derive(Clone, Copy, Debug, PartialEq, Eq, Structural)]
pub enum LoopStep {
    /// Poll again at once.
    Continue,
    /// Sleep briefly, then poll again.
    Sleep,
    /// Leave the loop and drain.
    Stop,
}

/// The end of one poll iteration: stop once the shutdown signal is seen;
/// otherwise sleep only where the iteration found neither a hotkey event nor a
/// native message.
pub open spec fn poll_step(event_found: bool, message_handled: bool, shutdown: bool) -> LoopStep {
    if shutdown {
        LoopStep::Stop
    } else if event_found || message_handled {
        LoopStep::Continue
    } else {
        LoopStep::Sleep
    }
}

/// The end of one poll iteration: stop once the shutdown signal is seen;
/// otherwise sleep only where the iteration found neither a hotkey event nor a
/// native message.
pub fn after_poll(event_found: bool, message_handled: bool, shutdown: bool) -> (r: LoopStep)
    ensures
        r == poll_step(event_found, message_handled, shutdown),
{
    if shutdown {
        LoopStep::Stop
    } else if event_found || message_handled {
        LoopStep::Continue
    } else {
        LoopStep::Sleep
    }
}

/// A failure before the poll loop starts, which stops the listener.
pub enum FatalInit {
    /// The output devices could not be listed.
    OutputEnumeration(String),
    /// The input devices could not be listed.
    InputEnumeration(String),
}

/// What the listener holds while it runs: the binding table, the device
/// snapshot and the matching policy.
pub struct Session {
    pub table: BindingTable,
    pub outputs: Vec<AudioDevice>,
    pub inputs: Vec<AudioDevice>,
    pub policy: MatchPolicy,
}

impl Session {
    /// The listener's start-up: the binding table from the registration
    /// outcomes, and the device snapshot from the enumeration outcomes. A
    /// failed enumeration is fatal; failed registrations are reported beside
    /// the session.
    pub fn start(
        config: &Config,
        registrations: &Vec<Result<u32, String>>,
        outputs: Result<Vec<AudioDevice>, String>,
        inputs: Result<Vec<AudioDevice>, String>,
    ) -> (r: Result<(Session, Vec<RegistrationError>), FatalInit>)
        requires
            config.hotkeys@.len() == registrations@.len(),
        ensures
            match outputs {
                Err(e) => r matches Err(FatalInit::OutputEnumeration(m)) && m == e,
                Ok(o) => match inputs {
                    Err(e) => r matches Err(FatalInit::InputEnumeration(m)) && m == e,
                    Ok(d) => r matches Ok((s, errors)) && {
                        &&& s.outputs@ == o@
                        &&& s.inputs@ == d@
                        &&& s.policy == config.policy_spec()
                        &&& s.table@ == table_after(
                            config.hotkeys@,
                            registrations@,
                            config.hotkeys@.len(),
                        )
                        &&& errors@ == errors_after(
                            config.hotkeys@,
                            registrations@,
                            config.hotkeys@.len(),
                        )
                    },
                },
            },
    {
        let outputs = match outputs {
            Ok(d) => d,
            Err(e) => {
                return Err(FatalInit::OutputEnumeration(e));
            },
        };
        let inputs = match inputs {
            Ok(d) => d,
            Err(e) => {
                return Err(FatalInit::InputEnumeration(e));
            },
        };
        let (table, errors) = BindingTable::build(&config.hotkeys, registrations);
        Ok((Session { table, outputs, inputs, policy: config.policy() }, errors))
    }

    /// What one hotkey event calls for: nothing on a release, a warning on a
    /// press of an unknown id, and the binding's switches on a press of a
    /// registered one.
    pub fn dispatch(&self, event: HotkeyEvent) -> (r: Dispatch)
        ensures
            !event.pressed ==> r is Ignored,
            event.pressed && !self.table@.contains_key(event.id) ==> r == Dispatch::UnknownHotkey(
                event.id,
            ),
            event.pressed && self.table@.contains_key(event.id) ==> (r matches Dispatch::Switch(
                reqs) && reqs@ == requests_of(self.table@[event.id])),
    {
        if !event.pressed {
            return Dispatch::Ignored;
        }
        match self.table.get(event.id) {
            Some(binding) => Dispatch::Switch(switch_requests(binding)),
            None => Dispatch::UnknownHotkey(event.id),
        }
    }

    /// The snapshot of the devices of `kind`.
    pub open spec fn devices_of(&self, kind: DeviceKind) -> Seq<AudioDevice> {
        match kind {
            DeviceKind::Output => self.outputs@,
            DeviceKind::Input => self.inputs@,
        }
    }

    /// Resolves a switch request against the snapshot of its kind.
    pub fn resolve(&self, req: &SwitchRequest) -> (r: Result<AudioDevice, SwitchError>)
        ensures
            resolution(*req, self.devices_of(req.kind), self.policy, r),
    {
        match req.kind {
            DeviceKind::Output => resolve_switch(req, &self.outputs, self.policy),
            DeviceKind::Input => resolve_switch(req, &self.inputs, self.policy),
        }
    }
}

/// Once the shutdown signal is seen the running listener leaves its loop in
/// that same iteration, without sleeping, whatever else the iteration found;
/// draining then takes it to `Stopped`.
pub proof fn shutdown_law(event_found: bool, message_handled: bool)
    ensures
        poll_step(event_found, message_handled, true) == LoopStep::Stop,
        next_state_spec(ListenerState::Running, ListenerEvent::ShutdownObserved)
            == ListenerState::Draining,
        next_state_spec(ListenerState::Draining, ListenerEvent::Drained) == ListenerState::Stopped,
{
}

/// The sleep is never entered in an iteration that found work.
pub proof fn no_sleep_after_work_law(event_found: bool, message_handled: bool, shutdown: bool)
    requires
        event_found || message_handled,
    ensures
        poll_step(event_found, message_handled, shutdown) != LoopStep::Sleep,
{
}

} // verus!
