use vstd::prelude::*;

use crate::bindings::HotkeyBinding;
use crate::config::MatchPolicy;
use crate::device::{AudioDevice, DeviceKind};
use crate::matcher::{find_best_match, resolves_to};

verus! {

/// A request to make the device named `target_name` the default of its kind.
pub struct SwitchRequest {
    pub kind: DeviceKind,
    pub target_name: String,
}

/// Why a switch did not happen.
pub enum SwitchError {
    /// No device matched the name under the policy.
    NoMatch { kind: DeviceKind, target_name: String, policy: MatchPolicy },
    /// A device matched, but making it the default failed.
    CommitFailed { kind: DeviceKind, device: AudioDevice, cause: String },
}

/// The switches that a binding asks for: the output device, then the input
/// device where one is named.
pub open spec fn requests_of(b: HotkeyBinding) -> Seq<SwitchRequest> {
    let output = SwitchRequest { kind: DeviceKind::Output, target_name: b.output_device_name };
    match b.input_device_name {
        Some(n) => seq![output, SwitchRequest { kind: DeviceKind::Input, target_name: n }],
        None => seq![output],
    }
}

/// The switches that `binding` asks for, output first.
pub fn switch_requests(binding: &HotkeyBinding) -> (r: Vec<SwitchRequest>)
    ensures
        r@ == requests_of(*binding),
{
    let mut out: Vec<SwitchRequest> = Vec::new();
    out.push(
        SwitchRequest { kind: DeviceKind::Output, target_name: binding.output_device_name.clone() },
    );
    match &binding.input_device_name {
        Some(n) => {
            out.push(SwitchRequest { kind: DeviceKind::Input, target_name: n.clone() });
        },
        None => {},
    }
    assert(out@ =~= requests_of(*binding));
    out
}

/// `r` is what resolving `req` against `devices` under `policy` gives: the
/// selected device, or `NoMatch` where none is selected.
pub open spec fn resolution(
    req: SwitchRequest,
    devices: Seq<AudioDevice>,
    policy: MatchPolicy,
    r: Result<AudioDevice, SwitchError>,
) -> bool {
    match r {
        Ok(d) => exists|i: usize|
            #[trigger] resolves_to(devices, req.target_name@, policy, Some(i)) && d
                == devices[i as int],
        Err(e) => resolves_to(devices, req.target_name@, policy, None) && e
            == SwitchError::NoMatch { kind: req.kind, target_name: req.target_name, policy },
    }
}

/// Resolves the device that `req` names among `devices`; the device to commit,
/// or `NoMatch`.
pub fn resolve_switch(req: &SwitchRequest, devices: &Vec<AudioDevice>, policy: MatchPolicy) -> (r:
    Result<AudioDevice, SwitchError>)
    ensures
        resolution(*req, devices@, policy, r),
{
    match find_best_match(&req.target_name, devices, policy) {
        Some(i) => Ok(devices[i].duplicate()),
        None => Err(
            SwitchError::NoMatch { kind: req.kind, target_name: req.target_name.clone(), policy },
        ),
    }
}

/// The outcome of a switch once the commit of `device` has returned `commit`:
/// the device's display name, or `CommitFailed` with the commit's cause.
pub fn commit_outcome(kind: DeviceKind, device: AudioDevice, commit: Result<(), String>) -> (r:
    Result<String, SwitchError>)
    ensures
        commit is Ok ==> r == Ok::<String, SwitchError>(device.name),
        commit matches Err(cause) ==> r == Err::<String, SwitchError>(
            SwitchError::CommitFailed { kind, device, cause },
        ),
{
    match commit {
        Ok(()) => Ok(device.name),
        Err(cause) => Err(SwitchError::CommitFailed { kind, device, cause }),
    }
}

} // verus!
