use vstd::prelude::*;

use crate::config::{Config, HotkeyMapping, MatchPolicy};
use crate::device::AudioDevice;
use crate::matcher::{find_best_match, resolution_unique_law, resolves_to};

verus! {

/// A configured device name that matches no device, with the hotkey that
/// names it.
pub struct MissingDevice {
    pub device_name: String,
    pub keys: String,
}

/// The start-up check of the configuration against the device snapshot: the
/// configured names that match nothing, and the names that are available.
pub struct DeviceReport {
    pub missing_output: Vec<MissingDevice>,
    pub missing_input: Vec<MissingDevice>,
    pub available_output: Vec<String>,
    pub available_input: Vec<String>,
}

/// `name` matches no device of `devices` under `policy`.
pub open spec fn unmatched(devices: Seq<AudioDevice>, name: Seq<char>, policy: MatchPolicy) -> bool {
    resolves_to(devices, name, policy, None)
}

/// The output names of the first `n` mappings that match no output device.
pub open spec fn missing_outputs(
    mappings: Seq<HotkeyMapping>,
    devices: Seq<AudioDevice>,
    policy: MatchPolicy,
    n: nat,
) -> Seq<MissingDevice>
    decreases n,
{
    if n == 0 {
        Seq::empty()
    } else {
        let prev = missing_outputs(mappings, devices, policy, (n - 1) as nat);
        let m = mappings[n - 1];
        if unmatched(devices, m.device_name@, policy) {
            prev.push(MissingDevice { device_name: m.device_name, keys: m.keys })
        } else {
            prev
        }
    }
}

/// The input names of the first `n` mappings that name one and match no
/// input device.
pub open spec fn missing_inputs(
    mappings: Seq<HotkeyMapping>,
    devices: Seq<AudioDevice>,
    policy: MatchPolicy,
    n: nat,
) -> Seq<MissingDevice>
    decreases n,
{
    if n == 0 {
        Seq::empty()
    } else {
        let prev = missing_inputs(mappings, devices, policy, (n - 1) as nat);
        let m = mappings[n - 1];
        match m.input_device_name {
            Some(name) => if unmatched(devices, name@, policy) {
                prev.push(MissingDevice { device_name: name, keys: m.keys })
            } else {
                prev
            },
            None => prev,
        }
    }
}

/// The display names of `devices`, in order.
pub open spec fn names_of(devices: Seq<AudioDevice>) -> Seq<String> {
    devices.map_values(|d: AudioDevice| d.name)
}

/// Whether `name` matches no device: the matcher run without a switch.
fn is_unmatched(name: &String, devices: &Vec<AudioDevice>, policy: MatchPolicy) -> (r: bool)
    ensures
        r == unmatched(devices@, name@, policy),
{
    let found = find_best_match(name, devices, policy);
    proof {
        if unmatched(devices@, name@, policy) {
            resolution_unique_law(devices@, name@, policy, found, None);
        }
    }
    found.is_none()
}

fn device_names(devices: &Vec<AudioDevice>) -> (r: Vec<String>)
    ensures
        r@ == names_of(devices@),
{
    let mut out: Vec<String> = Vec::new();
    let mut i: usize = 0;
    while i < devices.len()
        invariant
            i <= devices@.len(),
            out@ == names_of(devices@.subrange(0, i as int)),
        decreases devices@.len() - i,
    {
        out.push(devices[i].name.clone());
        i = i + 1;
        assert(names_of(devices@.subrange(0, i as int)) =~= names_of(
            devices@.subrange(0, i - 1 as int),
        ).push(devices@[i - 1].name));
    }
    assert(devices@.subrange(0, devices@.len() as int) =~= devices@);
    out
}

/// Checks every configured output and input name against the snapshot with
/// the configured policy, and lists the names that match nothing beside the
/// names that are available.
pub fn validate_configured_devices(
    config: &Config,
    outputs: &Vec<AudioDevice>,
    inputs: &Vec<AudioDevice>,
) -> (r: DeviceReport)
    ensures
        r.missing_output@ == missing_outputs(
            config.hotkeys@,
            outputs@,
            config.policy_spec(),
            config.hotkeys@.len(),
        ),
        r.missing_input@ == missing_inputs(
            config.hotkeys@,
            inputs@,
            config.policy_spec(),
            config.hotkeys@.len(),
        ),
        r.available_output@ == names_of(outputs@),
        r.available_input@ == names_of(inputs@),
{
    let policy = config.policy();
    let mut missing_output: Vec<MissingDevice> = Vec::new();
    let mut missing_input: Vec<MissingDevice> = Vec::new();
    let mut i: usize = 0;
    while i < config.hotkeys.len()
        invariant
            i <= config.hotkeys@.len(),
            policy == config.policy_spec(),
            missing_output@ == missing_outputs(config.hotkeys@, outputs@, policy, i as nat),
            missing_input@ == missing_inputs(config.hotkeys@, inputs@, policy, i as nat),
        decreases config.hotkeys@.len() - i,
    {
        let m = &config.hotkeys[i];
        if is_unmatched(&m.device_name, outputs, policy) {
            missing_output.push(
                MissingDevice { device_name: m.device_name.clone(), keys: m.keys.clone() },
            );
        }
        match &m.input_device_name {
            Some(name) => {
                if is_unmatched(name, inputs, policy) {
                    missing_input.push(
                        MissingDevice { device_name: name.clone(), keys: m.keys.clone() },
                    );
                }
            },
            None => {},
        }
        i = i + 1;
    }
    DeviceReport {
        missing_output,
        missing_input,
        available_output: device_names(outputs),
        available_input: device_names(inputs),
    }
}

} // verus!
