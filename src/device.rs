use vstd::prelude::*;

verus! {

/// An audio endpoint: a stable identifier and a display name.
#[derive(Debug)]
pub struct AudioDevice {
    pub id: String,
    pub name: String,
}

impl AudioDevice {
    /// A copy of this device.
    pub fn duplicate(&self) -> (r: AudioDevice)
        ensures
            r == *self,
    {
        AudioDevice { id: self.id.clone(), name: self.name.clone() }
    }
}

impl Clone for AudioDevice {
    fn clone(&self) -> (r: AudioDevice)
        ensures
            r == *self,
    {
        self.duplicate()
    }
}

impl PartialEq for AudioDevice {
    fn eq(&self, o: &AudioDevice) -> (r: bool) {
        self.id == o.id && self.name == o.name
    }
}

impl vstd::std_specs::cmp::PartialEqSpecImpl for AudioDevice {
    open spec fn obeys_eq_spec() -> bool {
        true
    }

    open spec fn eq_spec(&self, o: &AudioDevice) -> bool {
        self.id@ == o.id@ && self.name@ == o.name@
    }
}

impl Eq for AudioDevice {}

/// Which default device a switch changes.
#[derive(Clone, Copy, Debug, PartialEq, Eq, Structural)]
pub enum DeviceKind {
    Output,
    Input,
}

/// An endpoint as enumeration reports it: the name is `None` where the
/// display name could not be resolved.
pub struct RawEndpoint {
    pub id: String,
    pub name: Option<String>,
}

/// An endpoint is a usable switch target when it has an identifier and a name.
pub open spec fn is_usable(e: RawEndpoint) -> bool {
    e.id@.len() > 0 && e.name is Some
}

/// The devices kept from the endpoints `raw[0..n]`, in order.
pub open spec fn usable_prefix(raw: Seq<RawEndpoint>, n: nat) -> Seq<AudioDevice>
    decreases n,
{
    if n == 0 {
        Seq::empty()
    } else {
        let rest = usable_prefix(raw, (n - 1) as nat);
        let e = raw[n - 1];
        if is_usable(e) {
            rest.push(AudioDevice { id: e.id, name: e.name->Some_0 })
        } else {
            rest
        }
    }
}

/// Keeps the endpoints with a non-empty identifier and a resolved name, in
/// their order, and drops the others.
pub fn usable_devices(raw: &Vec<RawEndpoint>) -> (r: Vec<AudioDevice>)
    ensures
        r@ == usable_prefix(raw@, raw@.len()),
{
    let mut out: Vec<AudioDevice> = Vec::new();
    let mut i: usize = 0;
    while i < raw.len()
        invariant
            i <= raw@.len(),
            out@ == usable_prefix(raw@, i as nat),
        decreases raw@.len() - i,
    {
        let e = &raw[i];
        match &e.name {
            Some(n) => {
                if !e.id.as_str().is_empty() {
                    out.push(AudioDevice { id: e.id.clone(), name: n.clone() });
                }
            },
            None => {},
        }
        i = i + 1;
    }
    out
}

} // verus!
