use vstd::prelude::*;

use crate::config::HotkeyMapping;
use std::collections::HashMap;

verus! {

broadcast use vstd::std_specs::hash::group_hash_axioms;

/// What a registered hotkey switches to.
pub struct HotkeyBinding {
    pub hotkey_id: u32,
    pub output_device_name: String,
    pub input_device_name: Option<String>,
}

/// A configured hotkey whose key combination could not be parsed or registered.
pub struct RegistrationError {
    pub keys: String,
    pub cause: String,
}

/// The bindings of the registered hotkeys, keyed by hotkey id.
pub struct BindingTable {
    map: HashMap<u32, HotkeyBinding>,
}

impl View for BindingTable {
    type V = Map<u32, HotkeyBinding>;

    closed spec fn view(&self) -> Map<u32, HotkeyBinding> {
        self.map@
    }
}

/// The binding that the mapping `m` gets once registered under `id`.
pub open spec fn binding_of(m: HotkeyMapping, id: u32) -> HotkeyBinding {
    HotkeyBinding {
        hotkey_id: id,
        output_device_name: m.device_name,
        input_device_name: m.input_device_name,
    }
}

/// The table after the first `n` mappings, each inserted under the id that
/// its registration gave, and skipped where its registration failed.
pub open spec fn table_after(
    mappings: Seq<HotkeyMapping>,
    registrations: Seq<Result<u32, String>>,
    n: nat,
) -> Map<u32, HotkeyBinding>
    decreases n,
{
    if n == 0 {
        Map::empty()
    } else {
        let prev = table_after(mappings, registrations, (n - 1) as nat);
        match registrations[n - 1] {
            Ok(id) => prev.insert(id, binding_of(mappings[n - 1], id)),
            Err(_) => prev,
        }
    }
}

/// The failures among the first `n` registrations, in order.
pub open spec fn errors_after(
    mappings: Seq<HotkeyMapping>,
    registrations: Seq<Result<u32, String>>,
    n: nat,
) -> Seq<RegistrationError>
    decreases n,
{
    if n == 0 {
        Seq::empty()
    } else {
        let prev = errors_after(mappings, registrations, (n - 1) as nat);
        match registrations[n - 1] {
            Ok(_) => prev,
            Err(cause) => prev.push(RegistrationError { keys: mappings[n - 1].keys, cause }),
        }
    }
}

fn copy_name(s: &Option<String>) -> (r: Option<String>)
    ensures
        r == *s,
{
    match s {
        Some(n) => Some(n.clone()),
        None => None,
    }
}

impl BindingTable {
    /// Builds the table from the configured mappings and the outcome of
    /// registering each one (`registrations[i]` belongs to `mappings[i]`). A
    /// failed registration is reported and leaves the other entries as they
    /// are.
    pub fn build(mappings: &Vec<HotkeyMapping>, registrations: &Vec<Result<u32, String>>) -> (r: (
        BindingTable,
        Vec<RegistrationError>,
    ))
        requires
            mappings@.len() == registrations@.len(),
        ensures
            r.0@ == table_after(mappings@, registrations@, mappings@.len()),
            r.1@ == errors_after(mappings@, registrations@, mappings@.len()),
    {
        let mut map: HashMap<u32, HotkeyBinding> = HashMap::new();
        let mut errors: Vec<RegistrationError> = Vec::new();
        let mut i: usize = 0;
        while i < mappings.len()
            invariant
                i <= mappings@.len(),
                mappings@.len() == registrations@.len(),
                map@ == table_after(mappings@, registrations@, i as nat),
                errors@ == errors_after(mappings@, registrations@, i as nat),
            decreases mappings@.len() - i,
        {
            let m = &mappings[i];
            match &registrations[i] {
                Ok(id) => {
                    let binding = HotkeyBinding {
                        hotkey_id: *id,
                        output_device_name: m.device_name.clone(),
                        input_device_name: copy_name(&m.input_device_name),
                    };
                    map.insert(*id, binding);
                },
                Err(cause) => {
                    errors.push(RegistrationError { keys: m.keys.clone(), cause: cause.clone() });
                },
            }
            i = i + 1;
        }
        (BindingTable { map }, errors)
    }

    /// The binding registered under `id`, if any.
    pub fn get(&self, id: u32) -> (r: Option<&HotkeyBinding>)
        ensures
            r matches Some(b) ==> self@.contains_key(id) && *b == self@[id],
            r is None ==> !self@.contains_key(id),
    {
        self.map.get(&id)
    }

    /// The number of registered bindings.
    pub fn len(&self) -> (r: usize)
        ensures
            r == self@.len(),
    {
        self.map.len()
    }
}

/// A failed registration takes nothing from the others: an entry registered
/// under an id that no other entry got stays dispatchable, with its own
/// devices, whatever became of the other entries.
pub proof fn partial_failure_law(
    mappings: Seq<HotkeyMapping>,
    registrations: Seq<Result<u32, String>>,
    i: int,
    id: u32,
)
    requires
        mappings.len() == registrations.len(),
        0 <= i < registrations.len(),
        registrations[i] == Ok::<u32, String>(id),
        forall|j: int|
            0 <= j < registrations.len() && j != i ==> #[trigger] registrations[j] != Ok::<
                u32,
                String,
            >(id),
    ensures
        table_after(mappings, registrations, mappings.len()).contains_key(id),
        table_after(mappings, registrations, mappings.len())[id] == binding_of(mappings[i], id),
{
    lemma_entry_kept(mappings, registrations, i, id, mappings.len());
}

proof fn lemma_entry_kept(
    mappings: Seq<HotkeyMapping>,
    registrations: Seq<Result<u32, String>>,
    i: int,
    id: u32,
    n: nat,
)
    requires
        i < n <= registrations.len(),
        0 <= i,
        registrations[i] == Ok::<u32, String>(id),
        forall|j: int|
            0 <= j < registrations.len() && j != i ==> #[trigger] registrations[j] != Ok::<
                u32,
                String,
            >(id),
    ensures
        table_after(mappings, registrations, n).contains_key(id),
        table_after(mappings, registrations, n)[id] == binding_of(mappings[i], id),
    decreases n,
{
    if n > i + 1 {
        lemma_entry_kept(mappings, registrations, i, id, (n - 1) as nat);
        assert(registrations[n - 1] != Ok::<u32, String>(id));
    }
}

} // verus!
