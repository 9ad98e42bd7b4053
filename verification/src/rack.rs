//! Rack model: the live rack of a session and its reusable saved form.
//!
//! Loading a definition produces an independent instance; saving an edited
//! instance always mints a new definition asset. The runtime applies a single
//! plugin slot, so a definition with more than one active plugin device is
//! rejected before it is applied. Device settings that the rules here never
//! read (gain, parameter values) are carried in the payload `P`, and macro
//! controls in `M`.

use vstd::prelude::*;
use crate::asset::{Asset, AssetKind, is_minted_id};
use crate::text::{to_string, u64_to_decimal, append_str, decimal, opt_view};

verus! {

broadcast use vstd::string::group_string_axioms;

/// Role of a slot in the rack signal chain.
#[derive(Clone, Copy, Debug, PartialEq, Eq, Hash, Structural)]
pub enum DeviceKind {
    Input,
    Plugin,
    Utility,
    Output,
}

/// One slot of a rack.
#[derive(Clone, Debug, PartialEq)]
pub struct RackDevice<P> {
    pub id: String,
    pub name: String,
    pub kind: DeviceKind,
    pub path: Option<String>,
    pub bypassed: bool,
    pub state_data: Option<String>,
    pub disabled_placeholder: bool,
    pub settings: P,
}

/// Whether a device is a plugin the runtime would apply.
pub open spec fn is_active_plugin<P>(d: RackDevice<P>) -> bool {
    d.kind == DeviceKind::Plugin && !d.disabled_placeholder
}

/// Number of active plugin devices among the first `n` devices.
pub open spec fn active_plugin_count<P>(devices: Seq<RackDevice<P>>, n: int) -> nat
    decreases n,
{
    if n <= 0 {
        0
    } else {
        active_plugin_count(devices, n - 1) + if is_active_plugin(devices[n - 1]) { 1nat } else { 0nat }
    }
}

/// A reusable, saved rack.
pub struct RackDefinition<P, M> {
    pub devices: Vec<RackDevice<P>>,
    pub macros: Vec<M>,
}

/// The live rack of a session.
pub struct RackInstance<P, M> {
    pub devices: Vec<RackDevice<P>>,
    pub macros: Vec<M>,
}

/// The rejection message for a rack with `n` active plugin devices.
pub open spec fn unsupported_rack_message(n: nat) -> Seq<char> {
    "unsupported rack definition: the runtime supports a single plugin device but this definition carries "@ + decimal(n)
}

/// `b` is a copy of device `a`: the same fields, and a clone of its
/// settings.
pub open spec fn device_copied<P: Clone>(a: RackDevice<P>, b: RackDevice<P>) -> bool {
    &&& b.id@ == a.id@
    &&& b.name@ == a.name@
    &&& b.kind == a.kind
    &&& opt_view(b.path) == opt_view(a.path)
    &&& b.bypassed == a.bypassed
    &&& opt_view(b.state_data) == opt_view(a.state_data)
    &&& b.disabled_placeholder == a.disabled_placeholder
    &&& cloned(a.settings, b.settings)
}

/// Copies one device.
pub fn copy_device<P: Clone>(d: &RackDevice<P>) -> (c: RackDevice<P>)
    ensures
        device_copied(*d, c),
{
    RackDevice {
        id: d.id.clone(),
        name: d.name.clone(),
        kind: d.kind,
        path: match &d.path { Some(p) => Some(p.clone()), None => None },
        bypassed: d.bypassed,
        state_data: match &d.state_data { Some(p) => Some(p.clone()), None => None },
        disabled_placeholder: d.disabled_placeholder,
        settings: d.settings.clone(),
    }
}

/// Copies a list of devices.
pub fn copy_devices<P: Clone>(v: &Vec<RackDevice<P>>) -> (c: Vec<RackDevice<P>>)
    ensures
        c@.len() == v@.len(),
        forall|i: int| 0 <= i < v@.len() ==> device_copied(v@[i], #[trigger] c@[i]),
{
    let mut c: Vec<RackDevice<P>> = Vec::new();
    let mut i: usize = 0;
    while i < v.len()
        invariant
            i <= v@.len(),
            c@.len() == i,
            forall|k: int| 0 <= k < i ==> device_copied(v@[k], #[trigger] c@[k]),
        decreases v@.len() - i,
    {
        c.push(copy_device(&v[i]));
        i += 1;
    }
    c
}

/// Copies a list of macro controls.
pub fn copy_macros<M: Clone>(v: &Vec<M>) -> (c: Vec<M>)
    ensures
        c@.len() == v@.len(),
        forall|i: int| 0 <= i < v@.len() ==> cloned(v@[i], #[trigger] c@[i]),
{
    let mut c: Vec<M> = Vec::new();
    let mut i: usize = 0;
    while i < v.len()
        invariant
            i <= v@.len(),
            c@.len() == i,
            forall|k: int| 0 <= k < i ==> cloned(v@[k], #[trigger] c@[k]),
        decreases v@.len() - i,
    {
        c.push(v[i].clone());
        i += 1;
    }
    c
}

impl<P: Clone, M: Clone> RackDefinition<P, M> {
    /// Builds a definition from a copy of a live instance; later edits of
    /// either do not affect the other.
    pub fn from_instance(instance: &RackInstance<P, M>) -> (d: RackDefinition<P, M>)
        ensures
            d.devices@.len() == instance.devices@.len(),
            forall|i: int| 0 <= i < d.devices@.len() ==> device_copied(instance.devices@[i], #[trigger] d.devices@[i]),
            d.macros@.len() == instance.macros@.len(),
            forall|i: int| 0 <= i < d.macros@.len() ==> cloned(instance.macros@[i], #[trigger] d.macros@[i]),
    {
        RackDefinition { devices: copy_devices(&instance.devices), macros: copy_macros(&instance.macros) }
    }
}

impl<P, M> RackDefinition<P, M> {
    /// Accepts a definition with at most one active plugin device (disabled
    /// placeholders do not count).
    pub fn runtime_supported(&self) -> (r: Result<(), String>)
        ensures
            active_plugin_count(self.devices@, self.devices@.len() as int) <= 1 ==> r is Ok,
            active_plugin_count(self.devices@, self.devices@.len() as int) > 1 ==> (r matches Err(e)
                && e@ == unsupported_rack_message(active_plugin_count(self.devices@, self.devices@.len() as int))),
    {
        let mut count: u64 = 0;
        let mut i: usize = 0;
        while i < self.devices.len()
            invariant
                i <= self.devices@.len(),
                count == active_plugin_count(self.devices@, i as int),
                count <= i,
            decreases self.devices@.len() - i,
        {
            let d = &self.devices[i];
            if d.kind == DeviceKind::Plugin && !d.disabled_placeholder {
                count += 1;
            }
            i += 1;
        }
        if count > 1 {
            let mut m = to_string("unsupported rack definition: the runtime supports a single plugin device but this definition carries ");
            let n = u64_to_decimal(count);
            append_str(&mut m, n.as_str());
            return Err(m);
        }
        Ok(())
    }

    /// The position of the single device the runtime applies: the first
    /// active plugin device, skipping disabled placeholders.
    pub fn active_plugin_device(&self) -> (r: Option<usize>)
        ensures
            match r {
                Some(i) => i < self.devices@.len() && is_active_plugin(self.devices@[i as int])
                    && forall|k: int| 0 <= k < i ==> !is_active_plugin(#[trigger] self.devices@[k]),
                None => forall|k: int| 0 <= k < self.devices@.len() ==> !is_active_plugin(#[trigger] self.devices@[k]),
            },
    {
        let mut i: usize = 0;
        while i < self.devices.len()
            invariant
                i <= self.devices@.len(),
                forall|k: int| 0 <= k < i ==> !is_active_plugin(#[trigger] self.devices@[k]),
            decreases self.devices@.len() - i,
        {
            let d = &self.devices[i];
            if d.kind == DeviceKind::Plugin && !d.disabled_placeholder {
                return Some(i);
            }
            i += 1;
        }
        None
    }

    /// Saves this definition as a brand-new `RackDefinition` asset with a
    /// fresh id; a definition is never overwritten in place.
    pub fn save_as_new_asset(&self, name: String, content_location: String, now_ms: u64) -> (a: Asset)
        ensures
            is_minted_id(a.id@),
            a.kind == AssetKind::RackDefinition,
            a.name == name,
            a.content_location == content_location,
            a.created_at_ms == now_ms,
            a.provenance is None,
    {
        Asset::register(AssetKind::RackDefinition, name, content_location, None, now_ms)
    }
}

impl<P: Clone, M: Clone> RackInstance<P, M> {
    /// Loads a copy of a definition into a fresh, independent instance.
    pub fn from_definition(definition: &RackDefinition<P, M>) -> (r: RackInstance<P, M>)
        ensures
            r.devices@.len() == definition.devices@.len(),
            forall|i: int| 0 <= i < r.devices@.len() ==> device_copied(definition.devices@[i], #[trigger] r.devices@[i]),
            r.macros@.len() == definition.macros@.len(),
            forall|i: int| 0 <= i < r.macros@.len() ==> cloned(definition.macros@[i], #[trigger] r.macros@[i]),
    {
        RackInstance { devices: copy_devices(&definition.devices), macros: copy_macros(&definition.macros) }
    }
}

} // verus!
