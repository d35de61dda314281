use vstd::prelude::*;
use crate::instance::planned_layers;
use crate::names::validation_layer;
use crate::queue::QueueFamilyIndices;

verus! {

/// What logical-device creation will request from the driver: one
/// queue-creation descriptor for the graphics family — a single queue,
/// retrieved afterwards from slot 0 — and the layer names mirroring the
/// instance-level diagnostics decision. No present-family queue is
/// requested: presentation has no path yet. No device features are
/// requested beyond the defaults.
#[derive(Debug)]
pub struct DevicePlan {
    pub queue_family_index: u32,
    pub queue_count: u32,
    pub queue_slot: u32,
    pub layers: Vec<Vec<u8>>,
}

/// Decides what logical-device creation will request for the resolved
/// queue family indices: exactly one queue on the graphics family, the
/// queue handle to be fetched from slot 0, and the validation layer
/// mirrored at device level exactly when diagnostics are enabled.
pub fn plan_logical_device(indices: &QueueFamilyIndices, diagnostics: bool) -> (r: DevicePlan)
    ensures
        r.queue_family_index == indices.graphics,
        r.queue_count == 1,
        r.queue_slot == 0,
        r.layers@.map_values(|v: Vec<u8>| v@) == planned_layers(diagnostics),
{
    let mut layers: Vec<Vec<u8>> = Vec::new();
    if diagnostics {
        layers.push(validation_layer());
    }
    proof {
        assert(layers@.map_values(|v: Vec<u8>| v@) =~= planned_layers(diagnostics));
    }
    DevicePlan { queue_family_index: indices.graphics, queue_count: 1, queue_slot: 0, layers }
}

} // verus!
