use vstd::prelude::*;
use crate::bytes::contains_bytes;
use crate::bytes::find_bytes;
use crate::errors::DeviceRejection;
use crate::errors::NoSuitableDeviceError;
use crate::names::vendor_tag;
use crate::names::vendor_tag_name;
use crate::queue::QueueFamily;
use crate::queue::QueueFamilyIndices;
use crate::queue::has_graphics;
use crate::queue::has_present;
use crate::queue::resolves_to;

verus! {

/// What the application reads of one enumerated physical device: the
/// driver-reported name, and each queue family's capabilities taken against
/// the target surface, in driver-reported order.
#[derive(Debug)]
pub struct PhysicalDeviceInfo {
    pub name: Vec<u8>,
    pub families: Vec<QueueFamily>,
}

/// The suitability predicate: the device name carries the vendor tag, and
/// the device exposes both a graphics-capable family and a present-capable
/// family.
pub open spec fn device_suitable(d: PhysicalDeviceInfo) -> bool {
    &&& contains_bytes(d.name@, vendor_tag_name())
    &&& has_graphics(d.families@)
    &&& has_present(d.families@)
}

/// Applies the suitability predicate to one candidate device; on success
/// also yields the resolved queue family indices.
pub fn check_physical_device(device: &PhysicalDeviceInfo) -> (r: Result<
    QueueFamilyIndices,
    DeviceRejection,
>)
    requires
        device.families@.len() <= u32::MAX,
    ensures
        r is Ok <==> device_suitable(*device),
        r matches Ok(ix) ==> resolves_to(device.families@, ix),
        r == Result::<QueueFamilyIndices, DeviceRejection>::Err(DeviceRejection::WrongVendor)
            <==> !contains_bytes(device.name@, vendor_tag_name()),
{
    let tag = vendor_tag();
    if !find_bytes(&device.name, &tag) {
        return Err(DeviceRejection::WrongVendor);
    }
    match QueueFamilyIndices::resolve(&device.families) {
        Ok(ix) => Ok(ix),
        Err(_) => Err(DeviceRejection::MissingQueueFamilies),
    }
}

/// Index `i` is the first suitable candidate in enumeration order: it passes
/// the suitability predicate and every earlier candidate fails it.
pub open spec fn first_fit_at(devices: Seq<PhysicalDeviceInfo>, i: int) -> bool {
    &&& 0 <= i < devices.len()
    &&& device_suitable(devices[i])
    &&& forall|j: int| 0 <= j < i ==> !device_suitable(devices[j])
}

/// The selection outcome: the position of the chosen device in the
/// enumeration, and its resolved queue family indices.
#[derive(Clone, Copy, Debug, PartialEq, Eq, Structural)]
pub struct SelectedDevice {
    pub index: usize,
    pub indices: QueueFamilyIndices,
}

/// Walks the enumerated devices in driver-reported order and picks the
/// first one that passes the suitability predicate — first-fit, never a
/// later candidate. Fails exactly when no candidate passes.
pub fn select_physical_device(devices: &Vec<PhysicalDeviceInfo>) -> (r: Result<
    SelectedDevice,
    NoSuitableDeviceError,
>)
    requires
        forall|j: int| 0 <= j < devices@.len() ==> devices@[j].families@.len() <= u32::MAX,
    ensures
        r matches Ok(s) ==> first_fit_at(devices@, s.index as int) && resolves_to(
            devices@[s.index as int].families@,
            s.indices,
        ),
        r is Err <==> forall|j: int| 0 <= j < devices@.len() ==> !device_suitable(devices@[j]),
{
    let n = devices.len();
    let mut i: usize = 0;
    while i < n
        invariant
            n == devices@.len(),
            i <= n,
            forall|j: int| 0 <= j < devices@.len() ==> devices@[j].families@.len() <= u32::MAX,
            forall|j: int| 0 <= j < i ==> !device_suitable(devices@[j]),
        decreases n - i,
    {
        match check_physical_device(&devices[i]) {
            Ok(ix) => {
                return Ok(SelectedDevice { index: i, indices: ix });
            },
            Err(_) => {},
        }
        i = i + 1;
    }
    Err(NoSuitableDeviceError)
}

/// First-fit selection is deterministic: for one enumeration order with
/// fixed suitability outcomes there is at most one first-fit position, so
/// selection always yields the same device, never a later one that would
/// also pass.
pub proof fn lemma_first_fit_unique(devices: Seq<PhysicalDeviceInfo>, i1: int, i2: int)
    requires
        first_fit_at(devices, i1),
        first_fit_at(devices, i2),
    ensures
        i1 == i2,
{
    if i1 < i2 {
        assert(!device_suitable(devices[i1]));
    }
    if i2 < i1 {
        assert(!device_suitable(devices[i2]));
    }
}

} // verus!
