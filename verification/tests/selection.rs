use vk_bringup::errors::DeviceRejection;
use vk_bringup::queue::QueueFamily;
use vk_bringup::select::PhysicalDeviceInfo;
use vk_bringup::select::check_physical_device;
use vk_bringup::select::select_physical_device;

fn device(name: &str, families: Vec<(bool, bool)>) -> PhysicalDeviceInfo {
    PhysicalDeviceInfo {
        name: name.as_bytes().to_vec(),
        families: families
            .into_iter()
            .map(|(graphics, present)| QueueFamily { graphics, present })
            .collect(),
    }
}

#[test]
fn select_zero_devices_fails() {
    let devices: Vec<PhysicalDeviceInfo> = Vec::new();
    assert!(select_physical_device(&devices).is_err());
}

#[test]
fn select_takes_first_suitable_candidate() {
    // Both candidates pass: first-fit takes the first, never the second.
    let devices = vec![
        device("NVIDIA GeForce One", vec![(true, true)]),
        device("NVIDIA GeForce Two", vec![(true, true)]),
    ];
    let s = select_physical_device(&devices).unwrap();
    assert_eq!(s.index, 0);
}

#[test]
fn select_skips_unsuitable_candidates() {
    let devices = vec![
        device("AMD Radeon", vec![(true, true)]),
        device("NVIDIA GeForce", vec![(false, true), (true, false)]),
    ];
    let s = select_physical_device(&devices).unwrap();
    assert_eq!(s.index, 1);
    assert_eq!(s.indices.graphics, 1);
    assert_eq!(s.indices.present, 0);
}

#[test]
fn select_all_unsuitable_fails() {
    let devices = vec![
        device("AMD Radeon", vec![(true, true)]),
        device("NVIDIA GeForce", vec![(false, true)]),
    ];
    assert!(select_physical_device(&devices).is_err());
}

#[test]
fn check_rejects_wrong_vendor() {
    let d = device("Intel Arc", vec![(true, true)]);
    assert_eq!(check_physical_device(&d).unwrap_err(), DeviceRejection::WrongVendor);
}

#[test]
fn check_rejects_missing_queue_families() {
    let d = device("NVIDIA GeForce", vec![(false, false)]);
    assert_eq!(check_physical_device(&d).unwrap_err(), DeviceRejection::MissingQueueFamilies);
}

#[test]
fn check_accepts_vendor_tag_inside_longer_name() {
    let d = device("ACME NVIDIA-Edition Board", vec![(true, true)]);
    let ix = check_physical_device(&d).unwrap();
    assert_eq!(ix.graphics, 0);
    assert_eq!(ix.present, 0);
}
