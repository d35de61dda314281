use vk_bringup::instance::plan_instance;

fn names(list: Vec<&str>) -> Vec<Vec<u8>> {
    list.into_iter().map(|s| s.as_bytes().to_vec()).collect()
}

#[test]
fn plan_with_diagnostics_appends_extension_and_layer() {
    let required = names(vec!["VK_KHR_surface", "VK_KHR_xlib_surface"]);
    let available = names(vec!["VK_LAYER_MESA_overlay", "VK_LAYER_KHRONOS_validation"]);
    let p = plan_instance(&required, &available, true).unwrap();
    assert_eq!(
        p.extensions,
        names(vec!["VK_KHR_surface", "VK_KHR_xlib_surface", "VK_EXT_debug_utils"])
    );
    assert_eq!(p.layers, names(vec!["VK_LAYER_KHRONOS_validation"]));
    assert!(p.register_messenger);
}

#[test]
fn plan_fails_when_validation_layer_absent() {
    // Diagnostics requested but the expected layer is missing: the plan is
    // refused before anything could be created.
    let required = names(vec!["VK_KHR_surface"]);
    let available = names(vec!["VK_LAYER_MESA_overlay"]);
    assert!(plan_instance(&required, &available, true).is_err());
}

#[test]
fn plan_fails_when_no_layers_offered() {
    let required = names(vec!["VK_KHR_surface"]);
    let available: Vec<Vec<u8>> = Vec::new();
    assert!(plan_instance(&required, &available, true).is_err());
}

#[test]
fn plan_without_diagnostics_requests_nothing_extra() {
    // Release configuration: no diagnostic extension, no layer, no
    // messenger — even when the layer happens to be available.
    let required = names(vec!["VK_KHR_surface", "VK_KHR_xlib_surface"]);
    let available = names(vec!["VK_LAYER_KHRONOS_validation"]);
    let p = plan_instance(&required, &available, false).unwrap();
    assert_eq!(p.extensions, names(vec!["VK_KHR_surface", "VK_KHR_xlib_surface"]));
    assert!(p.layers.is_empty());
    assert!(!p.register_messenger);
}

#[test]
fn plan_without_diagnostics_ignores_missing_layer() {
    let required = names(vec![]);
    let available = names(vec![]);
    let p = plan_instance(&required, &available, false).unwrap();
    assert!(p.extensions.is_empty());
    assert!(p.layers.is_empty());
    assert!(!p.register_messenger);
}
