use vkboot::device::{
    bytes_eq, candidate_reports, check_device_extensions, check_physical_device, contains_name,
    find_queue_families, has_graphics_family, pick_physical_device, queue_create_family_indices,
    required_device_extensions, PhysicalDeviceInfo, QueueFamily, QueueFamilyIndices,
};
use vkboot::error::{DeviceError, SuitabilityReason};
use vkboot::swapchain::SurfaceFormat;

fn family(graphics: bool, present: bool) -> QueueFamily {
    QueueFamily { supports_graphics: graphics, supports_present: present }
}

fn some_format() -> SurfaceFormat {
    SurfaceFormat { format: 44, color_space: 0 }
}

fn suitable_device() -> PhysicalDeviceInfo {
    PhysicalDeviceInfo {
        queue_families: vec![family(true, true)],
        extensions: required_device_extensions(),
        formats: vec![some_format()],
        present_modes: vec![2],
    }
}

fn device_without_graphics() -> PhysicalDeviceInfo {
    PhysicalDeviceInfo {
        queue_families: vec![family(false, true), family(false, true)],
        extensions: required_device_extensions(),
        formats: vec![some_format()],
        present_modes: vec![2],
    }
}

#[test]
fn skips_graphicsless_device_in_front() {
    let devices = vec![device_without_graphics(), suitable_device()];
    let picked = pick_physical_device(&devices).unwrap();
    assert_eq!(picked.index, 1);
}

#[test]
fn skips_graphicsless_device_in_back() {
    let devices = vec![suitable_device(), device_without_graphics()];
    let picked = pick_physical_device(&devices).unwrap();
    assert_eq!(picked.index, 0);
}

#[test]
fn only_graphicsless_devices_is_fatal() {
    let devices = vec![device_without_graphics(), device_without_graphics()];
    assert_eq!(pick_physical_device(&devices), Err(DeviceError::NoSuitableDevice));
}

#[test]
fn no_devices_is_fatal() {
    let devices: Vec<PhysicalDeviceInfo> = Vec::new();
    assert_eq!(pick_physical_device(&devices), Err(DeviceError::NoSuitableDevice));
}

#[test]
fn first_fit_takes_earliest_suitable() {
    let devices = vec![suitable_device(), suitable_device()];
    let picked = pick_physical_device(&devices).unwrap();
    assert_eq!(picked.index, 0);
}

#[test]
fn queue_family_search_prefers_first_index_per_capability() {
    let families = vec![
        family(false, false),
        family(true, false),
        family(true, true),
        family(false, true),
    ];
    let ix = find_queue_families(&families).unwrap();
    assert_eq!(ix, QueueFamilyIndices { graphics: 1, present: 2 });
}

#[test]
fn queue_family_search_allows_coinciding_family() {
    let families = vec![family(true, true)];
    let ix = find_queue_families(&families).unwrap();
    assert_eq!(ix, QueueFamilyIndices { graphics: 0, present: 0 });
}

#[test]
fn queue_family_search_fails_without_either_capability() {
    assert!(find_queue_families(&vec![family(false, true)]).is_none());
    assert!(find_queue_families(&vec![family(true, false)]).is_none());
    assert!(find_queue_families(&Vec::new()).is_none());
}

#[test]
fn rejection_reason_no_graphics() {
    let dev = device_without_graphics();
    assert_eq!(
        check_physical_device(&dev),
        Err(SuitabilityReason::NoGraphicsQueueFamily)
    );
    assert!(!has_graphics_family(&dev.queue_families));
}

#[test]
fn rejection_reason_no_present() {
    let mut dev = suitable_device();
    dev.queue_families = vec![family(true, false)];
    assert_eq!(check_physical_device(&dev), Err(SuitabilityReason::NoPresentQueueFamily));
}

#[test]
fn rejection_reason_missing_extension() {
    let mut dev = suitable_device();
    dev.extensions = vec![b"VK_KHR_maintenance1".to_vec()];
    assert_eq!(
        check_physical_device(&dev),
        Err(SuitabilityReason::MissingRequiredExtension)
    );
}

#[test]
fn rejection_reason_no_formats() {
    let mut dev = suitable_device();
    dev.formats = Vec::new();
    assert_eq!(check_physical_device(&dev), Err(SuitabilityReason::NoSurfaceFormats));
}

#[test]
fn rejection_reason_no_present_modes() {
    let mut dev = suitable_device();
    dev.present_modes = Vec::new();
    assert_eq!(check_physical_device(&dev), Err(SuitabilityReason::NoPresentModes));
}

#[test]
fn suitable_device_passes_with_indices() {
    let ix = check_physical_device(&suitable_device()).unwrap();
    assert_eq!(ix, QueueFamilyIndices { graphics: 0, present: 0 });
}

#[test]
fn required_extensions_name_swapchain() {
    let required = required_device_extensions();
    assert_eq!(required.len(), 1);
    assert_eq!(required[0], b"VK_KHR_swapchain".to_vec());
}

#[test]
fn extension_check_is_superset_not_equality() {
    let supported = vec![
        b"VK_KHR_maintenance1".to_vec(),
        b"VK_KHR_swapchain".to_vec(),
        b"VK_EXT_robustness2".to_vec(),
    ];
    assert!(check_device_extensions(&supported));
    assert!(!check_device_extensions(&vec![b"VK_KHR_maintenance1".to_vec()]));
    assert!(!check_device_extensions(&Vec::new()));
}

#[test]
fn byte_string_helpers() {
    assert!(bytes_eq(&b"abc".to_vec(), &b"abc".to_vec()));
    assert!(!bytes_eq(&b"abc".to_vec(), &b"abd".to_vec()));
    assert!(!bytes_eq(&b"abc".to_vec(), &b"ab".to_vec()));
    let names = vec![b"one".to_vec(), b"two".to_vec()];
    assert!(contains_name(&names, &b"two".to_vec()));
    assert!(!contains_name(&names, &b"three".to_vec()));
}

#[test]
fn rejections_are_collected_per_candidate() {
    let mut no_present = suitable_device();
    no_present.queue_families = vec![family(true, false)];
    let devices = vec![device_without_graphics(), suitable_device(), no_present];
    let reports = candidate_reports(&devices);
    assert_eq!(
        reports,
        vec![
            Some(SuitabilityReason::NoGraphicsQueueFamily),
            None,
            Some(SuitabilityReason::NoPresentQueueFamily),
        ]
    );
}

#[test]
fn one_queue_create_entry_per_distinct_family() {
    let same = QueueFamilyIndices { graphics: 3, present: 3 };
    assert_eq!(queue_create_family_indices(&same), vec![3]);
    let distinct = QueueFamilyIndices { graphics: 0, present: 2 };
    assert_eq!(queue_create_family_indices(&distinct), vec![0, 2]);
}
