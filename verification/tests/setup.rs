use voxel::device::{
    device_type_score, has_all_extensions, has_extension, rank_devices, select_devices,
    DeviceCreationError, DeviceInfo, DeviceSelectError, DeviceSelectInfo,
    PHYSICAL_DEVICE_TYPE_DISCRETE_GPU,
};
use voxel::instance::{check_instance_extensions, missing_extensions, InstanceCreationError, SurfaceError};
use voxel::queues::{
    assign_queues, choose_queue_families, find_queue, unique_queue_families, Queue,
    QueueFamilies, QueueFamilyCaps, QueueFamilyError,
};
use voxel::setup::{collect_frames, FrameResourceCreationError, SetupError};
use voxel::swapchain::{
    choose_image_count, choose_present_mode, choose_surface_format, choose_swapchain_settings,
    Extent2D, SurfaceCaps, SurfaceFormat, SwapchainCreationError, COLOR_SPACE_SRGB_NONLINEAR,
    FORMAT_B8G8R8A8_SRGB, PRESENT_MODE_FIFO, PRESENT_MODE_MAILBOX,
};
use voxel::validation::{validation_log_level, ValidationLogLevel};

fn caps(graphics: bool, compute: bool, transfer: bool, present: bool) -> QueueFamilyCaps {
    QueueFamilyCaps { graphics, compute, transfer, present }
}

fn strings(v: &[&str]) -> Vec<String> {
    v.iter().map(|s| s.to_string()).collect()
}

#[test]
fn queue_family_caps_from_flags() {
    assert_eq!(voxel::queues::queue_family_caps(0b111, true), caps(true, true, true, true));
    assert_eq!(voxel::queues::queue_family_caps(0b100, false), caps(false, false, true, false));
    assert_eq!(voxel::queues::queue_family_caps(0b1110, false), caps(false, true, true, false));
    assert_eq!(voxel::queues::queue_family_caps(0, true), caps(false, false, false, true));
}

#[test]
fn queue_families_typical_discrete_gpu() {
    let fams = vec![
        caps(true, true, true, true),
        caps(false, false, true, false),
        caps(false, true, true, false),
    ];
    let r = choose_queue_families(&fams).unwrap();
    assert_eq!(r, QueueFamilies { graphics: 0, present: 0, compute: 2, transfer: 1 });
}

#[test]
fn queue_families_prefer_combined_graphics_present() {
    let fams = vec![
        caps(true, false, false, false),
        caps(false, false, false, true),
        caps(true, false, false, true),
        caps(true, false, false, true),
    ];
    let r = choose_queue_families(&fams).unwrap();
    assert_eq!(r.graphics, 2);
    assert_eq!(r.present, 2);
}

#[test]
fn queue_families_separate_graphics_and_present() {
    let fams = vec![
        caps(false, false, false, true),
        caps(true, true, false, false),
        caps(false, false, false, true),
    ];
    let r = choose_queue_families(&fams).unwrap();
    assert_eq!(r, QueueFamilies { graphics: 1, present: 0, compute: 1, transfer: 1 });
}

#[test]
fn queue_families_fallbacks() {
    let fams = vec![caps(true, false, false, true)];
    let r = choose_queue_families(&fams).unwrap();
    assert_eq!(r, QueueFamilies { graphics: 0, present: 0, compute: 0, transfer: 0 });

    let fams = vec![caps(true, false, false, true), caps(true, true, false, false)];
    let r = choose_queue_families(&fams).unwrap();
    assert_eq!(r.compute, 1);
    assert_eq!(r.transfer, 1);
}

#[test]
fn queue_families_dedicated_found_later() {
    let fams = vec![
        caps(true, true, true, true),
        caps(true, true, true, false),
        caps(false, true, true, false),
        caps(false, true, false, false),
        caps(false, false, true, false),
        caps(false, false, true, false),
    ];
    let r = choose_queue_families(&fams).unwrap();
    assert_eq!(r, QueueFamilies { graphics: 0, present: 0, compute: 2, transfer: 4 });
}

#[test]
fn queue_families_errors() {
    assert_eq!(choose_queue_families(&vec![]), Err(QueueFamilyError::NoGraphicsQueueFamily));
    let fams = vec![caps(false, true, true, true)];
    assert_eq!(choose_queue_families(&fams), Err(QueueFamilyError::NoGraphicsQueueFamily));
    let fams = vec![caps(true, true, true, false), caps(false, true, false, false)];
    assert_eq!(choose_queue_families(&fams), Err(QueueFamilyError::NoPresentQueueFamily));
    let e = QueueFamilyError::FailedToGetQueueFamilyProperties(-3);
    assert_eq!(e, QueueFamilyError::FailedToGetQueueFamilyProperties(-3));
}

fn sorted(mut v: Vec<u32>) -> Vec<u32> {
    v.sort();
    v
}

#[test]
fn unique_families_listed_once() {
    let f = QueueFamilies { graphics: 0, present: 0, compute: 2, transfer: 1 };
    assert_eq!(sorted(unique_queue_families(&f)), vec![0, 1, 2]);
    let f = QueueFamilies { graphics: 3, present: 3, compute: 3, transfer: 3 };
    assert_eq!(unique_queue_families(&f), vec![3]);
    let f = QueueFamilies { graphics: 0, present: 1, compute: 2, transfer: 3 };
    assert_eq!(sorted(unique_queue_families(&f)), vec![0, 1, 2, 3]);
    let f = QueueFamilies { graphics: 4, present: 9, compute: 4, transfer: 9 };
    assert_eq!(sorted(unique_queue_families(&f)), vec![4, 9]);
}

#[test]
fn queues_assigned_by_family() {
    let f = QueueFamilies { graphics: 0, present: 0, compute: 2, transfer: 1 };
    let retrieved: Vec<Queue<&str>> = unique_queue_families(&f)
        .into_iter()
        .map(|family| Queue { family, queue: ["g", "t", "c"][family as usize] })
        .collect();
    let qs = assign_queues(&f, &retrieved);
    assert_eq!((qs.graphics.family, qs.graphics.queue), (0, "g"));
    assert_eq!((qs.present.family, qs.present.queue), (0, "g"));
    assert_eq!((qs.compute.family, qs.compute.queue), (2, "c"));
    assert_eq!((qs.transfer.family, qs.transfer.queue), (1, "t"));
}

#[test]
fn find_queue_takes_the_first_match() {
    let qs = vec![
        Queue { family: 5, queue: 'a' },
        Queue { family: 7, queue: 'b' },
        Queue { family: 7, queue: 'c' },
    ];
    assert_eq!(find_queue(&qs, 7).queue, 'b');
    assert_eq!(find_queue(&qs, 5).queue, 'a');
}

fn dev(name: &str, exts: &[&str], kind: i32) -> DeviceInfo<i32> {
    DeviceInfo { name: name.to_string(), exts: strings(exts), device: kind }
}

#[test]
fn extension_lookup() {
    let exts = strings(&["VK_KHR_swapchain", "VK_KHR_maintenance1"]);
    assert!(has_extension(&exts, &"VK_KHR_swapchain".to_string()));
    assert!(!has_extension(&exts, &"VK_KHR_surface".to_string()));
    assert!(has_all_extensions(&exts, &strings(&["VK_KHR_maintenance1", "VK_KHR_swapchain"])));
    assert!(!has_all_extensions(&exts, &strings(&["VK_KHR_swapchain", "VK_EXT_x"])));
    assert!(has_all_extensions(&exts, &[]));
}

#[test]
fn device_type_scores() {
    assert_eq!(device_type_score(PHYSICAL_DEVICE_TYPE_DISCRETE_GPU), 1000);
    assert_eq!(device_type_score(1), 0);
    assert_eq!(device_type_score(4), 0);
}

#[test]
fn rank_devices_orders_by_score() {
    let scored = vec![(dev("a", &[], 0), 5), (dev("b", &[], 0), 0), (dev("c", &[], 0), 9), (dev("d", &[], 0), 1)];
    let names: Vec<String> = rank_devices(scored).unwrap().into_iter().map(|d| d.name).collect();
    assert_eq!(names, strings(&["c", "a", "d"]));
    let none = vec![(dev("a", &[], 0), 0)];
    assert!(matches!(rank_devices(none), Err(DeviceSelectError::NoSuitableDevices)));
    assert!(matches!(rank_devices(Vec::<(DeviceInfo<i32>, usize)>::new()), Err(DeviceSelectError::NoSuitableDevices)));
}

#[test]
fn select_devices_filters_scores_and_sorts() {
    let required = strings(&["VK_KHR_swapchain"]);
    let devices = vec![
        dev("integrated", &["VK_KHR_swapchain"], 1),
        dev("no-swapchain", &["VK_KHR_other"], PHYSICAL_DEVICE_TYPE_DISCRETE_GPU),
        dev("discrete", &["VK_KHR_swapchain"], PHYSICAL_DEVICE_TYPE_DISCRETE_GPU),
    ];
    let info = DeviceSelectInfo { required_extensions: &required, score_fn: |d: &DeviceInfo<i32>| device_type_score(d.device) };
    let names: Vec<String> = select_devices(devices, info).unwrap().into_iter().map(|d| d.name).collect();
    assert_eq!(names, strings(&["discrete"]));

    let devices = vec![dev("x", &["VK_KHR_swapchain"], 0), dev("y", &["VK_KHR_swapchain", "e"], 0)];
    let info = DeviceSelectInfo { required_extensions: &required, score_fn: |d: &DeviceInfo<i32>| d.exts.len() };
    let names: Vec<String> = select_devices(devices, info).unwrap().into_iter().map(|d| d.name).collect();
    assert_eq!(names, strings(&["y", "x"]));
}

#[test]
fn select_devices_none_suitable() {
    let required = strings(&["VK_KHR_swapchain"]);
    let devices = vec![dev("integrated", &["VK_KHR_swapchain"], 1), dev("bare", &[], 2)];
    let info = DeviceSelectInfo { required_extensions: &required, score_fn: |d: &DeviceInfo<i32>| device_type_score(d.device) };
    assert!(matches!(select_devices(devices, info), Err(DeviceSelectError::NoSuitableDevices)));
    let e = DeviceSelectError::FailedToEnumerateDevices(-4);
    assert_eq!(e, DeviceSelectError::FailedToEnumerateDevices(-4));
    assert_eq!(DeviceCreationError::FailedToCreateLogicalDevice(-1), DeviceCreationError::FailedToCreateLogicalDevice(-1));
}

#[test]
fn surface_format_choice() {
    let preferred = SurfaceFormat { format: FORMAT_B8G8R8A8_SRGB, color_space: COLOR_SPACE_SRGB_NONLINEAR };
    let other = SurfaceFormat { format: 44, color_space: 0 };
    let wrong_space = SurfaceFormat { format: FORMAT_B8G8R8A8_SRGB, color_space: 1000104001 };
    assert_eq!(choose_surface_format(&vec![other, wrong_space, preferred]), preferred);
    assert_eq!(choose_surface_format(&vec![wrong_space, other]), wrong_space);
}

#[test]
fn present_mode_choice() {
    assert_eq!(choose_present_mode(&vec![0, 2, 1]), PRESENT_MODE_MAILBOX);
    assert_eq!(choose_present_mode(&vec![0, 2, 3]), PRESENT_MODE_FIFO);
    assert_eq!(choose_present_mode(&vec![]), PRESENT_MODE_FIFO);
}

#[test]
fn image_count_choice() {
    assert_eq!(choose_image_count(2, 8), 3);
    assert_eq!(choose_image_count(4, 8), 4);
    assert_eq!(choose_image_count(1, 2), 2);
    assert_eq!(choose_image_count(2, 0), 0);
}

#[test]
fn swapchain_settings() {
    let caps = SurfaceCaps { min_image_count: 2, max_image_count: 3, current_extent: Extent2D { width: 800, height: 600 } };
    let formats = vec![SurfaceFormat { format: 37, color_space: 0 }];
    let s = choose_swapchain_settings(&caps, &formats, &vec![2, 1]);
    assert_eq!(s.surface_format, formats[0]);
    assert_eq!(s.present_mode, PRESENT_MODE_MAILBOX);
    assert_eq!(s.min_image_count, 3);
    assert_eq!(s.extent, Extent2D { width: 800, height: 600 });
    let e = SwapchainCreationError::Creation(-1000001004);
    assert_eq!(e, SwapchainCreationError::Creation(-1000001004));
}

#[test]
fn missing_instance_extensions() {
    let required = strings(&["VK_KHR_surface", "VK_KHR_win32_surface", "VK_EXT_debug_utils"]);
    let available = strings(&["VK_EXT_debug_utils", "VK_KHR_surface"]);
    assert_eq!(missing_extensions(&required, &available), strings(&["VK_KHR_win32_surface"]));
    assert_eq!(
        check_instance_extensions(&required, &available),
        Err(InstanceCreationError::MissingExtensions(strings(&["VK_KHR_win32_surface"])))
    );
    let all = strings(&["VK_KHR_win32_surface", "VK_EXT_debug_utils", "VK_KHR_surface"]);
    assert_eq!(missing_extensions(&required, &all), Vec::<String>::new());
    assert_eq!(check_instance_extensions(&required, &all), Ok(()));
}

#[test]
fn setup_errors_convert() {
    assert_eq!(SetupError::from(InstanceCreationError::EntryLoadError), SetupError::InstanceCreation(InstanceCreationError::EntryLoadError));
    assert_eq!(SetupError::from(SurfaceError::FailedToGetWindowHandle), SetupError::SurfaceCreation(SurfaceError::FailedToGetWindowHandle));
    assert_eq!(SetupError::from(DeviceSelectError::NoSuitableDevices), SetupError::DeviceScore(DeviceSelectError::NoSuitableDevices));
    assert_eq!(SetupError::from(QueueFamilyError::NoPresentQueueFamily), SetupError::QueueFamily(QueueFamilyError::NoPresentQueueFamily));
    assert_eq!(
        SetupError::from(DeviceCreationError::FailedToCreateLogicalDevice(-3)),
        SetupError::LogicalDeviceCreation(DeviceCreationError::FailedToCreateLogicalDevice(-3))
    );
    assert_eq!(SetupError::from(SwapchainCreationError::ViewCreation(-2)), SetupError::SwapchainCreation(SwapchainCreationError::ViewCreation(-2)));
    assert_eq!(
        SetupError::from(FrameResourceCreationError::FenceCreation(-2)),
        SetupError::FrameResourceCreation(FrameResourceCreationError::FenceCreation(-2))
    );
}

#[test]
fn validation_message_levels() {
    assert_eq!(validation_log_level(0x1000), ValidationLogLevel::Error);
    assert_eq!(validation_log_level(0x1100), ValidationLogLevel::Error);
    assert_eq!(validation_log_level(0x100), ValidationLogLevel::Warn);
    assert_eq!(validation_log_level(0x1), ValidationLogLevel::Trace);
    assert_eq!(validation_log_level(0x10), ValidationLogLevel::Debug);
    assert_eq!(validation_log_level(0), ValidationLogLevel::Debug);
}

#[test]
fn frames_in_flight() {
    assert_eq!(voxel::FRAMES_IN_FLIGHT, 2);
}

#[test]
fn api_versions() {
    assert_eq!(voxel::api_version::instance_api_version(), (1 << 22) | (4 << 12));
    assert_eq!(voxel::api_version::instance_api_version(), 4210688);
    assert_eq!(voxel::api_version::allocator_api_version(), 4206592);
}

#[test]
fn required_device_extension_names() {
    assert_eq!(voxel::device::required_device_extensions(), vec!["VK_KHR_swapchain".to_string()]);
}

#[test]
fn collect_frames_keeps_every_frame_in_order() {
    let results: Vec<Result<u32, FrameResourceCreationError>> = vec![Ok(7), Ok(9)];
    assert_eq!(collect_frames(results), Ok(vec![7, 9]));
}

#[test]
fn collect_frames_reports_the_last_failure() {
    let results: Vec<Result<u32, FrameResourceCreationError>> = vec![
        Err(FrameResourceCreationError::FenceCreation(-3)),
        Ok(1),
        Err(FrameResourceCreationError::SemaphoreCreateInfo(-4)),
        Ok(2),
    ];
    assert_eq!(
        collect_frames(results),
        Err(FrameResourceCreationError::SemaphoreCreateInfo(-4))
    );
    let one: Vec<Result<u32, FrameResourceCreationError>> =
        vec![Ok(1), Err(FrameResourceCreationError::CommandPoolCreation(-2))];
    assert_eq!(
        collect_frames(one),
        Err(FrameResourceCreationError::CommandPoolCreation(-2))
    );
    let none: Vec<Result<u32, FrameResourceCreationError>> = Vec::new();
    assert_eq!(collect_frames(none), Ok(Vec::new()));
}
