use vulkan_testing::base::data::{
    Extent2D, PhysicalDeviceData, QueueFamily, QueueFamilyIndices, SurfaceCapabilities,
    SurfaceFormat, SwapchainSupport,
};
use vulkan_testing::base::device::{
    choose_device, create_logical_device, device_extension_names, evaluate, DeviceQueueCreateInfo,
    DeviceReport, Verdict,
};
use vulkan_testing::error::{Error, Stage};

fn capabilities() -> SurfaceCapabilities {
    SurfaceCapabilities {
        min_image_count: 2,
        max_image_count: 8,
        current_extent: Extent2D { width: 800, height: 600 },
        min_image_extent: Extent2D { width: 1, height: 1 },
        max_image_extent: Extent2D { width: 4096, height: 4096 },
        current_transform: 1,
    }
}

fn support() -> SwapchainSupport {
    SwapchainSupport::get(
        capabilities(),
        vec![SurfaceFormat { format: 44, color_space: 0 }],
        vec![2],
    )
}

fn families() -> Vec<QueueFamily> {
    vec![QueueFamily { queue_flags: 0x1, present_support: Ok(true) }]
}

fn names(list: &[&str]) -> Vec<String> {
    list.iter().map(|s| String::from(*s)).collect()
}

fn good(device: u64) -> DeviceReport {
    DeviceReport {
        device,
        queue_families: families(),
        extensions: Ok(names(&["VK_KHR_maintenance1", "VK_KHR_swapchain"])),
        swapchain_support: Ok(support()),
    }
}

fn required() -> Vec<String> {
    names(&["VK_KHR_swapchain"])
}

#[test]
fn required_names_are_those_of_the_bindings() {
    assert_eq!(device_extension_names(false), names(&["VK_KHR_swapchain"]));
    assert_eq!(
        device_extension_names(true),
        names(&["VK_KHR_swapchain", "VK_KHR_portability_subset"])
    );
    assert_eq!(
        device_extension_names(true),
        vec![
            ash::khr::swapchain::NAME.to_str().unwrap().to_owned(),
            ash::khr::portability_subset::NAME.to_str().unwrap().to_owned(),
        ]
    );
}

#[test]
fn single_eligible_device_is_chosen() {
    let chosen = choose_device(vec![good(7)], &required());
    assert_eq!(chosen, Ok(PhysicalDeviceData { device: 7, swapchain_support: support() }));
}

#[test]
fn first_eligible_device_wins() {
    let chosen = choose_device(vec![good(7), good(8), good(9)], &required()).unwrap();
    assert_eq!(chosen.device, 7);
}

#[test]
fn no_device_at_all_is_a_failed_selection() {
    assert_eq!(choose_device(Vec::new(), &required()), Err(Error::DeviceSelection));
}

#[test]
fn device_without_graphics_family_is_never_chosen() {
    let mut lacking = good(1);
    lacking.queue_families = vec![QueueFamily { queue_flags: 0x6, present_support: Ok(true) }];
    assert_eq!(evaluate(&lacking, &required()), Verdict::Rejected);
    let chosen = choose_device(vec![lacking, good(2)], &required()).unwrap();
    assert_eq!(chosen.device, 2);
}

#[test]
fn device_without_present_family_is_never_chosen() {
    let mut lacking = good(1);
    lacking.queue_families = vec![
        QueueFamily { queue_flags: 0x1, present_support: Ok(false) },
        QueueFamily { queue_flags: 0x2, present_support: Ok(false) },
    ];
    assert_eq!(evaluate(&lacking, &required()), Verdict::Rejected);
    let mut alone = good(1);
    alone.queue_families = vec![QueueFamily { queue_flags: 0x1, present_support: Ok(false) }];
    assert_eq!(choose_device(vec![alone], &required()), Err(Error::DeviceSelection));
    let chosen = choose_device(vec![lacking, good(2)], &required()).unwrap();
    assert_eq!(chosen.device, 2);
}

#[test]
fn device_whose_present_question_failed_is_passed_over() {
    let mut lacking = good(1);
    lacking.queue_families = vec![QueueFamily { queue_flags: 0x1, present_support: Err(-2) }];
    assert_eq!(evaluate(&lacking, &required()), Verdict::Rejected);
    let chosen = choose_device(vec![lacking, good(2)], &required()).unwrap();
    assert_eq!(chosen.device, 2);
}

#[test]
fn device_without_required_extension_is_rejected_despite_its_families() {
    let mut lacking = good(1);
    lacking.extensions = Ok(names(&["VK_KHR_maintenance1", "VK_KHR_swapchain_mutable_format"]));
    assert!(QueueFamilyIndices::get(&lacking.queue_families).is_ok());
    assert_eq!(evaluate(&lacking, &required()), Verdict::Rejected);
    let mut alone = good(1);
    alone.extensions = Ok(Vec::new());
    assert_eq!(choose_device(vec![alone], &required()), Err(Error::DeviceSelection));
    let chosen = choose_device(vec![lacking, good(2)], &required()).unwrap();
    assert_eq!(chosen.device, 2);
}

#[test]
fn every_required_extension_has_to_be_there() {
    let both = names(&["VK_KHR_swapchain", "VK_KHR_portability_subset"]);
    assert_eq!(evaluate(&good(1), &both), Verdict::Rejected);
    let mut full = good(1);
    full.extensions = Ok(names(&["VK_KHR_portability_subset", "x", "VK_KHR_swapchain"]));
    assert_eq!(evaluate(&full, &both), Verdict::Eligible);
    assert_eq!(evaluate(&full, &Vec::new()), Verdict::Eligible);
}

#[test]
fn device_without_formats_is_rejected() {
    let mut lacking = good(1);
    lacking.swapchain_support = Ok(SwapchainSupport::get(capabilities(), Vec::new(), vec![2]));
    assert_eq!(evaluate(&lacking, &required()), Verdict::Rejected);
    let chosen = choose_device(vec![lacking, good(2)], &required()).unwrap();
    assert_eq!(chosen.device, 2);
}

#[test]
fn device_without_present_modes_is_rejected() {
    let mut lacking = good(1);
    lacking.swapchain_support = Ok(SwapchainSupport::get(
        capabilities(),
        vec![SurfaceFormat { format: 50, color_space: 0 }],
        Vec::new(),
    ));
    assert_eq!(evaluate(&lacking, &required()), Verdict::Rejected);
    assert_eq!(choose_device(vec![lacking], &required()), Err(Error::DeviceSelection));
}

#[test]
fn failed_extension_question_ends_the_selection() {
    let mut failing = good(1);
    failing.extensions = Err(-3);
    assert_eq!(evaluate(&failing, &required()), Verdict::Failed { code: -3 });
    assert_eq!(
        choose_device(vec![failing, good(2)], &required()),
        Err(Error::Initialization { stage: Stage::PhysicalDevice, code: -3 })
    );
}

#[test]
fn failed_surface_question_ends_the_selection() {
    let mut failing = good(1);
    failing.swapchain_support = Err(-1_000_000_000);
    assert_eq!(
        choose_device(vec![failing, good(2)], &required()),
        Err(Error::Initialization { stage: Stage::PhysicalDevice, code: -1_000_000_000 })
    );
}

#[test]
fn failed_question_of_a_device_that_was_rejected_before_does_not_count() {
    let mut rejected = good(1);
    rejected.queue_families = Vec::new();
    rejected.extensions = Err(-3);
    rejected.swapchain_support = Err(-4);
    let mut without_extension = good(2);
    without_extension.extensions = Ok(Vec::new());
    without_extension.swapchain_support = Err(-4);
    let chosen = choose_device(vec![rejected, without_extension, good(3)], &required()).unwrap();
    assert_eq!(chosen.device, 3);
}

#[test]
fn failed_question_after_the_chosen_device_is_never_asked() {
    let mut failing = good(2);
    failing.extensions = Err(-3);
    let chosen = choose_device(vec![good(1), failing], &required()).unwrap();
    assert_eq!(chosen.device, 1);
}

#[test]
fn chosen_device_comes_with_its_own_surface_support() {
    let mut second = good(2);
    second.swapchain_support = Ok(SwapchainSupport::get(
        capabilities(),
        vec![SurfaceFormat { format: 50, color_space: 0 }, SurfaceFormat { format: 37, color_space: 0 }],
        vec![0, 1, 2],
    ));
    let mut first = good(1);
    first.extensions = Ok(Vec::new());
    let chosen = choose_device(vec![first, second], &required()).unwrap();
    assert_eq!(chosen.device, 2);
    assert_eq!(chosen.swapchain_support.formats.len(), 2);
    assert_eq!(chosen.swapchain_support.present_modes, vec![0, 1, 2]);
}

#[test]
fn one_queue_is_asked_for_when_the_families_coincide() {
    let data = PhysicalDeviceData { device: 9, swapchain_support: support() };
    let indices = QueueFamilyIndices { graphics: 2, present: 2 };
    let info = create_logical_device(&data, &indices, required());
    assert_eq!(info.physical_device, 9);
    assert_eq!(
        info.queues,
        vec![DeviceQueueCreateInfo { queue_family_index: 2, queue_count: 1, queue_priority: 1 }]
    );
    assert_eq!(info.extensions, required());
    assert!(!info.optional_features);
}

#[test]
fn two_queues_are_asked_for_when_the_families_differ() {
    let data = PhysicalDeviceData { device: 9, swapchain_support: support() };
    let indices = QueueFamilyIndices { graphics: 0, present: 3 };
    let info = create_logical_device(&data, &indices, device_extension_names(true));
    assert_eq!(
        info.queues,
        vec![
            DeviceQueueCreateInfo { queue_family_index: 0, queue_count: 1, queue_priority: 1 },
            DeviceQueueCreateInfo { queue_family_index: 3, queue_count: 1, queue_priority: 1 },
        ]
    );
    assert_eq!(info.extensions, names(&["VK_KHR_swapchain", "VK_KHR_portability_subset"]));
}
