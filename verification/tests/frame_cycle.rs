use ash::vk::Handle;
use vulkan_testing::base::data::{
    Extent2D, PhysicalDeviceData, PipelineData, QueueData, QueueFamilyIndices, SurfaceCapabilities,
    SurfaceData, SurfaceFormat, SwapchainData, SwapchainSupport, SyncObjects,
};
use vulkan_testing::base::frame::{
    create_sync_objects, sync_object_infos, FrameAction, FrameEvent, FrameOutcome, FramePhase,
    ImageState, SyncObjectCreateInfo, SyncObjectKind,
};
use vulkan_testing::base::pipeline::PipelineStage;
use vulkan_testing::base::App;
use vulkan_testing::error::{Error, Stage};

const OUT_OF_DATE: i32 = -1_000_001_004;
const DEVICE_LOST: i32 = -4;
const SWAPCHAIN: u64 = 0x5c;
const GRAPHICS_QUEUE: u64 = 0xa0;
const PRESENT_QUEUE: u64 = 0xb0;
const AVAILABLE: [u64; 2] = [0x100, 0x101];
const FINISHED: [u64; 2] = [0x200, 0x201];
const FENCES: [u64; 2] = [0x300, 0x301];

fn swapchain(images: u64) -> SwapchainData {
    SwapchainData {
        swapchain: SWAPCHAIN,
        format: 50,
        extent: Extent2D { width: 800, height: 600 },
        images: (0..images).map(|i| 0x10 + i).collect(),
        image_views: (0..images).map(|i| 0x20 + i).collect(),
    }
}

fn app(images: u64) -> App {
    let swapchain_data = swapchain(images);
    let handles = vec![
        AVAILABLE[0], FINISHED[0], FENCES[0], AVAILABLE[1], FINISHED[1], FENCES[1],
    ];
    let sync_objects = create_sync_objects(&swapchain_data, &handles).unwrap();
    let support = SwapchainSupport::get(
        SurfaceCapabilities {
            min_image_count: 2,
            max_image_count: 0,
            current_extent: Extent2D { width: 800, height: 600 },
            min_image_extent: Extent2D { width: 1, height: 1 },
            max_image_extent: Extent2D { width: 4096, height: 4096 },
            current_transform: 1,
        },
        vec![SurfaceFormat { format: 50, color_space: 0 }],
        vec![2],
    );
    App::create(
        None,
        SurfaceData { surface: 0x5f },
        PhysicalDeviceData { device: 0xd0, swapchain_support: support },
        QueueData::get(QueueFamilyIndices { graphics: 0, present: 1 }, PRESENT_QUEUE, GRAPHICS_QUEUE),
        swapchain_data,
        0x11,
        PipelineData { pipeline: 0x66, layout: 0x67 },
        (0..images).map(|i| 0x30 + i).collect(),
        0x77,
        (0..images).map(|i| 0x40 + i).collect(),
        sync_objects,
    )
    .unwrap()
}

/// Runs one frame: every call succeeds unless `fail` names it, and the
/// acquisition returns `image`.
fn run_frame(
    app: &mut App,
    image: u32,
    fail: &dyn Fn(&FrameAction) -> Option<i32>,
) -> (Vec<FrameAction>, FrameOutcome) {
    let mut actions = Vec::new();
    let mut event = FrameEvent::Start;
    loop {
        assert!(app.accepts(event));
        let action = app.render_frame(event);
        actions.push(action);
        event = match action {
            FrameAction::Finished(outcome) => return (actions, outcome),
            _ if fail(&action).is_some() => FrameEvent::Failed { code: fail(&action).unwrap() },
            FrameAction::AcquireNextImage { .. } => FrameEvent::Acquired { image_index: image },
            _ => FrameEvent::Done,
        };
    }
}

fn smooth(app: &mut App, image: u32) -> Vec<FrameAction> {
    let (actions, outcome) = run_frame(app, image, &|_| None);
    assert_eq!(outcome, FrameOutcome::Presented);
    actions
}

fn wait(fence: u64) -> FrameAction {
    FrameAction::WaitForFence { fence, timeout: u64::MAX }
}

fn acquire(slot: usize) -> FrameAction {
    FrameAction::AcquireNextImage {
        swapchain: SWAPCHAIN,
        timeout: u64::MAX,
        semaphore: AVAILABLE[slot],
        fence: 0,
    }
}

fn submit(slot: usize, image: u64) -> FrameAction {
    FrameAction::QueueSubmit {
        queue: GRAPHICS_QUEUE,
        wait_semaphore: AVAILABLE[slot],
        wait_stage: PipelineStage::ColorAttachmentOutput,
        command_buffer: 0x40 + image,
        signal_semaphore: FINISHED[slot],
        fence: FENCES[slot],
    }
}

fn present(slot: usize, image: u32) -> FrameAction {
    FrameAction::QueuePresent {
        queue: PRESENT_QUEUE,
        wait_semaphore: FINISHED[slot],
        swapchain: SWAPCHAIN,
        image_index: image,
    }
}

#[test]
fn every_slot_gets_two_semaphores_and_a_signalled_fence() {
    let info = |kind, slot, signaled| SyncObjectCreateInfo { kind, slot, signaled };
    assert_eq!(
        sync_object_infos(),
        vec![
            info(SyncObjectKind::ImageAvailableSemaphore, 0, false),
            info(SyncObjectKind::RenderFinishedSemaphore, 0, false),
            info(SyncObjectKind::InFlightFence, 0, true),
            info(SyncObjectKind::ImageAvailableSemaphore, 1, false),
            info(SyncObjectKind::RenderFinishedSemaphore, 1, false),
            info(SyncObjectKind::InFlightFence, 1, true),
        ]
    );
}

#[test]
fn created_objects_are_sorted_into_their_slots() {
    let sync = create_sync_objects(&swapchain(3), &vec![1, 2, 3, 4, 5, 6]).unwrap();
    assert_eq!(
        sync,
        SyncObjects {
            image_available_semaphores: vec![1, 4],
            render_finished_semaphores: vec![2, 5],
            in_flight_fences: vec![3, 6],
            images_in_flight: vec![0, 0, 0],
        }
    );
    assert!(sync.is_complete(3));
    assert!(!sync.is_complete(2));
    assert_eq!(
        create_sync_objects(&swapchain(0), &vec![1, 2, 3, 4, 5, 6]).unwrap().images_in_flight,
        Vec::<u64>::new()
    );
}

#[test]
fn no_image_is_owned_by_a_null_fence_of_the_bindings() {
    let sync = create_sync_objects(&swapchain(2), &vec![1, 2, 3, 4, 5, 6]).unwrap();
    assert!(sync.images_in_flight.iter().all(|f| ash::vk::Fence::from_raw(*f).is_null()));
    assert_eq!(ash::vk::Fence::null().as_raw(), 0);
}

#[test]
fn handles_that_are_not_one_per_object_are_refused() {
    let refused = Err(Error::Initialization { stage: Stage::SyncObjects, code: -3 });
    assert_eq!(create_sync_objects(&swapchain(2), &vec![1, 2, 3, 4, 5]), refused);
    assert_eq!(create_sync_objects(&swapchain(2), &vec![1, 2, 3, 4, 5, 6, 7]), refused);
    assert_eq!(create_sync_objects(&swapchain(2), &Vec::new()), refused);
}

#[test]
fn null_handle_for_a_fence_is_refused() {
    let refused = Err(Error::Initialization { stage: Stage::SyncObjects, code: -3 });
    assert_eq!(create_sync_objects(&swapchain(2), &vec![1, 2, 0, 4, 5, 6]), refused);
    assert_eq!(create_sync_objects(&swapchain(2), &vec![1, 2, 3, 4, 5, 0]), refused);
    assert!(create_sync_objects(&swapchain(2), &vec![1, 2, 3, 4, 5, 6]).is_ok());
    let mut sync = create_sync_objects(&swapchain(2), &vec![1, 2, 3, 4, 5, 6]).unwrap();
    sync.in_flight_fences[1] = 0;
    assert!(!sync.is_complete(2));
}

#[test]
fn image_goes_from_idle_to_acquired_to_submitted_to_presented() {
    let mut app = app(2);
    let mut states = vec![(app.image_state(0), app.image_state(1))];
    let mut event = FrameEvent::Start;
    loop {
        let action = app.render_frame(event);
        states.push((app.image_state(0), app.image_state(1)));
        event = match action {
            FrameAction::Finished(_) => break,
            FrameAction::AcquireNextImage { .. } => FrameEvent::Acquired { image_index: 1 },
            _ => FrameEvent::Done,
        };
    }
    assert_eq!(
        states,
        vec![
            (ImageState::Idle, ImageState::Idle),
            (ImageState::Idle, ImageState::Idle),
            (ImageState::Idle, ImageState::Idle),
            (ImageState::Idle, ImageState::Acquired),
            (ImageState::Idle, ImageState::Acquired),
            (ImageState::Idle, ImageState::Submitted),
            (ImageState::Idle, ImageState::Presented),
        ]
    );
}

#[test]
fn presented_image_is_acquired_again() {
    let mut app = app(2);
    smooth(&mut app, 0);
    smooth(&mut app, 1);
    assert_eq!(app.image_state(0), ImageState::Presented);
    assert_eq!(app.image_state(1), ImageState::Presented);
    app.render_frame(FrameEvent::Start);
    app.render_frame(FrameEvent::Done);
    app.render_frame(FrameEvent::Acquired { image_index: 0 });
    assert_eq!(app.phase, FramePhase::ImageFence { image_index: 0 });
    assert_eq!(app.image_state(0), ImageState::Acquired);
    assert_eq!(app.image_state(1), ImageState::Presented);
    app.render_frame(FrameEvent::Done);
    app.render_frame(FrameEvent::Done);
    assert_eq!(app.image_state(0), ImageState::Acquired);
    app.render_frame(FrameEvent::Done);
    assert_eq!(app.image_state(0), ImageState::Submitted);
    app.render_frame(FrameEvent::Done);
    assert_eq!(app.image_state(0), ImageState::Presented);
    assert!(app.is_well_formed());
}

#[test]
fn state_stays_well_formed_through_a_frame() {
    let mut app = app(3);
    smooth(&mut app, 1);
    let mut event = FrameEvent::Start;
    loop {
        assert!(app.is_well_formed());
        let action = app.render_frame(event);
        assert!(app.is_well_formed());
        event = match action {
            FrameAction::Finished(_) => break,
            FrameAction::AcquireNextImage { .. } => FrameEvent::Acquired { image_index: 1 },
            _ => FrameEvent::Done,
        };
    }
}

#[test]
fn first_frame_uses_slot_zero() {
    let app = app(3);
    assert_eq!(app.frame, 0);
    assert_eq!(app.phase, FramePhase::Idle);
}

#[test]
fn frame_makes_its_calls_in_order() {
    let mut app = app(3);
    let actions = smooth(&mut app, 2);
    assert_eq!(
        actions,
        vec![
            wait(FENCES[0]),
            acquire(0),
            FrameAction::ResetFence { fence: FENCES[0] },
            submit(0, 2),
            present(0, 2),
            FrameAction::Finished(FrameOutcome::Presented),
        ]
    );
    assert_eq!(app.frame, 1);
    assert_eq!(app.phase, FramePhase::Idle);
    assert_eq!(app.sync_objects.images_in_flight, vec![0, 0, FENCES[0]]);
}

#[test]
fn frame_goes_through_its_phases() {
    let mut app = app(3);
    let mut phases = Vec::new();
    let mut event = FrameEvent::Start;
    loop {
        let action = app.render_frame(event);
        phases.push(app.phase);
        event = match action {
            FrameAction::Finished(_) => break,
            FrameAction::AcquireNextImage { .. } => FrameEvent::Acquired { image_index: 1 },
            _ => FrameEvent::Done,
        };
    }
    assert_eq!(
        phases,
        vec![
            FramePhase::SlotFence,
            FramePhase::Acquire,
            FramePhase::Reset { image_index: 1 },
            FramePhase::Submit { image_index: 1 },
            FramePhase::Present { image_index: 1 },
            FramePhase::Idle,
        ]
    );
}

#[test]
fn second_frame_uses_the_second_slot() {
    let mut app = app(3);
    smooth(&mut app, 0);
    let actions = smooth(&mut app, 1);
    assert_eq!(
        actions,
        vec![
            wait(FENCES[1]),
            acquire(1),
            FrameAction::ResetFence { fence: FENCES[1] },
            submit(1, 1),
            present(1, 1),
            FrameAction::Finished(FrameOutcome::Presented),
        ]
    );
    assert_eq!(app.frame, 0);
    assert_eq!(app.sync_objects.images_in_flight, vec![FENCES[0], FENCES[1], 0]);
}

#[test]
fn slot_zero_is_waited_for_before_it_is_used_again() {
    let mut app = app(3);
    smooth(&mut app, 0);
    smooth(&mut app, 1);
    assert_eq!(app.frame, 0);
    let actions = smooth(&mut app, 2);
    assert_eq!(actions[0], wait(FENCES[0]));
    let waited = actions.iter().position(|a| *a == wait(FENCES[0])).unwrap();
    let reset = actions.iter().position(|a| *a == FrameAction::ResetFence { fence: FENCES[0] }).unwrap();
    let submitted = actions.iter().position(|a| *a == submit(0, 2)).unwrap();
    assert!(waited < reset && reset < submitted);
    assert_eq!(actions.iter().filter(|a| matches!(a, FrameAction::QueueSubmit { .. })).count(), 1);
    assert_eq!(app.frame, 1);
}

#[test]
fn slots_alternate_over_many_frames() {
    let mut app = app(3);
    for n in 0..10usize {
        assert_eq!(app.frame, n % 2);
        let actions = smooth(&mut app, (n % 3) as u32);
        assert_eq!(actions[0], wait(FENCES[n % 2]));
    }
}

#[test]
fn image_still_owned_by_a_fence_is_waited_for() {
    let mut app = app(2);
    smooth(&mut app, 0);
    smooth(&mut app, 0);
    assert_eq!(app.sync_objects.images_in_flight, vec![FENCES[1], 0]);
    let actions = smooth(&mut app, 0);
    assert_eq!(
        actions,
        vec![
            wait(FENCES[0]),
            acquire(0),
            wait(FENCES[1]),
            FrameAction::ResetFence { fence: FENCES[0] },
            submit(0, 0),
            present(0, 0),
            FrameAction::Finished(FrameOutcome::Presented),
        ]
    );
    assert_eq!(app.sync_objects.images_in_flight, vec![FENCES[0], 0]);
}

#[test]
fn image_is_claimed_only_after_the_wait_for_its_owner() {
    let mut app = app(2);
    smooth(&mut app, 1);
    app.render_frame(FrameEvent::Start);
    app.render_frame(FrameEvent::Done);
    let action = app.render_frame(FrameEvent::Acquired { image_index: 1 });
    assert_eq!(action, wait(FENCES[0]));
    assert_eq!(app.phase, FramePhase::ImageFence { image_index: 1 });
    assert_eq!(app.sync_objects.images_in_flight, vec![0, FENCES[0]]);
    let action = app.render_frame(FrameEvent::Done);
    assert_eq!(action, FrameAction::ResetFence { fence: FENCES[1] });
    assert_eq!(app.sync_objects.images_in_flight, vec![0, FENCES[1]]);
}

#[test]
fn out_of_date_acquisition_ends_the_frame_without_a_trace() {
    let mut app = app(3);
    smooth(&mut app, 0);
    let before_flight = app.sync_objects.images_in_flight.clone();
    let (actions, outcome) = run_frame(&mut app, 1, &|a| match a {
        FrameAction::AcquireNextImage { .. } => Some(OUT_OF_DATE),
        _ => None,
    });
    assert_eq!(outcome, FrameOutcome::OutOfDate);
    assert_eq!(actions, vec![wait(FENCES[1]), acquire(1), FrameAction::Finished(FrameOutcome::OutOfDate)]);
    assert_eq!(app.frame, 1);
    assert_eq!(app.phase, FramePhase::Idle);
    assert_eq!(app.sync_objects.images_in_flight, before_flight);
}

#[test]
fn out_of_date_code_is_the_one_of_the_bindings() {
    let mut app = app(3);
    let code = ash::vk::Result::ERROR_OUT_OF_DATE_KHR.as_raw();
    assert_eq!(code, OUT_OF_DATE);
    let (_, outcome) = run_frame(&mut app, 1, &|a| match a {
        FrameAction::AcquireNextImage { .. } => Some(ash::vk::Result::ERROR_OUT_OF_DATE_KHR.as_raw()),
        _ => None,
    });
    assert_eq!(outcome, FrameOutcome::OutOfDate);
}

#[test]
fn out_of_date_presentation_asks_for_a_new_swapchain() {
    let mut app = app(3);
    let (actions, outcome) = run_frame(&mut app, 1, &|a| match a {
        FrameAction::QueuePresent { .. } => Some(OUT_OF_DATE),
        _ => None,
    });
    assert_eq!(outcome, FrameOutcome::OutOfDate);
    assert_eq!(actions.len(), 6);
    assert_eq!(app.frame, 0);
    assert_eq!(app.phase, FramePhase::Idle);
}

#[test]
fn any_other_failure_is_fatal() {
    let calls: Vec<fn(&FrameAction) -> bool> = vec![
        |a| matches!(a, FrameAction::WaitForFence { .. }),
        |a| matches!(a, FrameAction::AcquireNextImage { .. }),
        |a| matches!(a, FrameAction::ResetFence { .. }),
        |a| matches!(a, FrameAction::QueueSubmit { .. }),
        |a| matches!(a, FrameAction::QueuePresent { .. }),
    ];
    for (n, is_call) in calls.iter().enumerate() {
        let mut app = app(3);
        let (actions, outcome) =
            run_frame(&mut app, 1, &|a| if is_call(a) { Some(DEVICE_LOST) } else { None });
        assert_eq!(outcome, FrameOutcome::Failed { code: DEVICE_LOST });
        assert_eq!(outcome.result(), Err(Error::FrameSubmission { code: DEVICE_LOST }));
        assert_eq!(actions.len(), n + 2);
        assert_eq!(app.frame, 0);
        assert_eq!(app.phase, FramePhase::Idle);
    }
}

#[test]
fn failed_wait_for_the_owner_leaves_the_image_with_it() {
    let mut app = app(2);
    smooth(&mut app, 1);
    let (actions, outcome) = run_frame(&mut app, 1, &|a| match a {
        FrameAction::WaitForFence { fence, .. } if *fence == FENCES[0] => Some(DEVICE_LOST),
        _ => None,
    });
    assert_eq!(outcome, FrameOutcome::Failed { code: DEVICE_LOST });
    assert_eq!(actions, vec![wait(FENCES[1]), acquire(1), wait(FENCES[0]), FrameAction::Finished(outcome)]);
    assert_eq!(app.sync_objects.images_in_flight, vec![0, FENCES[0]]);
    assert_eq!(app.frame, 1);
}

#[test]
fn outcomes_read_as_results() {
    assert_eq!(FrameOutcome::Presented.result(), Ok(()));
    assert_eq!(FrameOutcome::OutOfDate.result(), Err(Error::SwapchainOutOfDate));
    assert_eq!(FrameOutcome::Failed { code: -1 }.result(), Err(Error::FrameSubmission { code: -1 }));
}

#[test]
fn events_are_accepted_only_where_they_can_occur() {
    let mut app = app(2);
    assert!(app.accepts(FrameEvent::Start));
    assert!(!app.accepts(FrameEvent::Done));
    assert!(!app.accepts(FrameEvent::Failed { code: -1 }));
    assert!(!app.accepts(FrameEvent::Acquired { image_index: 0 }));
    app.render_frame(FrameEvent::Start);
    assert!(!app.accepts(FrameEvent::Start));
    assert!(app.accepts(FrameEvent::Done));
    assert!(app.accepts(FrameEvent::Failed { code: -1 }));
    assert!(!app.accepts(FrameEvent::Acquired { image_index: 0 }));
    app.render_frame(FrameEvent::Done);
    assert!(!app.accepts(FrameEvent::Start));
    assert!(!app.accepts(FrameEvent::Done));
    assert!(app.accepts(FrameEvent::Failed { code: -1 }));
    assert!(app.accepts(FrameEvent::Acquired { image_index: 0 }));
    assert!(app.accepts(FrameEvent::Acquired { image_index: 1 }));
    assert!(!app.accepts(FrameEvent::Acquired { image_index: 2 }));
    assert!(!app.accepts(FrameEvent::Acquired { image_index: u32::MAX }));
    app.render_frame(FrameEvent::Acquired { image_index: 1 });
    assert!(app.accepts(FrameEvent::Done));
    assert!(!app.accepts(FrameEvent::Acquired { image_index: 1 }));
}

#[test]
fn out_of_date_on_the_third_frame_leads_to_one_new_swapchain_and_no_abort() {
    let mut app = app(3);
    let mut recreated = 0;
    let mut aborted = 0;
    let mut presented = 0;
    for call in 1..=6u32 {
        let stale = call == 3;
        let image = call % app.swapchain_data.images.len() as u32;
        let (_, outcome) = run_frame(&mut app, image, &|a| match a {
            FrameAction::AcquireNextImage { .. } if stale => Some(OUT_OF_DATE),
            _ => None,
        });
        match outcome.result() {
            Ok(()) => presented += 1,
            Err(e) if !e.is_fatal() => {
                recreated += 1;
                let steps = app.retire_swapchain();
                assert_eq!(steps.len(), 1 + 3 + 3 + 3 + 3 + 1);
                let mut fresh = swapchain(2);
                fresh.swapchain = 0x5d;
                let support = SwapchainSupport::get(
                    app.physical_device_data.swapchain_support.capabilities,
                    vec![SurfaceFormat { format: 50, color_space: 0 }],
                    vec![2],
                );
                let r = app.recreate(
                    support,
                    fresh,
                    0x12,
                    PipelineData { pipeline: 0x68, layout: 0x69 },
                    vec![0x50, 0x51],
                    vec![0x60, 0x61],
                );
                assert_eq!(r, Ok(()));
            },
            Err(_) => aborted += 1,
        }
    }
    assert_eq!(recreated, 1);
    assert_eq!(aborted, 0);
    assert_eq!(presented, 5);
    assert_eq!(app.swapchain_data.swapchain, 0x5d);
    assert_eq!(app.sync_objects.images_in_flight.len(), 2);
    assert!(app.is_well_formed());
}
