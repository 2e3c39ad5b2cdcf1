use vulkan_testing::base::commands::{
    allocate_command_buffers, create_command_buffers, create_command_pool, replay,
};
use vulkan_testing::base::data::{
    DebugData, Extent2D, PhysicalDeviceData, PipelineData, QueueData, QueueFamily,
    QueueFamilyIndices, SurfaceCapabilities, SurfaceData, SurfaceFormat, SwapchainData,
    SwapchainSupport, SyncObjects,
};
use vulkan_testing::base::device::{
    choose_device, create_logical_device, device_extension_names, DeviceReport,
};
use vulkan_testing::base::frame::{create_sync_objects, sync_object_infos, FramePhase};
use vulkan_testing::base::instance::{create_debug_data, create_instance};
use vulkan_testing::base::pipeline::{
    create_framebuffers, create_pipeline, create_pipeline_layout, create_render_pass,
    create_shader_modules, release_shader_modules,
};
use vulkan_testing::base::startup::{StageOutcome, Startup, StartupStep};
use vulkan_testing::base::swapchain::{create_swapchain, create_swapchain_image_views};
use vulkan_testing::base::App;
use vulkan_testing::error::{Error, Stage};
use vulkan_testing::util::constants::{WINDOW_HEIGHT, WINDOW_WIDTH};

const ALL: [Stage; 13] = [
    Stage::Instance,
    Stage::DebugMessenger,
    Stage::Surface,
    Stage::PhysicalDevice,
    Stage::LogicalDevice,
    Stage::Swapchain,
    Stage::ImageViews,
    Stage::RenderPass,
    Stage::Pipeline,
    Stage::Framebuffers,
    Stage::CommandPool,
    Stage::CommandBuffers,
    Stage::SyncObjects,
];

fn stages(diagnostics: bool) -> Vec<Stage> {
    let (mut startup, mut step) = Startup::new(diagnostics);
    let mut run = Vec::new();
    while let StartupStep::Run(stage) = step {
        run.push(stage);
        assert_eq!(startup.stage, Some(stage));
        step = startup.advance(StageOutcome::Done);
    }
    assert_eq!(step, StartupStep::Ready);
    assert_eq!(startup.stage, None);
    run
}

#[test]
fn startup_with_diagnostics_runs_every_stage_in_order() {
    assert_eq!(stages(true), ALL.to_vec());
}

#[test]
fn startup_without_diagnostics_leaves_the_messenger_out() {
    let expected: Vec<Stage> = ALL.iter().copied().filter(|s| *s != Stage::DebugMessenger).collect();
    assert_eq!(stages(false), expected);
}

#[test]
fn every_stage_has_its_successor() {
    for (i, stage) in ALL.iter().enumerate() {
        let next = if i + 1 < ALL.len() { Some(ALL[i + 1]) } else { None };
        assert_eq!(stage.next(true), next);
        if *stage != Stage::Instance {
            assert_eq!(stage.next(false), next);
        }
    }
    assert_eq!(Stage::Instance.next(false), Some(Stage::Surface));
}

#[test]
fn refused_device_call_abandons_startup_at_its_stage() {
    for (i, stage) in ALL.iter().enumerate() {
        let (mut startup, mut step) = Startup::new(true);
        for _ in 0..i {
            step = startup.advance(StageOutcome::Done);
        }
        assert_eq!(step, StartupStep::Run(*stage));
        let step = startup.advance(StageOutcome::Refused { code: -7 });
        assert_eq!(step, StartupStep::Abort(Error::Initialization { stage: *stage, code: -7 }));
        assert_eq!(startup.stage, None);
    }
}

#[test]
fn stage_that_was_given_up_abandons_startup_with_its_error() {
    let (mut startup, _) = Startup::new(false);
    startup.advance(StageOutcome::Done);
    startup.advance(StageOutcome::Done);
    assert_eq!(startup.stage, Some(Stage::PhysicalDevice));
    let step = startup.advance(StageOutcome::Failed(Error::DeviceSelection));
    assert_eq!(step, StartupStep::Abort(Error::DeviceSelection));
    assert_eq!(startup.stage, None);
    let (mut startup, _) = Startup::new(false);
    for _ in 0..7 {
        startup.advance(StageOutcome::Done);
    }
    assert_eq!(startup.stage, Some(Stage::Pipeline));
    let step = startup.advance(StageOutcome::Failed(Error::InvalidBytecode { len: 5 }));
    assert_eq!(step, StartupStep::Abort(Error::InvalidBytecode { len: 5 }));
}

/// A device that creates whatever it is asked for and numbers its objects.
struct Device {
    next: u64,
    window: Extent2D,
    surface: SurfaceCapabilities,
    vertex: Vec<u8>,
    fragment: Vec<u8>,
    created: Vec<Stage>,
    debug_data: Option<DebugData>,
    surface_data: Option<SurfaceData>,
    physical_device_data: Option<PhysicalDeviceData>,
    queue_data: Option<QueueData>,
    swapchain: Option<(u64, Vec<u64>)>,
    swapchain_data: Option<SwapchainData>,
    render_pass: u64,
    pipeline_data: Option<PipelineData>,
    framebuffers: Vec<u64>,
    command_pool: u64,
    command_buffers: Vec<u64>,
    sync_objects: Option<SyncObjects>,
}

impl Device {
    fn new(surface: SurfaceCapabilities) -> Device {
        Device {
            next: 0x1000,
            window: Extent2D { width: WINDOW_WIDTH, height: WINDOW_HEIGHT },
            surface,
            vertex: vec![0x03, 0x02, 0x23, 0x07, 0, 0, 1, 0],
            fragment: vec![0x03, 0x02, 0x23, 0x07],
            created: Vec::new(),
            debug_data: None,
            surface_data: None,
            physical_device_data: None,
            queue_data: None,
            swapchain: None,
            swapchain_data: None,
            render_pass: 0,
            pipeline_data: None,
            framebuffers: Vec::new(),
            command_pool: 0,
            command_buffers: Vec::new(),
            sync_objects: None,
        }
    }

    fn handle(&mut self) -> u64 {
        self.next += 1;
        self.next
    }

    fn handles(&mut self, count: usize) -> Vec<u64> {
        (0..count).map(|_| self.handle()).collect()
    }

    fn report(&self, device: u64, graphics: bool) -> DeviceReport {
        DeviceReport {
            device,
            queue_families: vec![
                QueueFamily { queue_flags: 0x4, present_support: Ok(false) },
                QueueFamily { queue_flags: if graphics { 0x7 } else { 0x6 }, present_support: Ok(true) },
            ],
            extensions: Ok(vec![String::from("VK_KHR_swapchain")]),
            swapchain_support: Ok(SwapchainSupport::get(
                self.surface,
                vec![SurfaceFormat { format: 44, color_space: 0 }, SurfaceFormat { format: 50, color_space: 0 }],
                vec![2],
            )),
        }
    }

    fn run(&mut self, stage: Stage, diagnostics: bool) -> StageOutcome {
        self.created.push(stage);
        match stage {
            Stage::Instance => {
                let info = create_instance(vec![String::from("VK_KHR_surface")], diagnostics, false);
                assert_eq!(info.debug_messenger.is_some(), diagnostics);
            },
            Stage::DebugMessenger => {
                assert!(create_debug_data(diagnostics).is_some());
                self.debug_data = Some(DebugData { callback: self.handle() });
            },
            Stage::Surface => {
                self.surface_data = Some(SurfaceData { surface: self.handle() });
            },
            Stage::PhysicalDevice => {
                let reports = vec![self.report(0xd1, false), self.report(0xd2, true)];
                let families = self.report(0xd2, true).queue_families;
                match choose_device(reports, &device_extension_names(false)) {
                    Ok(data) => {
                        assert_eq!(data.device, 0xd2);
                        let indices = QueueFamilyIndices::get(&families).unwrap();
                        self.queue_data = Some(QueueData::get(indices, 0, 0));
                        self.physical_device_data = Some(data);
                    },
                    Err(e) => return StageOutcome::Failed(e),
                }
            },
            Stage::LogicalDevice => {
                let indices = self.queue_data.unwrap().family_indices;
                let info = create_logical_device(
                    self.physical_device_data.as_ref().unwrap(),
                    &indices,
                    device_extension_names(false),
                );
                assert_eq!(info.queues.len(), 1);
                let requests = QueueData::requests(indices);
                let present = 0x9000 + requests[0].queue_family_index as u64;
                let graphics = 0x9000 + requests[1].queue_family_index as u64;
                self.queue_data = Some(QueueData::get(indices, present, graphics));
            },
            Stage::Swapchain => {
                let physical = self.physical_device_data.as_ref().unwrap();
                if !physical.swapchain_support.is_negotiable() {
                    return StageOutcome::Refused { code: -3 };
                }
                let info = create_swapchain(
                    self.window,
                    self.surface_data.as_ref().unwrap(),
                    physical,
                    self.queue_data.as_ref().unwrap(),
                );
                let swapchain = self.handle();
                let images = self.handles(info.min_image_count as usize);
                let views = create_swapchain_image_views(&images, info.image_format);
                let view_handles = self.handles(views.len());
                self.swapchain = Some((swapchain, images.clone()));
                self.swapchain_data = match SwapchainData::new(&info, swapchain, images, view_handles) {
                    Ok(data) => Some(data),
                    Err(e) => return StageOutcome::Failed(e),
                };
            },
            Stage::ImageViews => {
                assert!(self.swapchain_data.as_ref().unwrap().is_complete());
            },
            Stage::RenderPass => {
                let info = create_render_pass(self.swapchain_data.as_ref().unwrap());
                assert_eq!(info.attachments.len(), 1);
                self.render_pass = self.handle();
            },
            Stage::Pipeline => {
                let modules = match create_shader_modules(&self.vertex, &self.fragment) {
                    Ok(modules) => modules,
                    Err(e) => return StageOutcome::Failed(e),
                };
                assert_eq!(modules.0.code.code().len(), 2);
                let (vertex, fragment) = (self.handle(), self.handle());
                create_pipeline_layout();
                let layout = self.handle();
                let info = create_pipeline(
                    self.swapchain_data.as_ref().unwrap(),
                    self.render_pass,
                    layout,
                    vertex,
                    fragment,
                );
                assert_eq!(info.stages.len(), 2);
                self.pipeline_data = Some(PipelineData { pipeline: self.handle(), layout });
                assert_eq!(release_shader_modules(vertex, fragment).len(), 2);
            },
            Stage::Framebuffers => {
                let infos = create_framebuffers(self.swapchain_data.as_ref().unwrap(), self.render_pass);
                self.framebuffers = self.handles(infos.len());
            },
            Stage::CommandPool => {
                create_command_pool(self.queue_data.as_ref().unwrap());
                self.command_pool = self.handle();
            },
            Stage::CommandBuffers => {
                let info = allocate_command_buffers(self.command_pool, &self.framebuffers);
                self.command_buffers = self.handles(info.command_buffer_count as usize);
                let recordings = create_command_buffers(
                    self.swapchain_data.as_ref().unwrap(),
                    self.render_pass,
                    self.pipeline_data.unwrap().pipeline,
                    &self.framebuffers,
                    &self.command_buffers,
                );
                for recording in recordings.iter() {
                    let replayed = replay(&recording.commands).unwrap();
                    assert_eq!(replayed.render_passes, 1);
                    assert_eq!(replayed.draws.len(), 1);
                }
            },
            Stage::SyncObjects => {
                let handles = self.handles(sync_object_infos().len());
                self.sync_objects =
                    match create_sync_objects(self.swapchain_data.as_ref().unwrap(), &handles) {
                        Ok(sync_objects) => Some(sync_objects),
                        Err(e) => return StageOutcome::Failed(e),
                    };
            },
        }
        StageOutcome::Done
    }

    fn start(mut self, diagnostics: bool) -> Result<(App, Vec<Stage>), Error> {
        let (mut startup, mut step) = Startup::new(diagnostics);
        loop {
            match step {
                StartupStep::Run(stage) => {
                    let outcome = self.run(stage, diagnostics);
                    step = startup.advance(outcome);
                },
                StartupStep::Abort(e) => return Err(e),
                StartupStep::Ready => break,
            }
        }
        let app = App::create(
            self.debug_data,
            self.surface_data.unwrap(),
            self.physical_device_data.unwrap(),
            self.queue_data.unwrap(),
            self.swapchain_data.unwrap(),
            self.render_pass,
            self.pipeline_data.unwrap(),
            self.framebuffers,
            self.command_pool,
            self.command_buffers,
            self.sync_objects.unwrap(),
        )?;
        Ok((app, self.created))
    }
}

fn fixed_surface() -> SurfaceCapabilities {
    SurfaceCapabilities {
        min_image_count: 1,
        max_image_count: 0,
        current_extent: Extent2D { width: 800, height: 600 },
        min_image_extent: Extent2D { width: 800, height: 600 },
        max_image_extent: Extent2D { width: 800, height: 600 },
        current_transform: 1,
    }
}

#[test]
fn startup_on_a_fixed_surface_of_800_by_600_succeeds_with_two_images() {
    let (app, created) = Device::new(fixed_surface()).start(false).unwrap();
    assert_eq!(created.len(), 12);
    assert_eq!(app.swapchain_data.images.len(), 2);
    assert_eq!(app.swapchain_data.image_views.len(), 2);
    assert_eq!(app.swapchain_data.extent, Extent2D { width: 800, height: 600 });
    assert_eq!(app.swapchain_data.format, 50);
    assert_eq!(app.framebuffers.len(), 2);
    assert_eq!(app.command_buffers.len(), 2);
    assert_eq!(app.sync_objects.images_in_flight, vec![0, 0]);
    assert_eq!(app.sync_objects.in_flight_fences.len(), 2);
    assert_eq!(app.queue_data.family_indices, QueueFamilyIndices { graphics: 1, present: 1 });
    assert_eq!(app.queue_data.graphics, 0x9001);
    assert_eq!(app.physical_device_data.device, 0xd2);
    assert_eq!(app.debug_data, None);
    assert_eq!(app.frame, 0);
    assert_eq!(app.phase, FramePhase::Idle);
}

#[test]
fn startup_with_diagnostics_installs_the_messenger() {
    let (app, created) = Device::new(fixed_surface()).start(true).unwrap();
    assert_eq!(created, ALL.to_vec());
    assert!(app.debug_data.is_some());
}

#[test]
fn startup_on_a_free_surface_clamps_the_window_size() {
    let mut surface = fixed_surface();
    surface.current_extent = Extent2D { width: u32::MAX, height: u32::MAX };
    surface.min_image_extent = Extent2D { width: 1024, height: 64 };
    surface.max_image_extent = Extent2D { width: 2048, height: 512 };
    surface.min_image_count = 2;
    surface.max_image_count = 2;
    let (app, _) = Device::new(surface).start(false).unwrap();
    assert_eq!(app.swapchain_data.extent, Extent2D { width: 1024, height: 512 });
    assert_eq!(app.swapchain_data.images.len(), 2);
}

#[test]
fn startup_with_a_malformed_shader_is_abandoned_at_the_pipeline() {
    let mut device = Device::new(fixed_surface());
    device.fragment = vec![1, 2, 3];
    assert_eq!(device.start(false).err(), Some(Error::InvalidBytecode { len: 3 }));
}

#[test]
fn startup_without_a_usable_device_is_abandoned() {
    let mut device = Device::new(fixed_surface());
    device.surface.min_image_count = u32::MAX;
    assert_eq!(
        device.start(false).err(),
        Some(Error::Initialization { stage: Stage::Swapchain, code: -3 })
    );
}

#[test]
fn shutdown_undoes_startup_in_reverse() {
    let (mut app, created) = Device::new(fixed_surface()).start(true).unwrap();
    let steps = app.destroy();
    let released: Vec<u64> = steps.iter().map(|s| s.handle).filter(|h| *h != 0).collect();
    let mut sorted = released.clone();
    sorted.sort();
    sorted.dedup();
    assert_eq!(sorted.len(), released.len());
    assert_eq!(created.first(), Some(&Stage::Instance));
    assert_eq!(created.last(), Some(&Stage::SyncObjects));
    assert_eq!(steps.last().unwrap().handle, 0);
    assert_eq!(steps[1].handle, app.sync_objects.in_flight_fences[0]);
}
