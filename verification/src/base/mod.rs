//! The renderer's state and the steps that build, drive and release it.

use vstd::prelude::*;
use crate::base::data::{
    DebugData, PhysicalDeviceData, PipelineData, QueueData, SurfaceData, SwapchainData, SyncObjects,
};
use crate::base::frame::{
    FrameAction, FrameEvent, FrameOutcome, FramePhase, ImageState, Scheduler, frame_step,
    image_state, phase_claim, phase_image,
};
use crate::base::pipeline::PipelineStage;
use crate::error::{Error, Stage};
use crate::util::constants::MAX_FRAMES_IN_FLIGHT;

pub mod commands;
pub mod data;
pub mod device;
pub mod frame;
pub mod instance;
pub mod pipeline;
pub mod startup;
pub mod swapchain;
pub mod teardown;
pub mod vk;

verus! {

/// Everything that startup has created, and the state of the frame cycle.
#[derive(Debug, PartialEq, Eq)]
pub struct App {
    pub debug_data: Option<DebugData>,
    pub surface_data: SurfaceData,
    pub physical_device_data: PhysicalDeviceData,
    pub queue_data: QueueData,
    pub swapchain_data: SwapchainData,
    pub render_pass: u64,
    pub pipeline_data: PipelineData,
    pub framebuffers: Vec<u64>,
    pub command_pool: u64,
    pub command_buffers: Vec<u64>,
    pub sync_objects: SyncObjects,
    /// The frame slot that the next frame uses.
    pub frame: usize,
    /// The device call of the current frame that is under way.
    pub phase: FramePhase,
}

/// The first stage whose objects do not fit those of the stages before it:
/// a view for every image, a framebuffer for every view, a command buffer
/// for every framebuffer, synchronisation objects for every slot and image.
pub open spec fn misfit(
    swapchain_data: SwapchainData,
    framebuffers: Seq<u64>,
    command_buffers: Seq<u64>,
    sync_objects: SyncObjects,
) -> Option<Stage> {
    if !swapchain_data.is_complete() {
        Some(Stage::ImageViews)
    } else if framebuffers.len() != swapchain_data.image_views@.len() {
        Some(Stage::Framebuffers)
    } else if command_buffers.len() != framebuffers.len() {
        Some(Stage::CommandBuffers)
    } else if !sync_objects.is_complete(swapchain_data.images.len()) {
        Some(Stage::SyncObjects)
    } else {
        None
    }
}

fn find_misfit(
    swapchain_data: &SwapchainData,
    framebuffers: &Vec<u64>,
    command_buffers: &Vec<u64>,
    sync_objects: &SyncObjects,
) -> (r: Option<Stage>)
    ensures
        r == misfit(*swapchain_data, framebuffers@, command_buffers@, *sync_objects),
{
    if !swapchain_data.is_complete() {
        Some(Stage::ImageViews)
    } else if framebuffers.len() != swapchain_data.image_views.len() {
        Some(Stage::Framebuffers)
    } else if command_buffers.len() != framebuffers.len() {
        Some(Stage::CommandBuffers)
    } else if !sync_objects.is_complete(swapchain_data.images.len()) {
        Some(Stage::SyncObjects)
    } else {
        None
    }
}

impl App {
    /// The objects fit each other, the slot counter names a slot, the image
    /// that is being worked on is an image of the swapchain, and once the
    /// slot has taken it, it is owned by the slot's fence.
    pub open spec fn wf(&self) -> bool {
        &&& misfit(
            self.swapchain_data,
            self.framebuffers@,
            self.command_buffers@,
            self.sync_objects,
        ) is None
        &&& self.frame < MAX_FRAMES_IN_FLIGHT
        &&& phase_image(self.phase) matches Some(image_index) ==> image_index
            < self.swapchain_data.images@.len()
        &&& phase_claim(self.phase) matches Some(image_index)
            ==> self.sync_objects.images_in_flight@[image_index as int]
            == self.sync_objects.in_flight_fences@[self.frame as int]
    }

    /// Whether the objects fit each other and the frame cycle is in a
    /// state that it can go on from.
    pub fn is_well_formed(&self) -> (r: bool)
        ensures
            r == self.wf(),
    {
        let fits: bool = find_misfit(
            &self.swapchain_data,
            &self.framebuffers,
            &self.command_buffers,
            &self.sync_objects,
        ).is_none();
        if !fits || self.frame >= MAX_FRAMES_IN_FLIGHT {
            return false;
        }
        let images: usize = self.swapchain_data.images.len();
        let slot_fence: u64 = self.sync_objects.in_flight_fences[self.frame];
        match self.phase {
            FramePhase::ImageFence { image_index } => (image_index as usize) < images,
            FramePhase::Reset { image_index } => (image_index as usize) < images
                && self.sync_objects.images_in_flight[image_index as usize] == slot_fence,
            FramePhase::Submit { image_index } => (image_index as usize) < images
                && self.sync_objects.images_in_flight[image_index as usize] == slot_fence,
            FramePhase::Present { image_index } => (image_index as usize) < images
                && self.sync_objects.images_in_flight[image_index as usize] == slot_fence,
            _ => true,
        }
    }

    /// What the frame cycle works on.
    pub open spec fn scheduler(&self) -> Scheduler {
        Scheduler {
            frame: self.frame,
            phase: self.phase,
            images_in_flight: self.sync_objects.images_in_flight@,
            image_available_semaphores: self.sync_objects.image_available_semaphores@,
            render_finished_semaphores: self.sync_objects.render_finished_semaphores@,
            in_flight_fences: self.sync_objects.in_flight_fences@,
            command_buffers: self.command_buffers@,
            swapchain: self.swapchain_data.swapchain,
            graphics_queue: self.queue_data.graphics,
            present_queue: self.queue_data.present,
        }
    }

    /// Whether two states hold the same objects, whatever their frame
    /// cycles have come to.
    pub open spec fn same_objects(&self, other: &App) -> bool {
        &&& self.debug_data == other.debug_data
        &&& self.surface_data == other.surface_data
        &&& self.physical_device_data == other.physical_device_data
        &&& self.queue_data == other.queue_data
        &&& self.swapchain_data == other.swapchain_data
        &&& self.render_pass == other.render_pass
        &&& self.pipeline_data == other.pipeline_data
        &&& self.framebuffers == other.framebuffers
        &&& self.command_pool == other.command_pool
        &&& self.command_buffers == other.command_buffers
        &&& self.sync_objects.image_available_semaphores
            == other.sync_objects.image_available_semaphores
        &&& self.sync_objects.render_finished_semaphores
            == other.sync_objects.render_finished_semaphores
        &&& self.sync_objects.in_flight_fences == other.sync_objects.in_flight_fences
    }

    /// Puts together what the startup stages have created. The first frame
    /// uses slot 0.
    ///
    /// Objects that do not fit each other are refused, as a failure of the
    /// first stage whose objects do not fit.
    pub fn create(
        debug_data: Option<DebugData>,
        surface_data: SurfaceData,
        physical_device_data: PhysicalDeviceData,
        queue_data: QueueData,
        swapchain_data: SwapchainData,
        render_pass: u64,
        pipeline_data: PipelineData,
        framebuffers: Vec<u64>,
        command_pool: u64,
        command_buffers: Vec<u64>,
        sync_objects: SyncObjects,
    ) -> (r: Result<App, Error>)
        ensures
            match misfit(swapchain_data, framebuffers@, command_buffers@, sync_objects) {
                Some(stage) => r == Err::<App, Error>(
                    Error::Initialization { stage, code: vk::error_initialization_failed() },
                ),
                None => r == Ok::<App, Error>(
                    App {
                        debug_data,
                        surface_data,
                        physical_device_data,
                        queue_data,
                        swapchain_data,
                        render_pass,
                        pipeline_data,
                        framebuffers,
                        command_pool,
                        command_buffers,
                        sync_objects,
                        frame: 0,
                        phase: FramePhase::Idle,
                    },
                ),
            },
            r matches Ok(app) ==> app.wf(),
    {
        match find_misfit(&swapchain_data, &framebuffers, &command_buffers, &sync_objects) {
            Some(stage) => Err(
                Error::Initialization { stage, code: vk::initialization_failed_code() },
            ),
            None => Ok(
                App {
                    debug_data,
                    surface_data,
                    physical_device_data,
                    queue_data,
                    swapchain_data,
                    render_pass,
                    pipeline_data,
                    framebuffers,
                    command_pool,
                    command_buffers,
                    sync_objects,
                    frame: 0,
                    phase: FramePhase::Idle,
                },
            ),
        }
    }

    /// Where an image of the swapchain stands in the frame cycle.
    pub fn image_state(&self, image_index: u32) -> (r: ImageState)
        requires
            image_index < self.sync_objects.images_in_flight@.len(),
        ensures
            r == image_state(self.scheduler(), image_index),
    {
        let current: Option<u32> = match self.phase {
            FramePhase::ImageFence { image_index } => Some(image_index),
            FramePhase::Reset { image_index } => Some(image_index),
            FramePhase::Submit { image_index } => Some(image_index),
            FramePhase::Present { image_index } => Some(image_index),
            _ => None,
        };
        let presenting: bool = match self.phase {
            FramePhase::Present { image_index: _ } => true,
            _ => false,
        };
        let held: bool = match current {
            Some(current) => current == image_index,
            None => false,
        };
        if held {
            if presenting {
                ImageState::Submitted
            } else {
                ImageState::Acquired
            }
        } else if !vk::fence_is_null(self.sync_objects.images_in_flight[image_index as usize]) {
            ImageState::Presented
        } else {
            ImageState::Idle
        }
    }

    /// Whether `event` can be the end of the device call under way.
    pub fn accepts(&self, event: FrameEvent) -> (r: bool)
        ensures
            r == self.scheduler().accepts(event),
    {
        match self.phase {
            FramePhase::Idle => match event {
                FrameEvent::Start => true,
                _ => false,
            },
            FramePhase::Acquire => match event {
                FrameEvent::Acquired { image_index } => (image_index as usize)
                    < self.sync_objects.images_in_flight.len(),
                FrameEvent::Failed { code: _ } => true,
                _ => false,
            },
            FramePhase::Released => false,
            _ => match event {
                FrameEvent::Done => true,
                FrameEvent::Failed { code: _ } => true,
                _ => false,
            },
        }
    }

    fn give_up(&mut self, code: i32) -> (action: FrameAction)
        ensures
            (final(self).scheduler(), action) == crate::base::frame::give_up(
                old(self).scheduler(),
                code,
            ),
            final(self).same_objects(old(self)),
            final(self).sync_objects.images_in_flight == old(self).sync_objects.images_in_flight,
    {
        self.phase = FramePhase::Idle;
        if code == vk::out_of_date_code() {
            FrameAction::Finished(FrameOutcome::OutOfDate)
        } else {
            FrameAction::Finished(FrameOutcome::Failed { code })
        }
    }

    fn claim_image(&mut self, image_index: u32) -> (action: FrameAction)
        requires
            old(self).wf(),
            image_index < old(self).sync_objects.images_in_flight@.len(),
        ensures
            (final(self).scheduler(), action) == crate::base::frame::claim_image(
                old(self).scheduler(),
                image_index,
            ),
            final(self).same_objects(old(self)),
    {
        let fence: u64 = self.sync_objects.in_flight_fences[self.frame];
        self.sync_objects.images_in_flight.set(image_index as usize, fence);
        self.phase = FramePhase::Reset { image_index };
        FrameAction::ResetFence { fence }
    }

    /// Takes the frame cycle one step further: given how the device call
    /// that was asked for last has ended, says which call is to be made
    /// next, or how the frame has ended.
    ///
    /// A frame begins with `Start` and ends with `Finished`. In between the
    /// caller makes each call and reports `Done`, `Acquired` or `Failed`.
    pub fn render_frame(&mut self, event: FrameEvent) -> (action: FrameAction)
        requires
            old(self).wf(),
            old(self).scheduler().accepts(event),
        ensures
            final(self).wf(),
            (final(self).scheduler(), action) == frame_step(old(self).scheduler(), event),
            final(self).same_objects(old(self)),
    {
        if let FrameEvent::Failed { code } = event {
            return self.give_up(code);
        }
        let slot: usize = self.frame;
        match self.phase {
            FramePhase::Idle => {
                self.phase = FramePhase::SlotFence;
                FrameAction::WaitForFence {
                    fence: self.sync_objects.in_flight_fences[slot],
                    timeout: u64::MAX,
                }
            },
            FramePhase::SlotFence => {
                self.phase = FramePhase::Acquire;
                FrameAction::AcquireNextImage {
                    swapchain: self.swapchain_data.swapchain,
                    timeout: u64::MAX,
                    semaphore: self.sync_objects.image_available_semaphores[slot],
                    fence: vk::null_fence(),
                }
            },
            FramePhase::Acquire => {
                match event {
                    FrameEvent::Acquired { image_index } => {
                        let image_in_flight: u64 = self.sync_objects.images_in_flight[image_index as usize];
                        if !vk::fence_is_null(image_in_flight) {
                            self.phase = FramePhase::ImageFence { image_index };
                            FrameAction::WaitForFence { fence: image_in_flight, timeout: u64::MAX }
                        } else {
                            self.claim_image(image_index)
                        }
                    },
                    _ => {
                        assert(false);
                        FrameAction::Finished(FrameOutcome::Presented)
                    },
                }
            },
            FramePhase::ImageFence { image_index } => self.claim_image(image_index),
            FramePhase::Reset { image_index } => {
                self.phase = FramePhase::Submit { image_index };
                FrameAction::QueueSubmit {
                    queue: self.queue_data.graphics,
                    wait_semaphore: self.sync_objects.image_available_semaphores[slot],
                    wait_stage: PipelineStage::ColorAttachmentOutput,
                    command_buffer: self.command_buffers[image_index as usize],
                    signal_semaphore: self.sync_objects.render_finished_semaphores[slot],
                    fence: self.sync_objects.in_flight_fences[slot],
                }
            },
            FramePhase::Submit { image_index } => {
                self.phase = FramePhase::Present { image_index };
                FrameAction::QueuePresent {
                    queue: self.queue_data.present,
                    wait_semaphore: self.sync_objects.render_finished_semaphores[slot],
                    swapchain: self.swapchain_data.swapchain,
                    image_index,
                }
            },
            FramePhase::Present { image_index: _ } => {
                self.phase = FramePhase::Idle;
                self.frame = (slot + 1) % MAX_FRAMES_IN_FLIGHT;
                FrameAction::Finished(FrameOutcome::Presented)
            },
            FramePhase::Released => {
                assert(false);
                FrameAction::Finished(FrameOutcome::Presented)
            },
        }
    }
}

/// A well-formed state gives the frame cycle what it needs, so that what
/// is proved of the cycle holds of the state.
pub proof fn lemma_scheduler_is_well_formed(app: App)
    requires
        app.wf(),
    ensures
        app.scheduler().wf(),
{
}

} // verus!
