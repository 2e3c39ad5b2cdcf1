//! Releasing what startup has created, in the reverse order of creation.

use vstd::prelude::*;
use crate::base::App;
use crate::base::data::{PipelineData, SwapchainData, SwapchainSupport};
use crate::base::frame::FramePhase;
use crate::base::misfit;
use crate::base::vk;
use crate::error::{Error, Stage};

verus! {

/// What a step of a teardown does: it waits for the device to finish its
/// work, or it releases an object of the named kind.
#[derive(Clone, Copy, Debug, PartialEq, Eq, Structural)]
pub enum StepKind {
    WaitIdle,
    Fence,
    Semaphore,
    CommandBuffer,
    CommandPool,
    Framebuffer,
    ShaderModule,
    Pipeline,
    PipelineLayout,
    RenderPass,
    ImageView,
    Swapchain,
    Device,
    Surface,
    DebugMessenger,
    Instance,
}

/// One step of a teardown. The handle is 0 for the wait, and for the device
/// and the instance, of which there is one each.
#[derive(Clone, Copy, Debug, PartialEq, Eq, Structural)]
pub struct TeardownStep {
    pub kind: StepKind,
    pub handle: u64,
}

/// The step that releases one object.
pub open spec fn one(kind: StepKind, handle: u64) -> Seq<TeardownStep> {
    seq![TeardownStep { kind, handle }]
}

/// The steps that release objects of one kind, in the order of the handles.
pub open spec fn each(kind: StepKind, handles: Seq<u64>) -> Seq<TeardownStep> {
    Seq::new(handles.len(), |i: int| TeardownStep { kind, handle: handles[i] })
}

/// The steps of a shutdown: the wait for the device, then fences and
/// semaphores, the command pool (and with it the command buffers), the
/// framebuffers, the pipeline, its layout, the render pass, the image views,
/// the swapchain, the device, the surface, the debug messenger if there is
/// one, and the instance.
pub open spec fn shutdown_steps(app: App) -> Seq<TeardownStep> {
    one(StepKind::WaitIdle, 0) + each(StepKind::Fence, app.sync_objects.in_flight_fences@) + each(
        StepKind::Semaphore,
        app.sync_objects.render_finished_semaphores@,
    ) + each(StepKind::Semaphore, app.sync_objects.image_available_semaphores@) + one(
        StepKind::CommandPool,
        app.command_pool,
    ) + each(StepKind::Framebuffer, app.framebuffers@) + one(
        StepKind::Pipeline,
        app.pipeline_data.pipeline,
    ) + one(StepKind::PipelineLayout, app.pipeline_data.layout) + one(
        StepKind::RenderPass,
        app.render_pass,
    ) + each(StepKind::ImageView, app.swapchain_data.image_views@) + one(
        StepKind::Swapchain,
        app.swapchain_data.swapchain,
    ) + one(StepKind::Device, 0) + one(StepKind::Surface, app.surface_data.surface) + (
    match app.debug_data {
        Some(debug_data) => one(StepKind::DebugMessenger, debug_data.callback),
        None => seq![],
    }) + one(StepKind::Instance, 0)
}

/// The steps that make room for a new swapchain: the wait for the device,
/// then the command buffers, the framebuffers, the pipeline, its layout,
/// the render pass, the image views and the swapchain.
pub open spec fn retirement_steps(app: App) -> Seq<TeardownStep> {
    one(StepKind::WaitIdle, 0) + each(StepKind::CommandBuffer, app.command_buffers@) + each(
        StepKind::Framebuffer,
        app.framebuffers@,
    ) + one(StepKind::Pipeline, app.pipeline_data.pipeline) + one(
        StepKind::PipelineLayout,
        app.pipeline_data.layout,
    ) + one(StepKind::RenderPass, app.render_pass) + each(
        StepKind::ImageView,
        app.swapchain_data.image_views@,
    ) + one(StepKind::Swapchain, app.swapchain_data.swapchain)
}

fn push_one(steps: &mut Vec<TeardownStep>, kind: StepKind, handle: u64)
    ensures
        final(steps)@ == old(steps)@ + one(kind, handle),
{
    steps.push(TeardownStep { kind, handle });
}

fn push_each(steps: &mut Vec<TeardownStep>, kind: StepKind, handles: &Vec<u64>)
    ensures
        final(steps)@ == old(steps)@ + each(kind, handles@),
{
    let mut i: usize = 0;
    while i < handles.len()
        invariant
            i <= handles@.len(),
            steps@ == old(steps)@ + each(kind, handles@.take(i as int)),
        decreases handles@.len() - i,
    {
        steps.push(TeardownStep { kind, handle: handles[i] });
        i += 1;
    }
}

impl App {
    /// Ends rendering and says what is to be released, in which order. The
    /// first step waits for the device to finish its work.
    ///
    /// Afterwards no frame can begin, and nothing can be released again.
    pub fn destroy(&mut self) -> (steps: Vec<TeardownStep>)
        requires
            old(self).phase != FramePhase::Released,
        ensures
            steps@ == shutdown_steps(*old(self)),
            final(self).phase == FramePhase::Released,
            final(self).same_objects(old(self)),
            final(self).sync_objects == old(self).sync_objects,
            final(self).frame == old(self).frame,
    {
        let mut steps: Vec<TeardownStep> = Vec::new();
        push_one(&mut steps, StepKind::WaitIdle, 0);
        push_each(&mut steps, StepKind::Fence, &self.sync_objects.in_flight_fences);
        push_each(&mut steps, StepKind::Semaphore, &self.sync_objects.render_finished_semaphores);
        push_each(&mut steps, StepKind::Semaphore, &self.sync_objects.image_available_semaphores);
        push_one(&mut steps, StepKind::CommandPool, self.command_pool);
        push_each(&mut steps, StepKind::Framebuffer, &self.framebuffers);
        push_one(&mut steps, StepKind::Pipeline, self.pipeline_data.pipeline);
        push_one(&mut steps, StepKind::PipelineLayout, self.pipeline_data.layout);
        push_one(&mut steps, StepKind::RenderPass, self.render_pass);
        push_each(&mut steps, StepKind::ImageView, &self.swapchain_data.image_views);
        push_one(&mut steps, StepKind::Swapchain, self.swapchain_data.swapchain);
        push_one(&mut steps, StepKind::Device, 0);
        push_one(&mut steps, StepKind::Surface, self.surface_data.surface);
        match self.debug_data {
            Some(debug_data) => {
                push_one(&mut steps, StepKind::DebugMessenger, debug_data.callback);
            },
            None => {},
        }
        push_one(&mut steps, StepKind::Instance, 0);
        self.phase = FramePhase::Released;
        steps
    }

    /// Says what is to be released before the swapchain is created anew,
    /// and in which order.
    pub fn retire_swapchain(&self) -> (steps: Vec<TeardownStep>)
        ensures
            steps@ == retirement_steps(*self),
    {
        let mut steps: Vec<TeardownStep> = Vec::new();
        push_one(&mut steps, StepKind::WaitIdle, 0);
        push_each(&mut steps, StepKind::CommandBuffer, &self.command_buffers);
        push_each(&mut steps, StepKind::Framebuffer, &self.framebuffers);
        push_one(&mut steps, StepKind::Pipeline, self.pipeline_data.pipeline);
        push_one(&mut steps, StepKind::PipelineLayout, self.pipeline_data.layout);
        push_one(&mut steps, StepKind::RenderPass, self.render_pass);
        push_each(&mut steps, StepKind::ImageView, &self.swapchain_data.image_views);
        push_one(&mut steps, StepKind::Swapchain, self.swapchain_data.swapchain);
        steps
    }

    /// Replaces the swapchain and what was built on it by their successors,
    /// and the surface support that the old swapchain was negotiated from
    /// by the support that the new one was negotiated from. No image is
    /// owned by a fence afterwards; the slot counter and the objects of the
    /// slots stay.
    ///
    /// Successors that do not fit each other are refused, as a failure of
    /// the first stage whose objects do not fit, and nothing is replaced.
    pub fn recreate(
        &mut self,
        swapchain_support: SwapchainSupport,
        swapchain_data: SwapchainData,
        render_pass: u64,
        pipeline_data: PipelineData,
        framebuffers: Vec<u64>,
        command_buffers: Vec<u64>,
    ) -> (r: Result<(), Error>)
        requires
            old(self).wf(),
            old(self).phase == FramePhase::Idle,
        ensures
            final(self).wf(),
            match replacement_misfit(swapchain_data, framebuffers@, command_buffers@) {
                Some(stage) => {
                    &&& r == Err::<(), Error>(
                        Error::Initialization { stage, code: vk::error_initialization_failed() },
                    )
                    &&& *final(self) == *old(self)
                },
                None => {
                    &&& r is Ok
                    &&& final(self).swapchain_data == swapchain_data
                    &&& final(self).render_pass == render_pass
                    &&& final(self).pipeline_data == pipeline_data
                    &&& final(self).framebuffers == framebuffers
                    &&& final(self).command_buffers == command_buffers
                    &&& final(self).sync_objects.images_in_flight@ == Seq::new(
                        swapchain_data.images@.len(),
                        |i: int| 0u64,
                    )
                    &&& final(self).sync_objects.image_available_semaphores == old(
                        self,
                    ).sync_objects.image_available_semaphores
                    &&& final(self).sync_objects.render_finished_semaphores == old(
                        self,
                    ).sync_objects.render_finished_semaphores
                    &&& final(self).sync_objects.in_flight_fences == old(
                        self,
                    ).sync_objects.in_flight_fences
                    &&& final(self).frame == old(self).frame
                    &&& final(self).phase == FramePhase::Idle
                    &&& final(self).debug_data == old(self).debug_data
                    &&& final(self).surface_data == old(self).surface_data
                    &&& final(self).physical_device_data.device == old(
                        self,
                    ).physical_device_data.device
                    &&& final(self).physical_device_data.swapchain_support == swapchain_support
                    &&& final(self).queue_data == old(self).queue_data
                    &&& final(self).command_pool == old(self).command_pool
                },
            },
    {
        if !swapchain_data.is_complete() {
            return Err(
                Error::Initialization {
                    stage: Stage::ImageViews,
                    code: vk::initialization_failed_code(),
                },
            );
        }
        if framebuffers.len() != swapchain_data.image_views.len() {
            return Err(
                Error::Initialization {
                    stage: Stage::Framebuffers,
                    code: vk::initialization_failed_code(),
                },
            );
        }
        if command_buffers.len() != framebuffers.len() {
            return Err(
                Error::Initialization {
                    stage: Stage::CommandBuffers,
                    code: vk::initialization_failed_code(),
                },
            );
        }
        let mut images_in_flight: Vec<u64> = Vec::with_capacity(swapchain_data.images.len());
        let mut i: usize = 0;
        while i < swapchain_data.images.len()
            invariant
                i <= swapchain_data.images@.len(),
                images_in_flight@.len() == i,
                forall|j: int| 0 <= j < i ==> #[trigger] images_in_flight@[j] == 0,
            decreases swapchain_data.images@.len() - i,
        {
            images_in_flight.push(vk::null_fence());
            i += 1;
        }
        self.physical_device_data.swapchain_support = swapchain_support;
        self.swapchain_data = swapchain_data;
        self.render_pass = render_pass;
        self.pipeline_data = pipeline_data;
        self.framebuffers = framebuffers;
        self.command_buffers = command_buffers;
        self.sync_objects.images_in_flight = images_in_flight;
        Ok(())
    }
}

/// The first stage whose new objects do not fit those of the stages before
/// it: a view for every image, a framebuffer for every view, a command
/// buffer for every framebuffer.
pub open spec fn replacement_misfit(
    swapchain_data: SwapchainData,
    framebuffers: Seq<u64>,
    command_buffers: Seq<u64>,
) -> Option<Stage> {
    if !swapchain_data.is_complete() {
        Some(Stage::ImageViews)
    } else if framebuffers.len() != swapchain_data.image_views@.len() {
        Some(Stage::Framebuffers)
    } else if command_buffers.len() != framebuffers.len() {
        Some(Stage::CommandBuffers)
    } else {
        None
    }
}

/// Whether an object of the first kind is made from, or lives in, an object
/// of the second kind, so that it has to be released before it.
pub open spec fn depends_on(child: StepKind, parent: StepKind) -> bool {
    match parent {
        StepKind::Instance => child == StepKind::Device || child == StepKind::Surface || child
            == StepKind::DebugMessenger,
        StepKind::Device => child == StepKind::Fence || child == StepKind::Semaphore || child
            == StepKind::CommandPool || child == StepKind::CommandBuffer || child
            == StepKind::Framebuffer || child == StepKind::ShaderModule || child
            == StepKind::Pipeline || child == StepKind::PipelineLayout || child == StepKind::RenderPass || child
            == StepKind::ImageView || child == StepKind::Swapchain,
        StepKind::Surface => child == StepKind::Swapchain,
        StepKind::Swapchain => child == StepKind::ImageView,
        StepKind::ImageView => child == StepKind::Framebuffer,
        StepKind::RenderPass => child == StepKind::Framebuffer || child == StepKind::Pipeline,
        StepKind::PipelineLayout => child == StepKind::Pipeline,
        StepKind::CommandPool => child == StepKind::CommandBuffer,
        _ => false,
    }
}

/// The place of a kind in the order of release.
pub open spec fn release_rank(kind: StepKind) -> int {
    match kind {
        StepKind::WaitIdle => 0,
        StepKind::Fence => 1,
        StepKind::Semaphore => 2,
        StepKind::CommandBuffer => 3,
        StepKind::CommandPool => 4,
        StepKind::Framebuffer => 5,
        StepKind::ShaderModule => 6,
        StepKind::Pipeline => 7,
        StepKind::PipelineLayout => 8,
        StepKind::RenderPass => 9,
        StepKind::ImageView => 10,
        StepKind::Swapchain => 11,
        StepKind::Device => 12,
        StepKind::Surface => 13,
        StepKind::DebugMessenger => 14,
        StepKind::Instance => 15,
    }
}

/// Whether the steps follow the order of release and go no further in it
/// than `top`.
pub open spec fn ascending_up_to(steps: Seq<TeardownStep>, top: int) -> bool {
    &&& forall|i: int, j: int|
        0 <= i < j < steps.len() ==> release_rank(#[trigger] steps[i].kind) <= release_rank(
            #[trigger] steps[j].kind,
        )
    &&& forall|i: int| 0 <= i < steps.len() ==> release_rank(#[trigger] steps[i].kind) <= top
}

/// Whether the steps release every object before the objects it depends
/// on, after one wait for the device at the very beginning.
pub open spec fn releases_in_order(steps: Seq<TeardownStep>) -> bool {
    &&& steps.len() > 0
    &&& steps[0].kind == StepKind::WaitIdle
    &&& forall|i: int| 0 < i < steps.len() ==> (#[trigger] steps[i]).kind != StepKind::WaitIdle
    &&& forall|i: int, j: int|
        0 <= i < j < steps.len() ==> !depends_on(#[trigger] steps[j].kind, #[trigger] steps[i].kind)
}

proof fn lemma_extend(steps: Seq<TeardownStep>, top: int, more: Seq<TeardownStep>, kind: StepKind)
    requires
        ascending_up_to(steps, top),
        top <= release_rank(kind),
        forall|i: int| 0 <= i < more.len() ==> (#[trigger] more[i]).kind == kind,
    ensures
        ascending_up_to(steps + more, release_rank(kind)),
        steps.len() > 0 ==> (steps + more)[0] == steps[0],
        kind != StepKind::WaitIdle && (forall|i: int|
            0 < i < steps.len() ==> (#[trigger] steps[i]).kind != StepKind::WaitIdle) ==> (forall|
            i: int,
        | 0 < i < (steps + more).len() ==> (#[trigger] (steps + more)[i]).kind != StepKind::WaitIdle),
{
}

proof fn lemma_ascending_releases_in_order(steps: Seq<TeardownStep>, top: int)
    requires
        ascending_up_to(steps, top),
        steps.len() > 0,
        steps[0].kind == StepKind::WaitIdle,
        forall|i: int| 0 < i < steps.len() ==> (#[trigger] steps[i]).kind != StepKind::WaitIdle,
    ensures
        releases_in_order(steps),
{
}

/// A shutdown waits for the device first and then releases every object
/// before the objects that it depends on.
pub proof fn lemma_shutdown_releases_in_order(app: App)
    ensures
        releases_in_order(shutdown_steps(app)),
{
    let s0 = one(StepKind::WaitIdle, 0);
    lemma_extend(seq![], 0, s0, StepKind::WaitIdle);
    let m1 = each(StepKind::Fence, app.sync_objects.in_flight_fences@);
    lemma_extend(s0, release_rank(StepKind::WaitIdle), m1, StepKind::Fence);
    let s1 = s0 + m1;
    let m2 = each(StepKind::Semaphore, app.sync_objects.render_finished_semaphores@);
    lemma_extend(s1, release_rank(StepKind::Fence), m2, StepKind::Semaphore);
    let s2 = s1 + m2;
    let m3 = each(StepKind::Semaphore, app.sync_objects.image_available_semaphores@);
    lemma_extend(s2, release_rank(StepKind::Semaphore), m3, StepKind::Semaphore);
    let s3 = s2 + m3;
    let m4 = one(StepKind::CommandPool, app.command_pool);
    lemma_extend(s3, release_rank(StepKind::Semaphore), m4, StepKind::CommandPool);
    let s4 = s3 + m4;
    let m5 = each(StepKind::Framebuffer, app.framebuffers@);
    lemma_extend(s4, release_rank(StepKind::CommandPool), m5, StepKind::Framebuffer);
    let s5 = s4 + m5;
    let m6 = one(StepKind::Pipeline, app.pipeline_data.pipeline);
    lemma_extend(s5, release_rank(StepKind::Framebuffer), m6, StepKind::Pipeline);
    let s6 = s5 + m6;
    let m7 = one(StepKind::PipelineLayout, app.pipeline_data.layout);
    lemma_extend(s6, release_rank(StepKind::Pipeline), m7, StepKind::PipelineLayout);
    let s7 = s6 + m7;
    let m8 = one(StepKind::RenderPass, app.render_pass);
    lemma_extend(s7, release_rank(StepKind::PipelineLayout), m8, StepKind::RenderPass);
    let s8 = s7 + m8;
    let m9 = each(StepKind::ImageView, app.swapchain_data.image_views@);
    lemma_extend(s8, release_rank(StepKind::RenderPass), m9, StepKind::ImageView);
    let s9 = s8 + m9;
    let m10 = one(StepKind::Swapchain, app.swapchain_data.swapchain);
    lemma_extend(s9, release_rank(StepKind::ImageView), m10, StepKind::Swapchain);
    let s10 = s9 + m10;
    let m11 = one(StepKind::Device, 0);
    lemma_extend(s10, release_rank(StepKind::Swapchain), m11, StepKind::Device);
    let s11 = s10 + m11;
    let m12 = one(StepKind::Surface, app.surface_data.surface);
    lemma_extend(s11, release_rank(StepKind::Device), m12, StepKind::Surface);
    let s12 = s11 + m12;
    let m13 = match app.debug_data {
        Some(debug_data) => one(StepKind::DebugMessenger, debug_data.callback),
        None => seq![],
    };
    lemma_extend(s12, release_rank(StepKind::Surface), m13, StepKind::DebugMessenger);
    let s13 = s12 + m13;
    let m14 = one(StepKind::Instance, 0);
    lemma_extend(s13, release_rank(StepKind::DebugMessenger), m14, StepKind::Instance);
    let s14 = s13 + m14;
    lemma_ascending_releases_in_order(s14, release_rank(StepKind::Instance));
}

/// Making room for a new swapchain waits for the device first and then
/// releases every object before the objects that it depends on.
pub proof fn lemma_retirement_releases_in_order(app: App)
    ensures
        releases_in_order(retirement_steps(app)),
{
    let s0 = one(StepKind::WaitIdle, 0);
    lemma_extend(seq![], 0, s0, StepKind::WaitIdle);
    let m1 = each(StepKind::CommandBuffer, app.command_buffers@);
    lemma_extend(s0, release_rank(StepKind::WaitIdle), m1, StepKind::CommandBuffer);
    let s1 = s0 + m1;
    let m2 = each(StepKind::Framebuffer, app.framebuffers@);
    lemma_extend(s1, release_rank(StepKind::CommandBuffer), m2, StepKind::Framebuffer);
    let s2 = s1 + m2;
    let m3 = one(StepKind::Pipeline, app.pipeline_data.pipeline);
    lemma_extend(s2, release_rank(StepKind::Framebuffer), m3, StepKind::Pipeline);
    let s3 = s2 + m3;
    let m4 = one(StepKind::PipelineLayout, app.pipeline_data.layout);
    lemma_extend(s3, release_rank(StepKind::Pipeline), m4, StepKind::PipelineLayout);
    let s4 = s3 + m4;
    let m5 = one(StepKind::RenderPass, app.render_pass);
    lemma_extend(s4, release_rank(StepKind::PipelineLayout), m5, StepKind::RenderPass);
    let s5 = s4 + m5;
    let m6 = each(StepKind::ImageView, app.swapchain_data.image_views@);
    lemma_extend(s5, release_rank(StepKind::RenderPass), m6, StepKind::ImageView);
    let s6 = s5 + m6;
    let m7 = one(StepKind::Swapchain, app.swapchain_data.swapchain);
    lemma_extend(s6, release_rank(StepKind::ImageView), m7, StepKind::Swapchain);
    let s7 = s6 + m7;
    lemma_ascending_releases_in_order(s7, release_rank(StepKind::Swapchain));
}

} // verus!
