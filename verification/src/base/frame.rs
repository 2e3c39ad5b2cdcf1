//! The synchronisation objects and the cycle of one frame: wait for the
//! slot, acquire an image, submit its command buffer, present it.
//!
//! No device call is made here. `frame_step` says which call comes next,
//! given how the last one ended; the caller makes the call and reports back.

use vstd::prelude::*;
use crate::base::data::{SwapchainData, SyncObjects};
use crate::base::pipeline::PipelineStage;
use crate::base::vk;
use crate::error::{Error, Stage};
use crate::util::constants::MAX_FRAMES_IN_FLIGHT;

verus! {

/// The purpose of a synchronisation object of a frame slot.
#[derive(Clone, Copy, Debug, PartialEq, Eq, Structural)]
pub enum SyncObjectKind {
    /// Signalled when the acquired image may be drawn into.
    ImageAvailableSemaphore,
    /// Signalled when the frame's commands have finished.
    RenderFinishedSemaphore,
    /// Lets the CPU wait for the frame's commands to finish.
    InFlightFence,
}

/// A synchronisation object that is asked for.
#[derive(Clone, Copy, Debug, PartialEq, Eq, Structural)]
pub struct SyncObjectCreateInfo {
    pub kind: SyncObjectKind,
    /// The frame slot that the object belongs to.
    pub slot: usize,
    /// Whether the object, being a fence, starts out signalled.
    pub signaled: bool,
}

/// The `i`-th object in the order of creation: for slot after slot its two
/// semaphores and then its fence, which starts out signalled so that the
/// first wait for the slot returns at once.
pub open spec fn sync_object_at(i: int) -> SyncObjectCreateInfo {
    SyncObjectCreateInfo {
        kind: if i % 3 == 0 {
            SyncObjectKind::ImageAvailableSemaphore
        } else if i % 3 == 1 {
            SyncObjectKind::RenderFinishedSemaphore
        } else {
            SyncObjectKind::InFlightFence
        },
        slot: (i / 3) as usize,
        signaled: i % 3 == 2,
    }
}

/// Describes the synchronisation objects of all frame slots, in the order
/// in which they are created.
pub fn sync_object_infos() -> (r: Vec<SyncObjectCreateInfo>)
    ensures
        r@.len() == 3 * MAX_FRAMES_IN_FLIGHT,
        forall|i: int| 0 <= i < r@.len() ==> #[trigger] r@[i] == sync_object_at(i),
{
    let mut infos: Vec<SyncObjectCreateInfo> = Vec::new();
    let mut slot: usize = 0;
    while slot < MAX_FRAMES_IN_FLIGHT
        invariant
            slot <= MAX_FRAMES_IN_FLIGHT,
            infos@.len() == 3 * slot,
            forall|i: int| 0 <= i < infos@.len() ==> #[trigger] infos@[i] == sync_object_at(i),
        decreases MAX_FRAMES_IN_FLIGHT - slot,
    {
        infos.push(
            SyncObjectCreateInfo {
                kind: SyncObjectKind::ImageAvailableSemaphore,
                slot,
                signaled: false,
            },
        );
        infos.push(
            SyncObjectCreateInfo {
                kind: SyncObjectKind::RenderFinishedSemaphore,
                slot,
                signaled: false,
            },
        );
        infos.push(SyncObjectCreateInfo { kind: SyncObjectKind::InFlightFence, slot, signaled: true });
        slot += 1;
    }
    infos
}

impl SyncObjects {
    /// Every frame slot has its two semaphores and its fence, which is no
    /// null handle, and every one of `images` swapchain images has its
    /// entry.
    pub open spec fn spec_is_complete(&self, images: usize) -> bool {
        &&& self.image_available_semaphores@.len() == MAX_FRAMES_IN_FLIGHT
        &&& self.render_finished_semaphores@.len() == MAX_FRAMES_IN_FLIGHT
        &&& self.in_flight_fences@.len() == MAX_FRAMES_IN_FLIGHT
        &&& self.images_in_flight@.len() == images
        &&& forall|slot: int|
            0 <= slot < self.in_flight_fences@.len() ==> #[trigger] self.in_flight_fences@[slot] != 0
    }

    #[verifier::when_used_as_spec(spec_is_complete)]
    pub fn is_complete(&self, images: usize) -> (r: bool)
        ensures
            r == self.spec_is_complete(images),
    {
        if self.image_available_semaphores.len() != MAX_FRAMES_IN_FLIGHT
            || self.render_finished_semaphores.len() != MAX_FRAMES_IN_FLIGHT
            || self.in_flight_fences.len() != MAX_FRAMES_IN_FLIGHT || self.images_in_flight.len()
            != images {
            return false;
        }
        let mut slot: usize = 0;
        while slot < self.in_flight_fences.len()
            invariant
                slot <= self.in_flight_fences@.len(),
                forall|k: int| 0 <= k < slot ==> #[trigger] self.in_flight_fences@[k] != 0,
            decreases self.in_flight_fences@.len() - slot,
        {
            if vk::fence_is_null(self.in_flight_fences[slot]) {
                return false;
            }
            slot += 1;
        }
        true
    }
}

/// Whether `sync_objects` holds the handles that the device returned for
/// `sync_object_infos`, in that order, sorted into the frame slots, and an
/// empty entry for each of `images` swapchain images.
pub open spec fn sorted_into_slots(sync_objects: SyncObjects, handles: Seq<u64>, images: usize) -> bool {
    &&& sync_objects.is_complete(images)
    &&& forall|slot: int|
        0 <= slot < MAX_FRAMES_IN_FLIGHT ==> {
            &&& #[trigger] sync_objects.image_available_semaphores@[slot] == handles[3 * slot]
            &&& sync_objects.render_finished_semaphores@[slot] == handles[3 * slot + 1]
            &&& sync_objects.in_flight_fences@[slot] == handles[3 * slot + 2]
        }
    &&& forall|i: int|
        0 <= i < sync_objects.images_in_flight@.len() ==> #[trigger] sync_objects.images_in_flight@[i]
            == 0
}

/// Whether there is a handle for each of the objects of
/// `sync_object_infos`, none of the fences being a null handle.
pub open spec fn handles_fit(handles: Seq<u64>) -> bool {
    &&& handles.len() == 3 * MAX_FRAMES_IN_FLIGHT
    &&& forall|slot: int| 0 <= slot < MAX_FRAMES_IN_FLIGHT ==> #[trigger] handles[3 * slot + 2] != 0
}

/// Sorts the handles that the device returned for `sync_object_infos`, in
/// that order, into the frame slots, and gives every swapchain image an
/// empty entry.
///
/// Handles that are not one per object, or that hold a null handle for a
/// fence, are refused, as a failure of the stage that creates them.
pub fn create_sync_objects(swapchain_data: &SwapchainData, handles: &Vec<u64>) -> (r: Result<
    SyncObjects,
    Error,
>)
    ensures
        r is Ok <==> handles_fit(handles@),
        r matches Ok(sync_objects) ==> sorted_into_slots(
            sync_objects,
            handles@,
            swapchain_data.images.len(),
        ),
        r matches Err(e) ==> e == (Error::Initialization {
            stage: Stage::SyncObjects,
            code: vk::error_initialization_failed(),
        }),
{
    if handles.len() != 3 * MAX_FRAMES_IN_FLIGHT {
        return Err(
            Error::Initialization {
                stage: Stage::SyncObjects,
                code: vk::initialization_failed_code(),
            },
        );
    }
    let mut image_available_semaphores: Vec<u64> = Vec::new();
    let mut render_finished_semaphores: Vec<u64> = Vec::new();
    let mut in_flight_fences: Vec<u64> = Vec::new();
    let mut slot: usize = 0;
    while slot < MAX_FRAMES_IN_FLIGHT
        invariant
            slot <= MAX_FRAMES_IN_FLIGHT,
            handles@.len() == 3 * MAX_FRAMES_IN_FLIGHT,
            image_available_semaphores@.len() == slot,
            render_finished_semaphores@.len() == slot,
            in_flight_fences@.len() == slot,
            forall|s: int|
                0 <= s < slot ==> {
                    &&& #[trigger] image_available_semaphores@[s] == handles@[3 * s]
                    &&& render_finished_semaphores@[s] == handles@[3 * s + 1]
                    &&& in_flight_fences@[s] == handles@[3 * s + 2]
                },
            forall|s: int| 0 <= s < slot ==> #[trigger] in_flight_fences@[s] != 0,
            forall|s: int| 0 <= s < slot ==> #[trigger] handles@[3 * s + 2] != 0,
        decreases MAX_FRAMES_IN_FLIGHT - slot,
    {
        if vk::fence_is_null(handles[3 * slot + 2]) {
            return Err(
                Error::Initialization {
                    stage: Stage::SyncObjects,
                    code: vk::initialization_failed_code(),
                },
            );
        }
        image_available_semaphores.push(handles[3 * slot]);
        render_finished_semaphores.push(handles[3 * slot + 1]);
        in_flight_fences.push(handles[3 * slot + 2]);
        slot += 1;
    }
    let mut images_in_flight: Vec<u64> = Vec::with_capacity(swapchain_data.images.len());
    let mut i: usize = 0;
    while i < swapchain_data.images.len()
        invariant
            i <= swapchain_data.images@.len(),
            images_in_flight@.len() == i,
            forall|j: int| 0 <= j < i ==> #[trigger] images_in_flight@[j] == 0,
        decreases swapchain_data.images@.len() - i,
    {
        images_in_flight.push(vk::null_fence());
        i += 1;
    }
    Ok(
        SyncObjects {
            image_available_semaphores,
            render_finished_semaphores,
            in_flight_fences,
            images_in_flight,
        },
    )
}

/// The device call of the current frame that is under way.
#[derive(Clone, Copy, Debug, PartialEq, Eq, Structural)]
pub enum FramePhase {
    /// No frame is under way.
    Idle,
    /// Waiting for the slot's fence.
    SlotFence,
    /// Acquiring the next image.
    Acquire,
    /// Waiting for the fence of the slot that last drew into the image.
    ImageFence { image_index: u32 },
    /// Resetting the slot's fence.
    Reset { image_index: u32 },
    /// Submitting the image's command buffer.
    Submit { image_index: u32 },
    /// Presenting the image.
    Present { image_index: u32 },
    /// Everything has been released; no frame can begin.
    Released,
}

/// How the device call that was asked for last has ended.
#[derive(Clone, Copy, Debug, PartialEq, Eq, Structural)]
pub enum FrameEvent {
    /// Nothing was asked for yet: a frame is to begin.
    Start,
    /// The call succeeded.
    Done,
    /// The acquisition succeeded and returned this image.
    Acquired { image_index: u32 },
    /// The call failed with this result code.
    Failed { code: i32 },
}

/// How a frame has ended.
#[derive(Clone, Copy, Debug, PartialEq, Eq, Structural)]
pub enum FrameOutcome {
    /// The image was handed to the presentation engine.
    Presented,
    /// The swapchain no longer fits the surface and has to be created anew;
    /// nothing was submitted.
    OutOfDate,
    /// A device call failed; rendering cannot go on.
    Failed { code: i32 },
}

/// The device call that is to be made next, or the end of the frame.
#[derive(Clone, Copy, Debug, PartialEq, Eq, Structural)]
pub enum FrameAction {
    WaitForFence { fence: u64, timeout: u64 },
    AcquireNextImage { swapchain: u64, timeout: u64, semaphore: u64, fence: u64 },
    ResetFence { fence: u64 },
    QueueSubmit {
        queue: u64,
        wait_semaphore: u64,
        wait_stage: PipelineStage,
        command_buffer: u64,
        signal_semaphore: u64,
        fence: u64,
    },
    QueuePresent { queue: u64, wait_semaphore: u64, swapchain: u64, image_index: u32 },
    Finished(FrameOutcome),
}

impl FrameOutcome {
    /// The outcome as a result: an out-of-date swapchain and a failed call
    /// are errors, of which only the first lets the process go on.
    pub open spec fn spec_result(self) -> Result<(), Error> {
        match self {
            FrameOutcome::Presented => Ok(()),
            FrameOutcome::OutOfDate => Err(Error::SwapchainOutOfDate),
            FrameOutcome::Failed { code } => Err(Error::FrameSubmission { code }),
        }
    }

    #[verifier::when_used_as_spec(spec_result)]
    pub fn result(self) -> (r: Result<(), Error>)
        ensures
            r == self.spec_result(),
    {
        match self {
            FrameOutcome::Presented => Ok(()),
            FrameOutcome::OutOfDate => Err(Error::SwapchainOutOfDate),
            FrameOutcome::Failed { code } => Err(Error::FrameSubmission { code }),
        }
    }
}

/// What the frame cycle works on: the slot counter, the call under way, the
/// fence that owns each image, and the handles that the calls are made with.
pub struct Scheduler {
    pub frame: usize,
    pub phase: FramePhase,
    pub images_in_flight: Seq<u64>,
    pub image_available_semaphores: Seq<u64>,
    pub render_finished_semaphores: Seq<u64>,
    pub in_flight_fences: Seq<u64>,
    pub command_buffers: Seq<u64>,
    pub swapchain: u64,
    pub graphics_queue: u64,
    pub present_queue: u64,
}

/// The image that the slot has taken, if the frame has got that far.
pub open spec fn phase_claim(phase: FramePhase) -> Option<u32> {
    match phase {
        FramePhase::Reset { image_index } => Some(image_index),
        FramePhase::Submit { image_index } => Some(image_index),
        FramePhase::Present { image_index } => Some(image_index),
        _ => None,
    }
}

/// The image that the call under way is about, if it is about one.
pub open spec fn phase_image(phase: FramePhase) -> Option<u32> {
    match phase {
        FramePhase::ImageFence { image_index } => Some(image_index),
        FramePhase::Reset { image_index } => Some(image_index),
        FramePhase::Submit { image_index } => Some(image_index),
        FramePhase::Present { image_index } => Some(image_index),
        _ => None,
    }
}

impl Scheduler {
    /// Every slot has its objects, the slot counter names a slot, every
    /// image has its command buffer and its entry, the image that is
    /// being worked on is one of them, and once the slot has taken it, it
    /// is owned by the slot's fence.
    pub open spec fn wf(self) -> bool {
        &&& self.frame < MAX_FRAMES_IN_FLIGHT
        &&& self.image_available_semaphores.len() == MAX_FRAMES_IN_FLIGHT
        &&& self.render_finished_semaphores.len() == MAX_FRAMES_IN_FLIGHT
        &&& self.in_flight_fences.len() == MAX_FRAMES_IN_FLIGHT
        &&& forall|slot: int|
            0 <= slot < self.in_flight_fences.len() ==> #[trigger] self.in_flight_fences[slot] != 0
        &&& self.images_in_flight.len() == self.command_buffers.len()
        &&& phase_image(self.phase) matches Some(image_index) ==> image_index
            < self.images_in_flight.len()
        &&& phase_claim(self.phase) matches Some(image_index) ==> self.images_in_flight[image_index as int]
            == self.slot_fence()
    }

    /// The fence of the current slot.
    pub open spec fn slot_fence(self) -> u64 {
        self.in_flight_fences[self.frame as int]
    }

    /// Whether `event` can be the end of the call under way.
    pub open spec fn accepts(self, event: FrameEvent) -> bool {
        match self.phase {
            FramePhase::Idle => event is Start,
            FramePhase::Acquire => match event {
                FrameEvent::Acquired { image_index } => image_index < self.images_in_flight.len(),
                FrameEvent::Failed { .. } => true,
                _ => false,
            },
            FramePhase::Released => false,
            _ => event is Done || event is Failed,
        }
    }
}

/// Where a swapchain image stands in the frame cycle.
#[derive(Clone, Copy, Debug, PartialEq, Eq, Structural)]
pub enum ImageState {
    /// No frame has used the image since the swapchain was created.
    Idle,
    /// The frame under way has acquired the image; its commands are not
    /// known to be submitted yet.
    Acquired,
    /// The commands that draw into the image are submitted; its
    /// presentation is asked for.
    Submitted,
    /// A frame has handed the image on; the fence in its entry tells when
    /// the device has finished with it.
    Presented,
}

/// The state of an image between two steps of the frame cycle.
pub open spec fn image_state(s: Scheduler, image: u32) -> ImageState {
    if phase_image(s.phase) == Some(image) {
        if s.phase is Present {
            ImageState::Submitted
        } else {
            ImageState::Acquired
        }
    } else if s.images_in_flight[image as int] != 0 {
        ImageState::Presented
    } else {
        ImageState::Idle
    }
}

/// Whether an image can pass from one state to the next in one step: it
/// stays as it is, or it is acquired, then submitted, then presented; or
/// the frame that holds it is given up.
pub open spec fn image_moves(before: ImageState, after: ImageState, given_up: bool) -> bool {
    ||| after == before
    ||| (before == ImageState::Idle || before == ImageState::Presented) && after
        == ImageState::Acquired
    ||| before == ImageState::Acquired && after == ImageState::Submitted
    ||| before == ImageState::Submitted && after == ImageState::Presented
    ||| given_up && (before == ImageState::Acquired || before == ImageState::Submitted) && (after
        == ImageState::Idle || after == ImageState::Presented)
}

/// The wait for a fence, without a limit of time.
pub open spec fn wait_for(fence: u64) -> FrameAction {
    FrameAction::WaitForFence { fence, timeout: u64::MAX }
}

/// How a frame ends whose device call failed with `code`.
pub open spec fn failure_outcome(code: i32) -> FrameOutcome {
    if code == vk::error_out_of_date() {
        FrameOutcome::OutOfDate
    } else {
        FrameOutcome::Failed { code }
    }
}

/// The frame is given up: the slot counter and the entries stay as they
/// are.
pub open spec fn give_up(s: Scheduler, code: i32) -> (Scheduler, FrameAction) {
    (Scheduler { phase: FramePhase::Idle, ..s }, FrameAction::Finished(failure_outcome(code)))
}

/// The slot takes the image: its fence becomes the image's entry and is to
/// be reset before the submission signals it again.
pub open spec fn claim_image(s: Scheduler, image_index: u32) -> (Scheduler, FrameAction) {
    (
        Scheduler {
            phase: FramePhase::Reset { image_index },
            images_in_flight: s.images_in_flight.update(image_index as int, s.slot_fence()),
            ..s
        },
        FrameAction::ResetFence { fence: s.slot_fence() },
    )
}

/// The acquisition of the next image, which signals the slot's
/// image-available semaphore.
pub open spec fn acquisition(s: Scheduler) -> FrameAction {
    FrameAction::AcquireNextImage {
        swapchain: s.swapchain,
        timeout: u64::MAX,
        semaphore: s.image_available_semaphores[s.frame as int],
        fence: 0,
    }
}

/// The submission of the image's command buffer: it waits at the colour
/// output stage for the image to be available, and signals the slot's
/// render-finished semaphore and fence.
pub open spec fn submission(s: Scheduler, image_index: u32) -> FrameAction {
    FrameAction::QueueSubmit {
        queue: s.graphics_queue,
        wait_semaphore: s.image_available_semaphores[s.frame as int],
        wait_stage: PipelineStage::ColorAttachmentOutput,
        command_buffer: s.command_buffers[image_index as int],
        signal_semaphore: s.render_finished_semaphores[s.frame as int],
        fence: s.slot_fence(),
    }
}

/// The presentation of the image once rendering has finished.
pub open spec fn presentation(s: Scheduler, image_index: u32) -> FrameAction {
    FrameAction::QueuePresent {
        queue: s.present_queue,
        wait_semaphore: s.render_finished_semaphores[s.frame as int],
        swapchain: s.swapchain,
        image_index,
    }
}

/// The slot that follows `frame`.
pub open spec fn next_slot(frame: usize) -> usize {
    ((frame + 1) % (MAX_FRAMES_IN_FLIGHT as int)) as usize
}

/// One step of the frame cycle: from the state and the end of the last
/// device call to the next state and the next call.
///
/// A failed call ends the frame at once. An acquired image whose entry
/// names a fence is waited for first. The slot counter advances only when
/// the image has been presented.
pub open spec fn frame_step(s: Scheduler, event: FrameEvent) -> (Scheduler, FrameAction) {
    match event {
        FrameEvent::Failed { code } => give_up(s, code),
        _ => match s.phase {
            FramePhase::Idle => (
                Scheduler { phase: FramePhase::SlotFence, ..s },
                wait_for(s.slot_fence()),
            ),
            FramePhase::SlotFence => (Scheduler { phase: FramePhase::Acquire, ..s }, acquisition(s)),
            FramePhase::Acquire => {
                let image_index = event->image_index;
                if s.images_in_flight[image_index as int] != 0 {
                    (
                        Scheduler { phase: FramePhase::ImageFence { image_index }, ..s },
                        wait_for(s.images_in_flight[image_index as int]),
                    )
                } else {
                    claim_image(s, image_index)
                }
            },
            FramePhase::ImageFence { image_index } => claim_image(s, image_index),
            FramePhase::Reset { image_index } => (
                Scheduler { phase: FramePhase::Submit { image_index }, ..s },
                submission(s, image_index),
            ),
            FramePhase::Submit { image_index } => (
                Scheduler { phase: FramePhase::Present { image_index }, ..s },
                presentation(s, image_index),
            ),
            FramePhase::Present { image_index } => (
                Scheduler { phase: FramePhase::Idle, frame: next_slot(s.frame), ..s },
                FrameAction::Finished(FrameOutcome::Presented),
            ),
            FramePhase::Released => (s, FrameAction::Finished(FrameOutcome::Presented)),
        },
    }
}

/// The state that the first `n` of `events`, given one after the other,
/// lead to, and the actions that were asked for on the way.
pub open spec fn frame_prefix(s: Scheduler, events: Seq<FrameEvent>, n: nat) -> (
    Scheduler,
    Seq<FrameAction>,
)
    decreases n,
{
    if n == 0 {
        (s, seq![])
    } else {
        let before = frame_prefix(s, events, (n - 1) as nat);
        let step = frame_step(before.0, events[n - 1]);
        (step.0, before.1.push(step.1))
    }
}

/// The state that `events` lead to, and the actions that were asked for.
pub open spec fn frame_run(s: Scheduler, events: Seq<FrameEvent>) -> (Scheduler, Seq<FrameAction>) {
    frame_prefix(s, events, events.len())
}

/// Whether each of `events` can be the end of the call that was asked for
/// before it.
pub open spec fn events_accepted(s: Scheduler, events: Seq<FrameEvent>) -> bool {
    forall|n: nat| n < events.len() ==> (#[trigger] frame_prefix(s, events, n)).0.accepts(events[n as int])
}

/// The events of a frame in which every call succeeds and image
/// `image_index` is acquired.
pub open spec fn smooth_events(s: Scheduler, image_index: u32) -> Seq<FrameEvent> {
    if s.images_in_flight[image_index as int] != 0 {
        seq![
            FrameEvent::Start,
            FrameEvent::Done,
            FrameEvent::Acquired { image_index },
            FrameEvent::Done,
            FrameEvent::Done,
            FrameEvent::Done,
            FrameEvent::Done,
        ]
    } else {
        seq![
            FrameEvent::Start,
            FrameEvent::Done,
            FrameEvent::Acquired { image_index },
            FrameEvent::Done,
            FrameEvent::Done,
            FrameEvent::Done,
        ]
    }
}

/// The calls of such a frame, in their order.
pub open spec fn smooth_actions(s: Scheduler, image_index: u32) -> Seq<FrameAction> {
    let claimed = claim_image(s, image_index).0;
    if s.images_in_flight[image_index as int] != 0 {
        seq![
            wait_for(s.slot_fence()),
            acquisition(s),
            wait_for(s.images_in_flight[image_index as int]),
            FrameAction::ResetFence { fence: s.slot_fence() },
            submission(claimed, image_index),
            presentation(claimed, image_index),
            FrameAction::Finished(FrameOutcome::Presented),
        ]
    } else {
        seq![
            wait_for(s.slot_fence()),
            acquisition(s),
            FrameAction::ResetFence { fence: s.slot_fence() },
            submission(claimed, image_index),
            presentation(claimed, image_index),
            FrameAction::Finished(FrameOutcome::Presented),
        ]
    }
}

/// The state after such a frame: the image belongs to the slot's fence, and
/// the next slot is current.
pub open spec fn after_frame(s: Scheduler, image_index: u32) -> Scheduler {
    Scheduler {
        phase: FramePhase::Idle,
        frame: next_slot(s.frame),
        images_in_flight: s.images_in_flight.update(image_index as int, s.slot_fence()),
        ..s
    }
}

/// The state after one such frame for each of `images`, in their order.
pub open spec fn after_frames(s: Scheduler, images: Seq<u32>) -> Scheduler
    decreases images.len(),
{
    if images.len() == 0 {
        s
    } else {
        after_frame(after_frames(s, images.drop_last()), images.last())
    }
}

/// Whether every one of `images` is an image of the swapchain.
pub open spec fn all_images_known(s: Scheduler, images: Seq<u32>) -> bool {
    forall|k: int| 0 <= k < images.len() ==> (#[trigger] images[k]) < s.images_in_flight.len()
}

/// A frame in which every call succeeds makes the calls of
/// `smooth_actions`, in that order and no others, and ends in the state
/// `after_frame`.
pub proof fn lemma_smooth_frame(s: Scheduler, image_index: u32)
    requires
        s.wf(),
        s.phase == FramePhase::Idle,
        image_index < s.images_in_flight.len(),
    ensures
        events_accepted(s, smooth_events(s, image_index)),
        frame_run(s, smooth_events(s, image_index)) == (
            after_frame(s, image_index),
            smooth_actions(s, image_index),
        ),
        after_frame(s, image_index).wf(),
{
    let events = smooth_events(s, image_index);
    let claimed = claim_image(s, image_index).0;
    assert(frame_prefix(s, events, 0).0 == s);
    assert(frame_prefix(s, events, 1).0.phase == FramePhase::SlotFence);
    assert(frame_prefix(s, events, 2).0.phase == FramePhase::Acquire);
    if s.images_in_flight[image_index as int] != 0 {
        assert(frame_prefix(s, events, 3).0.phase == (FramePhase::ImageFence { image_index }));
        assert(frame_prefix(s, events, 4).0 == claimed);
        assert(frame_prefix(s, events, 5).0.phase == (FramePhase::Submit { image_index }));
        assert(frame_prefix(s, events, 6).0.phase == (FramePhase::Present { image_index }));
        assert(frame_prefix(s, events, 7).0 == after_frame(s, image_index));
    } else {
        assert(frame_prefix(s, events, 3).0 == claimed);
        assert(frame_prefix(s, events, 4).0.phase == (FramePhase::Submit { image_index }));
        assert(frame_prefix(s, events, 5).0.phase == (FramePhase::Present { image_index }));
        assert(frame_prefix(s, events, 6).0 == after_frame(s, image_index));
    }
}

/// A frame whose call fails makes no further call, keeps the slot and
/// leaves every image's entry as it was before that call.
pub proof fn lemma_failed_call_ends_frame(s: Scheduler, code: i32)
    ensures
        frame_step(s, FrameEvent::Failed { code }).0 == (Scheduler { phase: FramePhase::Idle, ..s }),
        frame_step(s, FrameEvent::Failed { code }).1 == FrameAction::Finished(failure_outcome(code)),
        failure_outcome(code) == FrameOutcome::OutOfDate <==> code == vk::error_out_of_date(),
        failure_outcome(code).result() is Err,
        failure_outcome(code).result()->Err_0.is_fatal() <==> code != vk::error_out_of_date(),
{
}

/// Frames in which every call succeeds go through the slots in turn and
/// leave the objects of the slots as they are.
pub proof fn lemma_slots_rotate(s: Scheduler, images: Seq<u32>)
    requires
        s.wf(),
        s.phase == FramePhase::Idle,
        all_images_known(s, images),
    ensures
        after_frames(s, images).wf(),
        after_frames(s, images).phase == FramePhase::Idle,
        after_frames(s, images).frame == (s.frame + images.len()) % (MAX_FRAMES_IN_FLIGHT as int),
        after_frames(s, images).in_flight_fences == s.in_flight_fences,
        after_frames(s, images).image_available_semaphores == s.image_available_semaphores,
        after_frames(s, images).render_finished_semaphores == s.render_finished_semaphores,
        after_frames(s, images).command_buffers == s.command_buffers,
        after_frames(s, images).images_in_flight.len() == s.images_in_flight.len(),
    decreases images.len(),
{
    if images.len() > 0 {
        let earlier = images.drop_last();
        assert(all_images_known(s, earlier));
        lemma_slots_rotate(s, earlier);
    }
}

/// After as many frames as there are slots the first slot is used again,
/// and the frame that uses it again begins by waiting for that slot's
/// fence: the fence is reset and the command buffer submitted only after
/// that wait, and after the wait for the fence that owns the image, if
/// there is one.
pub proof fn lemma_slot_is_waited_for_before_reuse(s: Scheduler, images: Seq<u32>)
    requires
        s.wf(),
        s.phase == FramePhase::Idle,
        images.len() == MAX_FRAMES_IN_FLIGHT + 1,
        all_images_known(s, images),
    ensures
        ({
            let before = after_frames(s, images.drop_last());
            let image_index = images.last();
            let owner = before.images_in_flight[image_index as int];
            let actions = smooth_actions(before, image_index);
            let reset = if owner != 0 { 3int } else { 2int };
            &&& before.frame == s.frame
            &&& before.slot_fence() == s.slot_fence()
            &&& frame_run(before, smooth_events(before, image_index)).1 == actions
            &&& actions[0] == wait_for(s.slot_fence())
            &&& owner != 0 ==> actions[2] == wait_for(owner)
            &&& actions[reset] == (FrameAction::ResetFence { fence: s.slot_fence() })
            &&& actions[reset + 1] matches FrameAction::QueueSubmit { fence, command_buffer, .. }
            &&& fence == s.slot_fence()
            &&& command_buffer == s.command_buffers[image_index as int]
            &&& forall|k: int|
                0 <= k < actions.len() && k != reset + 1 ==> !(#[trigger] actions[k] is QueueSubmit)
        }),
{
    let earlier = images.drop_last();
    assert(all_images_known(s, earlier));
    lemma_slots_rotate(s, earlier);
    let before = after_frames(s, earlier);
    lemma_smooth_frame(before, images.last());
}

/// In every step each image stays in its state or moves on in its cycle:
/// from idle or presented to acquired, then to submitted, then to
/// presented. Only the image that the frame acquires moves at all.
pub proof fn lemma_images_move_in_their_cycle(s: Scheduler, event: FrameEvent, image: u32)
    requires
        s.wf(),
        s.accepts(event),
        image < s.images_in_flight.len(),
    ensures
        image_moves(
            image_state(s, image),
            image_state(frame_step(s, event).0, image),
            event is Failed,
        ),
        phase_image(s.phase) != Some(image) && !(event matches FrameEvent::Acquired {
            image_index,
        } && image_index == image) ==> image_state(frame_step(s, event).0, image) == image_state(
            s,
            image,
        ),
{
}

/// In a frame in which every call succeeds the acquired image ends up
/// presented, owned by the fence of the frame's slot.
pub proof fn lemma_smooth_frame_presents_its_image(s: Scheduler, image_index: u32)
    requires
        s.wf(),
        s.phase == FramePhase::Idle,
        image_index < s.images_in_flight.len(),
    ensures
        image_state(after_frame(s, image_index), image_index) == ImageState::Presented,
        after_frame(s, image_index).images_in_flight[image_index as int] == s.slot_fence(),
{
}

} // verus!
