//! The descriptors that one startup stage hands to the next.
//!
//! Device objects appear here as their raw handles; what the device reports
//! appears as the numbers it reported.

use vstd::prelude::*;
use crate::base::vk;
use crate::error::{Error, Stage};

verus! {

/// A width and a height in pixels.
#[derive(Clone, Copy, Debug, PartialEq, Eq, Structural)]
pub struct Extent2D {
    pub width: u32,
    pub height: u32,
}

/// A pixel format together with the colour space it is shown in.
#[derive(Clone, Copy, Debug, PartialEq, Eq, Structural)]
pub struct SurfaceFormat {
    pub format: i32,
    pub color_space: i32,
}

/// What a surface allows a swapchain to be, as far as the renderer asks.
#[derive(Clone, Copy, Debug, PartialEq, Eq, Structural)]
pub struct SurfaceCapabilities {
    pub min_image_count: u32,
    /// 0 stands for "no upper limit".
    pub max_image_count: u32,
    /// A width of `u32::MAX` says that the swapchain decides the extent.
    pub current_extent: Extent2D,
    pub min_image_extent: Extent2D,
    pub max_image_extent: Extent2D,
    pub current_transform: u32,
}

/// The messenger that forwards the validation layer's messages.
#[derive(Clone, Copy, Debug, PartialEq, Eq, Structural)]
pub struct DebugData {
    pub callback: u64,
}

/// The presentable target bound to the window.
#[derive(Clone, Copy, Debug, PartialEq, Eq, Structural)]
pub struct SurfaceData {
    pub surface: u64,
}

/// The selected GPU and what its surface support was found to be.
#[derive(Debug, PartialEq, Eq)]
pub struct PhysicalDeviceData {
    pub device: u64,
    pub swapchain_support: SwapchainSupport,
}

/// The two queues of the logical device and the families they come from.
#[derive(Clone, Copy, Debug, PartialEq, Eq, Structural)]
pub struct QueueData {
    pub family_indices: QueueFamilyIndices,
    pub present: u64,
    pub graphics: u64,
}

/// The queue of a logical device that is to be fetched.
#[derive(Clone, Copy, Debug, PartialEq, Eq, Structural)]
pub struct QueueRequest {
    pub queue_family_index: u32,
    pub queue_index: u32,
}

/// The swapchain with its images and one view per image.
#[derive(Debug, PartialEq, Eq)]
pub struct SwapchainData {
    pub swapchain: u64,
    pub format: i32,
    pub extent: Extent2D,
    pub images: Vec<u64>,
    pub image_views: Vec<u64>,
}

/// The graphics pipeline and its (empty) layout.
#[derive(Clone, Copy, Debug, PartialEq, Eq, Structural)]
pub struct PipelineData {
    pub pipeline: u64,
    pub layout: u64,
}

/// Semaphores and fences of the frame slots, and for every swapchain image
/// the fence of the slot that last drew into it (0 while there is none).
#[derive(Debug, PartialEq, Eq)]
pub struct SyncObjects {
    pub image_available_semaphores: Vec<u64>,
    pub render_finished_semaphores: Vec<u64>,
    pub in_flight_fences: Vec<u64>,
    pub images_in_flight: Vec<u64>,
}

/// What a physical device reports for a surface.
#[derive(Debug, PartialEq, Eq)]
pub struct SwapchainSupport {
    pub capabilities: SurfaceCapabilities,
    pub formats: Vec<SurfaceFormat>,
    pub present_modes: Vec<i32>,
}

/// The families that graphics commands and presentation are sent to.
#[derive(Clone, Copy, Debug, PartialEq, Eq, Structural)]
pub struct QueueFamilyIndices {
    pub graphics: u32,
    pub present: u32,
}

/// One queue family as the device reports it: its capability flags, and the
/// answer to the question whether it can present to the surface (or the code
/// with which that question failed).
#[derive(Clone, Copy, Debug, PartialEq, Eq)]
pub struct QueueFamily {
    pub queue_flags: u32,
    pub present_support: Result<bool, i32>,
}

/// The format that is taken whenever the surface offers it.
pub open spec fn preferred_surface_format() -> SurfaceFormat {
    SurfaceFormat {
        format: vk::format_b8g8r8a8_srgb(),
        color_space: vk::color_space_srgb_nonlinear(),
    }
}

/// The format chosen from a surface's list: the preferred one if it is
/// listed, else the first of the list.
pub open spec fn chosen_surface_format(formats: Seq<SurfaceFormat>) -> SurfaceFormat
    recommends
        formats.len() > 0,
{
    if formats.contains(preferred_surface_format()) {
        preferred_surface_format()
    } else {
        formats[0]
    }
}

/// The present mode chosen from a surface's list: mailbox if it is listed,
/// else first-in-first-out.
pub open spec fn chosen_present_mode(present_modes: Seq<i32>) -> i32 {
    if present_modes.contains(vk::present_mode_mailbox()) {
        vk::present_mode_mailbox()
    } else {
        vk::present_mode_fifo()
    }
}

/// `value` moved into `low ..= high` by the shortest way.
pub open spec fn clamped(value: u32, low: u32, high: u32) -> u32
    recommends
        low <= high,
{
    if value < low {
        low
    } else if value > high {
        high
    } else {
        value
    }
}

/// Whether the surface leaves the extent to the swapchain.
pub open spec fn extent_is_free(capabilities: SurfaceCapabilities) -> bool {
    capabilities.current_extent.width == u32::MAX
}

/// Whether the least extent does not exceed the greatest in either direction.
pub open spec fn extent_bounds_ordered(capabilities: SurfaceCapabilities) -> bool {
    &&& capabilities.min_image_extent.width <= capabilities.max_image_extent.width
    &&& capabilities.min_image_extent.height <= capabilities.max_image_extent.height
}

/// Whether an extent lies between the least and the greatest that the
/// surface allows.
pub open spec fn extent_within_bounds(extent: Extent2D, capabilities: SurfaceCapabilities) -> bool {
    &&& capabilities.min_image_extent.width <= extent.width <= capabilities.max_image_extent.width
    &&& capabilities.min_image_extent.height <= extent.height
        <= capabilities.max_image_extent.height
}

/// The extent of the swapchain's images: the surface's own extent where it
/// has one, else the window's size clamped into the surface's bounds.
pub open spec fn chosen_extent(capabilities: SurfaceCapabilities, window_size: Extent2D) -> Extent2D {
    if extent_is_free(capabilities) {
        Extent2D {
            width: clamped(
                window_size.width,
                capabilities.min_image_extent.width,
                capabilities.max_image_extent.width,
            ),
            height: clamped(
                window_size.height,
                capabilities.min_image_extent.height,
                capabilities.max_image_extent.height,
            ),
        }
    } else {
        capabilities.current_extent
    }
}

fn clamp(value: u32, low: u32, high: u32) -> (r: u32)
    requires
        low <= high,
    ensures
        r == clamped(value, low, high),
        low <= r <= high,
{
    if value < low {
        low
    } else if value > high {
        high
    } else {
        value
    }
}

impl SwapchainSupport {
    /// Puts together what the three surface queries returned.
    pub fn get(
        capabilities: SurfaceCapabilities,
        formats: Vec<SurfaceFormat>,
        present_modes: Vec<i32>,
    ) -> (r: SwapchainSupport)
        ensures
            r.capabilities == capabilities,
            r.formats == formats,
            r.present_modes == present_modes,
    {
        SwapchainSupport { capabilities, formats, present_modes }
    }

    /// A swapchain can be created only if the surface offers at least one
    /// format and one present mode.
    pub open spec fn spec_is_adequate(&self) -> bool {
        self.formats@.len() > 0 && self.present_modes@.len() > 0
    }

    #[verifier::when_used_as_spec(spec_is_adequate)]
    pub fn is_adequate(&self) -> (r: bool)
        ensures
            r == self.spec_is_adequate(),
    {
        self.formats.len() > 0 && self.present_modes.len() > 0
    }

    /// The pixel format and colour space of the swapchain.
    pub fn get_surface_format(&self) -> (r: SurfaceFormat)
        requires
            self.formats@.len() > 0,
        ensures
            r == chosen_surface_format(self.formats@),
    {
        let format: i32 = vk::preferred_format();
        let color_space: i32 = vk::preferred_color_space();
        let mut i: usize = 0;
        while i < self.formats.len()
            invariant
                i <= self.formats@.len(),
                format == vk::format_b8g8r8a8_srgb(),
                color_space == vk::color_space_srgb_nonlinear(),
                forall|j: int| 0 <= j < i ==> self.formats@[j] != preferred_surface_format(),
            decreases self.formats@.len() - i,
        {
            let f: SurfaceFormat = self.formats[i];
            if f.format == format && f.color_space == color_space {
                return f;
            }
            i += 1;
        }
        self.formats[0]
    }

    /// The present mode of the swapchain.
    pub fn get_present_mode(&self) -> (r: i32)
        ensures
            r == chosen_present_mode(self.present_modes@),
    {
        let mailbox: i32 = vk::mailbox_present_mode();
        let mut i: usize = 0;
        while i < self.present_modes.len()
            invariant
                i <= self.present_modes@.len(),
                mailbox == vk::present_mode_mailbox(),
                forall|j: int| 0 <= j < i ==> self.present_modes@[j] != vk::present_mode_mailbox(),
            decreases self.present_modes@.len() - i,
        {
            if self.present_modes[i] == mailbox {
                return mailbox;
            }
            i += 1;
        }
        vk::fifo_present_mode()
    }

    /// The extent of the swapchain's images for a window of the given size.
    pub fn get_extent(&self, window_size: Extent2D) -> (r: Extent2D)
        requires
            extent_is_free(self.capabilities) ==> extent_bounds_ordered(self.capabilities),
        ensures
            r == chosen_extent(self.capabilities, window_size),
    {
        if self.capabilities.current_extent.width != u32::MAX {
            self.capabilities.current_extent
        } else {
            Extent2D {
                width: clamp(
                    window_size.width,
                    self.capabilities.min_image_extent.width,
                    self.capabilities.max_image_extent.width,
                ),
                height: clamp(
                    window_size.height,
                    self.capabilities.min_image_extent.height,
                    self.capabilities.max_image_extent.height,
                ),
            }
        }
    }
}

/// Choosing a format depends on the reported list alone, and choosing again
/// from the one-element list of what was chosen changes nothing.
pub proof fn lemma_format_selection_is_stable(a: SwapchainSupport, b: SwapchainSupport)
    requires
        a.formats@.len() > 0,
        a.formats@ == b.formats@,
    ensures
        chosen_surface_format(a.formats@) == chosen_surface_format(b.formats@),
        a.formats@.contains(chosen_surface_format(a.formats@)),
        chosen_surface_format(seq![chosen_surface_format(a.formats@)]) == chosen_surface_format(
            a.formats@,
        ),
        !a.formats@.contains(preferred_surface_format()) ==> chosen_surface_format(a.formats@)
            == a.formats@[0],
{
    let chosen = chosen_surface_format(a.formats@);
    let single = seq![chosen];
    assert(single[0] == chosen);
    if single.contains(preferred_surface_format()) {
        let i = choose|i: int| 0 <= i < single.len() && single[i] == preferred_surface_format();
        assert(chosen == preferred_surface_format());
    }
}

/// The chosen extent lies within the surface's bounds: where the surface
/// leaves the extent free, because the window's size is clamped into ordered
/// bounds; where it fixes the extent, as far as its own extent lies within
/// them.
pub proof fn lemma_extent_within_bounds(support: SwapchainSupport, window_size: Extent2D)
    requires
        extent_is_free(support.capabilities) ==> extent_bounds_ordered(support.capabilities),
        !extent_is_free(support.capabilities) ==> extent_within_bounds(
            support.capabilities.current_extent,
            support.capabilities,
        ),
    ensures
        extent_within_bounds(chosen_extent(support.capabilities, window_size), support.capabilities),
{
}

/// Whether a family can take graphics commands.
pub open spec fn has_graphics(family: QueueFamily) -> bool {
    family.queue_flags & vk::queue_graphics_bit() == vk::queue_graphics_bit()
}

/// Whether family `i` is the first that can take graphics commands.
pub open spec fn graphics_family_at(families: Seq<QueueFamily>, i: int) -> bool {
    &&& 0 <= i < families.len()
    &&& has_graphics(families[i])
    &&& forall|j: int| 0 <= j < i ==> !has_graphics(#[trigger] families[j])
}

/// Whether the question for present support of a family ends the search:
/// it does unless the answer is a plain "no".
pub open spec fn ends_present_search(family: QueueFamily) -> bool {
    family.present_support != Ok::<bool, i32>(false)
}

/// Whether the search for a presenting family, which asks family after
/// family, ends at family `i`.
pub open spec fn present_search_ends_at(families: Seq<QueueFamily>, i: int) -> bool {
    &&& 0 <= i < families.len()
    &&& ends_present_search(families[i])
    &&& forall|j: int| 0 <= j < i ==> !ends_present_search(#[trigger] families[j])
}

/// Whether family `i` is the first that can present, no question before it
/// having failed.
pub open spec fn present_family_at(families: Seq<QueueFamily>, i: int) -> bool {
    present_search_ends_at(families, i) && families[i].present_support == Ok::<bool, i32>(true)
}

/// Whether the search for a presenting family ends in a failed question,
/// with the given code.
pub open spec fn present_search_fails(families: Seq<QueueFamily>, code: i32) -> bool {
    exists|i: int| #[trigger]
        present_search_ends_at(families, i) && families[i].present_support == Err::<bool, i32>(
            code,
        )
}

/// Whether a device has both a graphics family and a family that presents
/// to the surface, found without a failed question.
pub open spec fn has_required_families(families: Seq<QueueFamily>) -> bool {
    &&& exists|g: int| graphics_family_at(families, g)
    &&& exists|p: int| present_family_at(families, p)
}

/// What the search for the two families comes to.
pub open spec fn queue_families_found(
    families: Seq<QueueFamily>,
    r: Result<QueueFamilyIndices, Error>,
) -> bool {
    match r {
        Ok(indices) => {
            &&& graphics_family_at(families, indices.graphics as int)
            &&& present_family_at(families, indices.present as int)
        },
        Err(Error::Initialization { stage, code }) => {
            &&& stage == Stage::PhysicalDevice
            &&& present_search_fails(families, code)
        },
        Err(Error::DeviceSelection) => {
            &&& forall|code: i32| !present_search_fails(families, code)
            &&& !has_required_families(families)
        },
        Err(_) => false,
    }
}

fn first_graphics_family(families: &Vec<QueueFamily>) -> (r: Option<u32>)
    requires
        families@.len() <= u32::MAX,
    ensures
        r matches Some(i) ==> graphics_family_at(families@, i as int),
        r is None ==> forall|j: int| 0 <= j < families@.len() ==> !has_graphics(#[trigger] families@[j]),
{
    let mut i: usize = 0;
    while i < families.len()
        invariant
            i <= families@.len() <= u32::MAX,
            forall|j: int| 0 <= j < i ==> !has_graphics(#[trigger] families@[j]),
        decreases families@.len() - i,
    {
        if vk::supports_graphics(families[i].queue_flags) {
            return Some(i as u32);
        }
        i += 1;
    }
    None
}

fn first_present_family(families: &Vec<QueueFamily>) -> (r: Result<Option<u32>, i32>)
    requires
        families@.len() <= u32::MAX,
    ensures
        r matches Ok(Some(i)) ==> present_family_at(families@, i as int),
        r matches Ok(None) ==> forall|j: int| 0 <= j < families@.len() ==> !ends_present_search(#[trigger] families@[j]),
        r matches Err(code) ==> present_search_fails(families@, code),
{
    let mut i: usize = 0;
    while i < families.len()
        invariant
            i <= families@.len() <= u32::MAX,
            forall|j: int| 0 <= j < i ==> !ends_present_search(#[trigger] families@[j]),
        decreases families@.len() - i,
    {
        match families[i].present_support {
            Ok(true) => {
                return Ok(Some(i as u32));
            },
            Ok(false) => {},
            Err(code) => {
                assert(present_search_ends_at(families@, i as int));
                return Err(code);
            },
        }
        i += 1;
    }
    Ok(None)
}

impl QueueFamilyIndices {
    /// Finds the first family that takes graphics commands and the first
    /// that presents to the surface.
    ///
    /// The families are asked for present support in order, up to the first
    /// that supports it. A question that fails before that ends the search
    /// with its code; a missing family ends it with `DeviceSelection`.
    pub fn get(families: &Vec<QueueFamily>) -> (r: Result<QueueFamilyIndices, Error>)
        requires
            families@.len() <= u32::MAX,
        ensures
            queue_families_found(families@, r),
            r is Ok <==> has_required_families(families@),
    {
        let graphics: Option<u32> = first_graphics_family(families);
        let present: Option<u32> = match first_present_family(families) {
            Ok(p) => p,
            Err(code) => {
                proof {
                    lemma_failed_search_finds_nothing(families@, code);
                }
                return Err(Error::Initialization { stage: Stage::PhysicalDevice, code });
            },
        };
        match (graphics, present) {
            (Some(graphics), Some(present)) => {
                Ok(QueueFamilyIndices { graphics, present })
            },
            _ => {
                assert forall|code: i32| !present_search_fails(families@, code) by {
                    if present_search_fails(families@, code) {
                        let i = choose|i: int| #[trigger]
                            present_search_ends_at(families@, i) && families@[i].present_support
                                == Err::<bool, i32>(code);
                        match present {
                            Some(p) => {
                                lemma_search_end_unique(families@, i, p as int);
                            },
                            None => {},
                        }
                    }
                }
                Err(Error::DeviceSelection)
            },
        }
    }
}

/// The search for a presenting family ends at one family at most.
pub proof fn lemma_search_end_unique(families: Seq<QueueFamily>, i: int, j: int)
    requires
        present_search_ends_at(families, i),
        present_search_ends_at(families, j),
    ensures
        i == j,
{
}

/// A search that ends in a failed question has found no presenting family.
pub proof fn lemma_failed_search_finds_nothing(families: Seq<QueueFamily>, code: i32)
    requires
        present_search_fails(families, code),
    ensures
        !has_required_families(families),
{
    let i = choose|i: int| #[trigger]
        present_search_ends_at(families, i) && families[i].present_support == Err::<bool, i32>(
            code,
        );
    if has_required_families(families) {
        let p = choose|p: int| present_family_at(families, p);
        lemma_search_end_unique(families, i, p);
    }
}

impl QueueData {
    /// The queues that are fetched from the logical device: queue 0 of the
    /// present family, then queue 0 of the graphics family.
    pub fn requests(queue_family_indices: QueueFamilyIndices) -> (r: [QueueRequest; 2])
        ensures
            r[0] == (QueueRequest { queue_family_index: queue_family_indices.present, queue_index: 0 }),
            r[1] == (QueueRequest { queue_family_index: queue_family_indices.graphics, queue_index: 0 }),
    {
        [
            QueueRequest { queue_family_index: queue_family_indices.present, queue_index: 0 },
            QueueRequest { queue_family_index: queue_family_indices.graphics, queue_index: 0 },
        ]
    }

    /// Records the two queues that the logical device returned for
    /// `requests`, in that order.
    pub fn get(queue_family_indices: QueueFamilyIndices, present: u64, graphics: u64) -> (r:
        QueueData)
        ensures
            r.family_indices == queue_family_indices,
            r.present == present,
            r.graphics == graphics,
    {
        QueueData { family_indices: queue_family_indices, present, graphics }
    }
}

} // verus!
