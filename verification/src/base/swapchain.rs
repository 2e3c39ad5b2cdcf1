//! Negotiating the swapchain and describing the views of its images.

use vstd::prelude::*;
use crate::base::vk;
use crate::error::{Error, Stage};
use crate::base::data::{
    Extent2D, PhysicalDeviceData, QueueData, QueueFamilyIndices, SurfaceCapabilities, SurfaceData,
    SurfaceFormat,
    SwapchainData, SwapchainSupport, chosen_extent, chosen_present_mode, chosen_surface_format,
    extent_bounds_ordered, extent_is_free,
};

verus! {

/// Whether images are shared between queue families without transfers of
/// ownership.
#[derive(Clone, Copy, Debug, PartialEq, Eq, Structural)]
pub enum SharingMode {
    Exclusive,
    Concurrent,
}

/// What the images of a swapchain are used for.
#[derive(Clone, Copy, Debug, PartialEq, Eq, Structural)]
pub enum ImageUsage {
    TransferSrc,
    TransferDst,
    Sampled,
    Storage,
    ColorAttachment,
}

/// How the alpha channel is treated when the window is composed.
#[derive(Clone, Copy, Debug, PartialEq, Eq, Structural)]
pub enum CompositeAlpha {
    Opaque,
    PreMultiplied,
    PostMultiplied,
    Inherit,
}

/// The swapchain that is asked for.
#[derive(Debug, PartialEq, Eq)]
pub struct SwapchainCreateInfo {
    pub surface: u64,
    pub min_image_count: u32,
    pub image_format: i32,
    pub image_color_space: i32,
    pub image_extent: Extent2D,
    pub image_array_layers: u32,
    pub image_usage: ImageUsage,
    pub image_sharing_mode: SharingMode,
    pub queue_family_indices: Vec<u32>,
    pub pre_transform: u32,
    pub composite_alpha: CompositeAlpha,
    pub present_mode: i32,
    pub clipped: bool,
    /// 0 where no earlier swapchain is replaced.
    pub old_swapchain: u64,
}

/// The number of images asked for: one more than the least the surface
/// needs, but no more than the most it allows, where it names a most.
pub open spec fn chosen_image_count(capabilities: SurfaceCapabilities) -> int {
    if capabilities.max_image_count != 0 && capabilities.min_image_count + 1
        > capabilities.max_image_count {
        capabilities.max_image_count as int
    } else {
        capabilities.min_image_count + 1
    }
}

/// How the images are shared: concurrently where graphics and presentation
/// use different families, else exclusively.
pub open spec fn chosen_sharing_mode(indices: QueueFamilyIndices) -> SharingMode {
    if indices.graphics != indices.present {
        SharingMode::Concurrent
    } else {
        SharingMode::Exclusive
    }
}

/// The families that share the images: both where they differ, else none.
pub open spec fn sharing_families(indices: QueueFamilyIndices) -> Seq<u32> {
    if indices.graphics != indices.present {
        seq![indices.graphics, indices.present]
    } else {
        seq![]
    }
}

impl SwapchainSupport {
    /// Whether a swapchain can be negotiated from this report: there is a
    /// format to fall back on, the bounds that the window's size is clamped
    /// into are ordered, and the number of images fits the device's counter.
    pub open spec fn spec_is_negotiable(&self) -> bool {
        &&& self.formats@.len() > 0
        &&& extent_is_free(self.capabilities) ==> extent_bounds_ordered(self.capabilities)
        &&& self.capabilities.max_image_count == 0 ==> self.capabilities.min_image_count < u32::MAX
    }

    #[verifier::when_used_as_spec(spec_is_negotiable)]
    pub fn is_negotiable(&self) -> (r: bool)
        ensures
            r == self.spec_is_negotiable(),
    {
        let capabilities: SurfaceCapabilities = self.capabilities;
        let ordered: bool = capabilities.min_image_extent.width
            <= capabilities.max_image_extent.width && capabilities.min_image_extent.height
            <= capabilities.max_image_extent.height;
        self.formats.len() > 0 && (capabilities.current_extent.width != u32::MAX || ordered) && (
        capabilities.max_image_count != 0 || capabilities.min_image_count < u32::MAX)
    }

    /// The number of images that the swapchain is asked to hold at least.
    pub fn get_image_count(&self) -> (r: u32)
        requires
            self.capabilities.max_image_count == 0 ==> self.capabilities.min_image_count < u32::MAX,
        ensures
            r == chosen_image_count(self.capabilities),
    {
        let min: u32 = self.capabilities.min_image_count;
        let max: u32 = self.capabilities.max_image_count;
        if max != 0 && min >= max {
            max
        } else {
            min + 1
        }
    }
}

/// Describes the swapchain for a window of the given size: format, present
/// mode, extent and image count as negotiated with the surface; colour
/// attachment images with one layer; opaque, clipped, in the surface's
/// current transform; shared between the graphics and the present family
/// where these differ.
pub fn create_swapchain(
    window_size: Extent2D,
    surface_data: &SurfaceData,
    physical_device_data: &PhysicalDeviceData,
    queue_data: &QueueData,
) -> (r: SwapchainCreateInfo)
    requires
        physical_device_data.swapchain_support.is_negotiable(),
    ensures
        r.surface == surface_data.surface,
        r.min_image_count == chosen_image_count(physical_device_data.swapchain_support.capabilities),
        (SurfaceFormat { format: r.image_format, color_space: r.image_color_space })
            == chosen_surface_format(physical_device_data.swapchain_support.formats@),
        r.image_extent == chosen_extent(
            physical_device_data.swapchain_support.capabilities,
            window_size,
        ),
        r.image_array_layers == 1,
        r.image_usage == ImageUsage::ColorAttachment,
        r.image_sharing_mode == chosen_sharing_mode(queue_data.family_indices),
        r.queue_family_indices@ == sharing_families(queue_data.family_indices),
        r.pre_transform == physical_device_data.swapchain_support.capabilities.current_transform,
        r.composite_alpha == CompositeAlpha::Opaque,
        r.present_mode == chosen_present_mode(physical_device_data.swapchain_support.present_modes@),
        r.clipped,
        r.old_swapchain == 0,
{
    let support: &SwapchainSupport = &physical_device_data.swapchain_support;
    let surface_format: SurfaceFormat = support.get_surface_format();
    let present_mode: i32 = support.get_present_mode();
    let extent: Extent2D = support.get_extent(window_size);
    let image_count: u32 = support.get_image_count();
    let indices: QueueFamilyIndices = queue_data.family_indices;
    let mut queue_family_indices: Vec<u32> = Vec::new();
    let image_sharing_mode: SharingMode = if indices.graphics != indices.present {
        queue_family_indices.push(indices.graphics);
        queue_family_indices.push(indices.present);
        SharingMode::Concurrent
    } else {
        SharingMode::Exclusive
    };
    SwapchainCreateInfo {
        surface: surface_data.surface,
        min_image_count: image_count,
        image_format: surface_format.format,
        image_color_space: surface_format.color_space,
        image_extent: extent,
        image_array_layers: 1,
        image_usage: ImageUsage::ColorAttachment,
        image_sharing_mode,
        queue_family_indices,
        pre_transform: support.capabilities.current_transform,
        composite_alpha: CompositeAlpha::Opaque,
        present_mode,
        clipped: true,
        old_swapchain: 0,
    }
}

/// The dimensionality of an image view.
#[derive(Clone, Copy, Debug, PartialEq, Eq, Structural)]
pub enum ImageViewType {
    Type1D,
    Type2D,
    Type3D,
    Cube,
}

/// Where a channel of a view takes its value from.
#[derive(Clone, Copy, Debug, PartialEq, Eq, Structural)]
pub enum ComponentSwizzle {
    Identity,
    Zero,
    One,
    R,
    G,
    B,
    A,
}

/// The mapping of the four channels.
#[derive(Clone, Copy, Debug, PartialEq, Eq, Structural)]
pub struct ComponentMapping {
    pub r: ComponentSwizzle,
    pub g: ComponentSwizzle,
    pub b: ComponentSwizzle,
    pub a: ComponentSwizzle,
}

/// The part of an image's data that a view shows.
#[derive(Clone, Copy, Debug, PartialEq, Eq, Structural)]
pub enum ImageAspect {
    Color,
    Depth,
    Stencil,
}

/// The mip levels and array layers that a view shows.
#[derive(Clone, Copy, Debug, PartialEq, Eq, Structural)]
pub struct ImageSubresourceRange {
    pub aspect_mask: ImageAspect,
    pub base_mip_level: u32,
    pub level_count: u32,
    pub base_array_layer: u32,
    pub layer_count: u32,
}

/// The view of one image that is asked for.
#[derive(Clone, Copy, Debug, PartialEq, Eq, Structural)]
pub struct ImageViewCreateInfo {
    pub image: u64,
    pub view_type: ImageViewType,
    pub format: i32,
    pub components: ComponentMapping,
    pub subresource_range: ImageSubresourceRange,
}

/// The view of a swapchain image: two-dimensional, in the swapchain's
/// format, every channel mapped to itself, the colour of the one mip level
/// and the one layer.
pub open spec fn swapchain_image_view(image: u64, format: i32) -> ImageViewCreateInfo {
    ImageViewCreateInfo {
        image,
        view_type: ImageViewType::Type2D,
        format,
        components: ComponentMapping {
            r: ComponentSwizzle::Identity,
            g: ComponentSwizzle::Identity,
            b: ComponentSwizzle::Identity,
            a: ComponentSwizzle::Identity,
        },
        subresource_range: ImageSubresourceRange {
            aspect_mask: ImageAspect::Color,
            base_mip_level: 0,
            level_count: 1,
            base_array_layer: 0,
            layer_count: 1,
        },
    }
}

/// Describes one view per swapchain image, in the order of the images.
pub fn create_swapchain_image_views(swapchain_images: &Vec<u64>, swapchain_format: i32) -> (r: Vec<
    ImageViewCreateInfo,
>)
    ensures
        r@.len() == swapchain_images@.len(),
        forall|i: int|
            0 <= i < r@.len() ==> #[trigger] r@[i] == swapchain_image_view(
                swapchain_images@[i],
                swapchain_format,
            ),
{
    let components = ComponentMapping {
        r: ComponentSwizzle::Identity,
        g: ComponentSwizzle::Identity,
        b: ComponentSwizzle::Identity,
        a: ComponentSwizzle::Identity,
    };
    let subresource_range = ImageSubresourceRange {
        aspect_mask: ImageAspect::Color,
        base_mip_level: 0,
        level_count: 1,
        base_array_layer: 0,
        layer_count: 1,
    };
    let mut infos: Vec<ImageViewCreateInfo> = Vec::with_capacity(swapchain_images.len());
    let mut i: usize = 0;
    while i < swapchain_images.len()
        invariant
            i <= swapchain_images@.len(),
            infos@.len() == i,
            components == swapchain_image_view(0, 0).components,
            subresource_range == swapchain_image_view(0, 0).subresource_range,
            forall|j: int|
                0 <= j < i ==> #[trigger] infos@[j] == swapchain_image_view(
                    swapchain_images@[j],
                    swapchain_format,
                ),
        decreases swapchain_images@.len() - i,
    {
        infos.push(
            ImageViewCreateInfo {
                image: swapchain_images[i],
                view_type: ImageViewType::Type2D,
                format: swapchain_format,
                components,
                subresource_range,
            },
        );
        i += 1;
    }
    infos
}

impl SwapchainData {
    /// Every image has its view.
    pub open spec fn spec_is_complete(&self) -> bool {
        self.images@.len() == self.image_views@.len()
    }

    #[verifier::when_used_as_spec(spec_is_complete)]
    pub fn is_complete(&self) -> (r: bool)
        ensures
            r == self.spec_is_complete(),
    {
        self.images.len() == self.image_views.len()
    }

    /// Records the swapchain that the device created from `info`, with its
    /// images and the views created for them, in the order of the images.
    ///
    /// Views that are not one per image are refused, as a failure of the
    /// stage that creates them.
    pub fn new(
        info: &SwapchainCreateInfo,
        swapchain: u64,
        images: Vec<u64>,
        image_views: Vec<u64>,
    ) -> (r: Result<SwapchainData, Error>)
        ensures
            r is Ok <==> images@.len() == image_views@.len(),
            r matches Ok(data) ==> {
                &&& data.is_complete()
                &&& data.swapchain == swapchain
                &&& data.format == info.image_format
                &&& data.extent == info.image_extent
                &&& data.images == images
                &&& data.image_views == image_views
            },
            r matches Err(e) ==> e == (Error::Initialization {
                stage: Stage::ImageViews,
                code: vk::error_initialization_failed(),
            }),
    {
        if images.len() != image_views.len() {
            return Err(
                Error::Initialization {
                    stage: Stage::ImageViews,
                    code: vk::initialization_failed_code(),
                },
            );
        }
        Ok(
            SwapchainData {
                swapchain,
                format: info.image_format,
                extent: info.image_extent,
                images,
                image_views,
            },
        )
    }
}

} // verus!
