//! The presentation surface and its swapchain: how the swapchain is
//! configured, and what the results of acquiring and presenting mean.

use vstd::prelude::*;
use crate::flags::{contains, spec_contains};
use crate::queue::Queue;
use crate::texture::{Extent2D, ImageUsage};

verus! {

/// The image format that is preferred: four 8-bit channels, BGRA, sRGB.
pub const FORMAT_B8G8R8A8_SRGB: i32 = 50;

/// The colour space that is preferred: sRGB, non-linear.
pub const COLOR_SPACE_SRGB_NONLINEAR: i32 = 0;

/// The present mode that is preferred: the newest image replaces the one
/// that waits.
pub const PRESENT_MODE_MAILBOX: i32 = 1;

/// The present mode that every surface offers: first in, first out.
pub const PRESENT_MODE_FIFO: i32 = 2;

/// The surface transform that leaves the image as it is.
pub const TRANSFORM_IDENTITY: u32 = 0x1;

/// The width with which a surface says that it has no extent of its own.
pub const UNDEFINED_EXTENT: u32 = 0xffff_ffff;

#[derive(Clone, Copy, Debug, PartialEq, Eq, Structural)]
pub enum ViewportError {
    /// The surface offers no image format.
    NoSurfaceFormat,
    /// The formats of the surface were asked for before.
    FormatsAlreadyGenerated,
    /// The present modes of the surface were asked for before.
    PresentModesAlreadyGenerated,
    /// The swapchain has no image under the index that was acquired.
    ImageIndexOutOfRange,
    /// Presenting failed; the code is the driver's.
    PresentFailed(i32),
    /// The driver did not build the swapchain; the code is the driver's.
    SwapchainFailed(i32),
}

/// An image format with its colour space, as the surface reports them.
#[derive(Clone, Copy, Debug, PartialEq, Eq, Structural)]
pub struct SurfaceFormat {
    pub format: i32,
    pub color_space: i32,
}

/// What the surface reports of the swapchains it can carry.
#[derive(Clone, Copy, Debug, PartialEq, Eq, Structural)]
pub struct SurfaceCapabilities {
    pub min_image_count: u32,
    /// The largest number of images; zero where there is no limit.
    pub max_image_count: u32,
    /// The extent of the surface; its width is `UNDEFINED_EXTENT` where the
    /// swapchain decides.
    pub current_extent: Extent2D,
    pub min_image_extent: Extent2D,
    pub max_image_extent: Extent2D,
    pub supported_transforms: u32,
    pub current_transform: u32,
}

impl SurfaceCapabilities {
    /// The smallest extent is no larger than the largest, and one more image
    /// than the minimum can be counted.
    pub open spec fn wf(&self) -> bool {
        &&& self.min_image_extent.width <= self.max_image_extent.width
        &&& self.min_image_extent.height <= self.max_image_extent.height
        &&& self.min_image_count < u32::MAX
    }

    /// Decides whether the capabilities are well formed.
    pub fn check(&self) -> (r: bool)
        ensures
            r == self.wf(),
    {
        self.min_image_extent.width <= self.max_image_extent.width && self.min_image_extent.height
            <= self.max_image_extent.height && self.min_image_count < u32::MAX
    }
}

/// What a swapchain is created with.
#[derive(Clone, Copy, Debug, PartialEq, Eq, Structural)]
pub struct SwapchainConfig {
    pub format: SurfaceFormat,
    pub present_mode: i32,
    pub extent: Extent2D,
    pub min_image_count: u32,
    pub pre_transform: u32,
    pub image_usage: ImageUsage,
    pub image_array_layers: u32,
    /// One queue family at a time owns the images.
    pub exclusive_sharing: bool,
    /// The images are not blended with what lies behind the surface.
    pub opaque: bool,
    /// Pixels that cannot be seen need not be rendered.
    pub clipped: bool,
}

/// The images of a swapchain are colour attachments and transfer
/// destinations.
pub open spec fn swapchain_image_usage() -> ImageUsage {
    ImageUsage {
        color_attachment: true,
        sampled: false,
        storage: false,
        transfer_src: false,
        transfer_dst: true,
        depth_stencil_attachment: false,
    }
}

/// The image that was acquired for presenting.
#[derive(Clone, Copy, Debug, PartialEq, Eq, Structural)]
pub struct PresentImage {
    pub image: u64,
    pub index: u32,
    pub extent: Extent2D,
    /// The swapchain no longer matches the surface exactly.
    pub suboptimal: bool,
}

/// How the driver answered a request to present.
#[derive(Clone, Copy, Debug, PartialEq, Eq, Structural)]
pub enum PresentStatus {
    Success,
    /// Presented, but the swapchain no longer matches the surface.
    Suboptimal,
    /// Not presented: the swapchain is out of date.
    OutOfDate,
    /// Any other failure, with the driver's code.
    Failed(i32),
}

#[derive(Clone, Copy, Debug, PartialEq, Eq, Structural)]
pub enum PresentResult {
    Success,
    /// The swapchain is to be rebuilt before the next frame.
    ResizeRequested,
}

/// The preferred format with the preferred colour space.
pub open spec fn preferred_format() -> SurfaceFormat {
    SurfaceFormat { format: FORMAT_B8G8R8A8_SRGB, color_space: COLOR_SPACE_SRGB_NONLINEAR }
}

/// The format to use: the preferred one where the surface offers it, else
/// the first it offers.
pub open spec fn spec_surface_format(formats: Seq<SurfaceFormat>) -> Option<SurfaceFormat> {
    if formats.contains(preferred_format()) {
        Some(preferred_format())
    } else if formats.len() > 0 {
        Some(formats[0])
    } else {
        None
    }
}

/// The present mode to use: mailbox where the surface offers it, else FIFO.
pub open spec fn spec_present_mode(modes: Seq<i32>) -> i32 {
    if modes.contains(PRESENT_MODE_MAILBOX) {
        PRESENT_MODE_MAILBOX
    } else {
        PRESENT_MODE_FIFO
    }
}

/// `value` brought into the range from `low` to `high`.
pub open spec fn spec_clamp(value: u32, low: u32, high: u32) -> u32 {
    if value < low {
        low
    } else if value > high {
        high
    } else {
        value
    }
}

/// `size` brought into the range of extents that the surface allows.
pub open spec fn clamped_extent(capabilities: SurfaceCapabilities, size: Extent2D) -> Extent2D {
    Extent2D {
        width: spec_clamp(
            size.width,
            capabilities.min_image_extent.width,
            capabilities.max_image_extent.width,
        ),
        height: spec_clamp(
            size.height,
            capabilities.min_image_extent.height,
            capabilities.max_image_extent.height,
        ),
    }
}

/// The extent of the swapchain images: that of the surface where it has
/// one, else the size asked for, brought into the allowed range.
pub open spec fn spec_image_extent(capabilities: SurfaceCapabilities, size: Extent2D) -> Extent2D {
    if capabilities.current_extent.width != UNDEFINED_EXTENT {
        capabilities.current_extent
    } else {
        clamped_extent(capabilities, size)
    }
}

/// The number of images to ask for: one more than the minimum, but no more
/// than the maximum where there is one.
pub open spec fn spec_image_count(capabilities: SurfaceCapabilities) -> int {
    if capabilities.max_image_count > 0 && capabilities.min_image_count + 1
        > capabilities.max_image_count {
        capabilities.max_image_count as int
    } else {
        capabilities.min_image_count + 1
    }
}

/// The transform to apply: none where the surface supports that, else the
/// one it has.
pub open spec fn spec_pre_transform(capabilities: SurfaceCapabilities) -> u32 {
    if spec_contains(capabilities.supported_transforms, TRANSFORM_IDENTITY) {
        TRANSFORM_IDENTITY
    } else {
        capabilities.current_transform
    }
}

/// What presenting came to: a swapchain that is suboptimal or out of date
/// asks for a resize; any other failure is an error.
pub open spec fn spec_present_outcome(status: PresentStatus) -> Result<PresentResult, ViewportError> {
    match status {
        PresentStatus::Success => Ok(PresentResult::Success),
        PresentStatus::Suboptimal => Ok(PresentResult::ResizeRequested),
        PresentStatus::OutOfDate => Ok(PresentResult::ResizeRequested),
        PresentStatus::Failed(code) => Err(ViewportError::PresentFailed(code)),
    }
}

/// The whole configuration of a swapchain for a surface and a size.
pub open spec fn spec_swapchain_config(
    formats: Seq<SurfaceFormat>,
    modes: Seq<i32>,
    capabilities: SurfaceCapabilities,
    size: Extent2D,
) -> Result<SwapchainConfig, ViewportError> {
    match spec_surface_format(formats) {
        Some(format) => Ok(
            SwapchainConfig {
                format,
                present_mode: spec_present_mode(modes),
                extent: spec_image_extent(capabilities, size),
                min_image_count: spec_image_count(capabilities) as u32,
                pre_transform: spec_pre_transform(capabilities),
                image_usage: swapchain_image_usage(),
                image_array_layers: 1,
                exclusive_sharing: true,
                opaque: true,
                clipped: true,
            },
        ),
        None => Err(ViewportError::NoSurfaceFormat),
    }
}

/// Where the surface has no extent of its own, the swapchain gets the size
/// asked for, brought into the range between the smallest and the largest
/// extent that the surface allows.
pub proof fn lemma_extent_is_clamped_size(capabilities: SurfaceCapabilities, size: Extent2D)
    requires
        capabilities.wf(),
        capabilities.current_extent.width == UNDEFINED_EXTENT,
    ensures
        spec_image_extent(capabilities, size) == clamped_extent(capabilities, size),
        capabilities.min_image_extent.width <= spec_image_extent(capabilities, size).width
            <= capabilities.max_image_extent.width,
        capabilities.min_image_extent.height <= spec_image_extent(capabilities, size).height
            <= capabilities.max_image_extent.height,
        capabilities.min_image_extent.width <= size.width <= capabilities.max_image_extent.width
            ==> spec_image_extent(capabilities, size).width == size.width,
        capabilities.min_image_extent.height <= size.height
            <= capabilities.max_image_extent.height ==> spec_image_extent(
            capabilities,
            size,
        ).height == size.height,
{
}

pub fn choose_surface_format(formats: &Vec<SurfaceFormat>) -> (r: Result<
    SurfaceFormat,
    ViewportError,
>)
    ensures
        match r {
            Ok(format) => spec_surface_format(formats@) == Some(format),
            Err(e) => e == ViewportError::NoSurfaceFormat && spec_surface_format(formats@).is_none()
                && formats@.len() == 0,
        },
{
    let preferred = SurfaceFormat {
        format: FORMAT_B8G8R8A8_SRGB,
        color_space: COLOR_SPACE_SRGB_NONLINEAR,
    };
    let mut i: usize = 0;
    while i < formats.len()
        invariant
            i <= formats@.len(),
            preferred == preferred_format(),
            forall|k: int| 0 <= k < i ==> formats@[k] != preferred,
        decreases formats.len() - i,
    {
        if formats[i] == preferred {
            return Ok(preferred);
        }
        i = i + 1;
    }
    if formats.len() > 0 {
        Ok(formats[0])
    } else {
        Err(ViewportError::NoSurfaceFormat)
    }
}

pub fn choose_present_mode(modes: &Vec<i32>) -> (r: i32)
    ensures
        r == spec_present_mode(modes@),
{
    let mut i: usize = 0;
    while i < modes.len()
        invariant
            i <= modes@.len(),
            forall|k: int| 0 <= k < i ==> modes@[k] != PRESENT_MODE_MAILBOX,
        decreases modes.len() - i,
    {
        if modes[i] == PRESENT_MODE_MAILBOX {
            return PRESENT_MODE_MAILBOX;
        }
        i = i + 1;
    }
    PRESENT_MODE_FIFO
}

fn clamp(value: u32, low: u32, high: u32) -> (r: u32)
    ensures
        r == spec_clamp(value, low, high),
{
    if value < low {
        low
    } else if value > high {
        high
    } else {
        value
    }
}

pub fn choose_image_extent(capabilities: &SurfaceCapabilities, size: Extent2D) -> (r: Extent2D)
    ensures
        r == spec_image_extent(*capabilities, size),
{
    if capabilities.current_extent.width != UNDEFINED_EXTENT {
        capabilities.current_extent
    } else {
        Extent2D {
            width: clamp(
                size.width,
                capabilities.min_image_extent.width,
                capabilities.max_image_extent.width,
            ),
            height: clamp(
                size.height,
                capabilities.min_image_extent.height,
                capabilities.max_image_extent.height,
            ),
        }
    }
}

pub fn choose_image_count(capabilities: &SurfaceCapabilities) -> (r: u32)
    requires
        capabilities.wf(),
    ensures
        r == spec_image_count(*capabilities),
{
    let min = capabilities.min_image_count;
    let max = capabilities.max_image_count;
    if max > 0 && min + 1 > max {
        max
    } else {
        min + 1
    }
}

pub fn choose_pre_transform(capabilities: &SurfaceCapabilities) -> (r: u32)
    ensures
        r == spec_pre_transform(*capabilities),
{
    if contains(capabilities.supported_transforms, TRANSFORM_IDENTITY) {
        TRANSFORM_IDENTITY
    } else {
        capabilities.current_transform
    }
}

/// Says what the driver's answer to a request to present comes to.
pub fn present_outcome(status: PresentStatus) -> (r: Result<PresentResult, ViewportError>)
    ensures
        r == spec_present_outcome(status),
{
    match status {
        PresentStatus::Success => Ok(PresentResult::Success),
        PresentStatus::Suboptimal => Ok(PresentResult::ResizeRequested),
        PresentStatus::OutOfDate => Ok(PresentResult::ResizeRequested),
        PresentStatus::Failed(code) => Err(ViewportError::PresentFailed(code)),
    }
}

/// The formats and present modes that a surface offers. Each list is
/// filled once.
#[derive(Debug)]
pub struct RenderSurface {
    pub surface: u64,
    pub surface_formats: Vec<SurfaceFormat>,
    pub surface_present_modes: Vec<i32>,
}

impl RenderSurface {
    /// A surface of which nothing is known yet.
    pub fn new(surface: u64) -> (r: RenderSurface)
        ensures
            r.surface == surface,
            r.surface_formats@ == Seq::<SurfaceFormat>::empty(),
            r.surface_present_modes@ == Seq::<i32>::empty(),
    {
        RenderSurface { surface, surface_formats: Vec::new(), surface_present_modes: Vec::new() }
    }

    /// Whether the present modes may still be asked for.
    pub fn can_generate_present_modes(&self) -> (r: bool)
        ensures
            r == (self.surface_present_modes@.len() == 0),
    {
        self.surface_present_modes.len() == 0
    }

    /// Whether the formats may still be asked for.
    pub fn can_generate_formats(&self) -> (r: bool)
        ensures
            r == (self.surface_formats@.len() == 0),
    {
        self.surface_formats.len() == 0
    }

    /// Keeps the present modes that the driver reported, unless some are
    /// kept already.
    pub fn generate_surface_present_modes(&mut self, reported: Vec<i32>) -> (r: Result<
        (),
        ViewportError,
    >)
        ensures
            final(self).surface == old(self).surface,
            final(self).surface_formats == old(self).surface_formats,
            match r {
                Ok(_) => {
                    &&& old(self).surface_present_modes@.len() == 0
                    &&& final(self).surface_present_modes@ == reported@
                },
                Err(e) => {
                    &&& e == ViewportError::PresentModesAlreadyGenerated
                    &&& old(self).surface_present_modes@.len() > 0
                    &&& final(self).surface_present_modes == old(self).surface_present_modes
                },
            },
    {
        if self.surface_present_modes.len() != 0 {
            return Err(ViewportError::PresentModesAlreadyGenerated);
        }
        self.surface_present_modes = reported;
        Ok(())
    }

    /// Keeps the formats that the driver reported, unless some are kept
    /// already.
    pub fn generate_surface_formats(&mut self, reported: Vec<SurfaceFormat>) -> (r: Result<
        (),
        ViewportError,
    >)
        ensures
            final(self).surface == old(self).surface,
            final(self).surface_present_modes == old(self).surface_present_modes,
            match r {
                Ok(_) => old(self).surface_formats@.len() == 0 && final(self).surface_formats@
                    == reported@,
                Err(e) => {
                    &&& e == ViewportError::FormatsAlreadyGenerated
                    &&& old(self).surface_formats@.len() > 0
                    &&& final(self).surface_formats == old(self).surface_formats
                },
            },
    {
        if self.surface_formats.len() != 0 {
            return Err(ViewportError::FormatsAlreadyGenerated);
        }
        self.surface_formats = reported;
        Ok(())
    }
}

/// A swapchain: what it was created with, and its images.
#[derive(Debug)]
pub struct RenderSwapchain {
    pub config: SwapchainConfig,
    pub swapchain_images: Vec<u64>,
}

impl RenderSwapchain {
    /// Decides what a swapchain for `surface` and a window of `size` is
    /// created with.
    pub fn configure(
        surface: &RenderSurface,
        capabilities: &SurfaceCapabilities,
        size: Extent2D,
    ) -> (r: Result<SwapchainConfig, ViewportError>)
        requires
            capabilities.wf(),
        ensures
            r == spec_swapchain_config(
                surface.surface_formats@,
                surface.surface_present_modes@,
                *capabilities,
                size,
            ),
    {
        let format = choose_surface_format(&surface.surface_formats)?;
        Ok(
            SwapchainConfig {
                format,
                present_mode: choose_present_mode(&surface.surface_present_modes),
                extent: choose_image_extent(capabilities, size),
                min_image_count: choose_image_count(capabilities),
                pre_transform: choose_pre_transform(capabilities),
                image_usage: ImageUsage {
                    color_attachment: true,
                    sampled: false,
                    storage: false,
                    transfer_src: false,
                    transfer_dst: true,
                    depth_stencil_attachment: false,
                },
                image_array_layers: 1,
                exclusive_sharing: true,
                opaque: true,
                clipped: true,
            },
        )
    }

    /// The swapchain that the driver created from `config`, with its
    /// images.
    pub fn new(config: SwapchainConfig, swapchain_images: Vec<u64>) -> (r: RenderSwapchain)
        ensures
            r.config == config,
            r.swapchain_images == swapchain_images,
    {
        RenderSwapchain { config, swapchain_images }
    }
}

/// The surface, its swapchain, and the queue that presents.
#[derive(Debug)]
pub struct RenderViewport {
    pub surface: RenderSurface,
    pub swapchain: RenderSwapchain,
    pub present_queue: Queue,
}

impl RenderViewport {
    pub fn new(surface: RenderSurface, swapchain: RenderSwapchain, present_queue: Queue) -> (r:
        RenderViewport)
        ensures
            r.surface == surface,
            r.swapchain == swapchain,
            r.present_queue == present_queue,
    {
        RenderViewport { surface, swapchain, present_queue }
    }

    /// The image that the driver acquired under `image_index`. An index
    /// beyond the swapchain's images is refused.
    pub fn acquire_next_present_image(&self, image_index: u32, suboptimal: bool) -> (r: Result<
        PresentImage,
        ViewportError,
    >)
        ensures
            match r {
                Ok(image) => image_index < self.swapchain.swapchain_images@.len() && image == (
                PresentImage {
                    image: self.swapchain.swapchain_images@[image_index as int],
                    index: image_index,
                    extent: self.swapchain.config.extent,
                    suboptimal,
                }),
                Err(e) => e == ViewportError::ImageIndexOutOfRange && image_index
                    >= self.swapchain.swapchain_images@.len(),
            },
    {
        let index = image_index as usize;
        if index >= self.swapchain.swapchain_images.len() {
            return Err(ViewportError::ImageIndexOutOfRange);
        }
        Ok(
            PresentImage {
                image: self.swapchain.swapchain_images[index],
                index: image_index,
                extent: self.swapchain.config.extent,
                suboptimal,
            },
        )
    }

    /// What presenting came to, from the driver's answer.
    pub fn present(&self, status: PresentStatus) -> (r: Result<PresentResult, ViewportError>)
        requires
            self.present_queue.family.present,
        ensures
            r == spec_present_outcome(status),
    {
        present_outcome(status)
    }

    /// Replaces the swapchain by the one that the driver built for the same
    /// surface and the new size, with the configuration that `configure`
    /// gives for them. `built` holds the images of the new swapchain, or the
    /// driver's code where it built none. The old swapchain stays where the
    /// surface offers no format and where the driver built nothing. Where
    /// the surface has no extent of its own, the viewport then has the size
    /// asked for, brought into the range of extents that the surface allows.
    pub fn resize(
        &mut self,
        size: Extent2D,
        capabilities: &SurfaceCapabilities,
        built: Result<Vec<u64>, i32>,
    ) -> (r: Result<SwapchainConfig, ViewportError>)
        requires
            capabilities.wf(),
        ensures
            final(self).surface == old(self).surface,
            final(self).present_queue == old(self).present_queue,
            match spec_swapchain_config(
                old(self).surface.surface_formats@,
                old(self).surface.surface_present_modes@,
                *capabilities,
                size,
            ) {
                Err(e) => r == Err::<SwapchainConfig, ViewportError>(e) && final(self).swapchain
                    == old(self).swapchain,
                Ok(config) => match built {
                    Ok(images) => {
                        &&& r == Ok::<SwapchainConfig, ViewportError>(config)
                        &&& final(self).swapchain.config == config
                        &&& final(self).swapchain.swapchain_images == images
                        &&& final(self).spec_size() == spec_image_extent(*capabilities, size)
                    },
                    Err(code) => {
                        &&& r == Err::<SwapchainConfig, ViewportError>(
                            ViewportError::SwapchainFailed(code),
                        )
                        &&& final(self).swapchain == old(self).swapchain
                    },
                },
            },
            r is Ok && capabilities.current_extent.width == UNDEFINED_EXTENT
                ==> final(self).spec_size() == clamped_extent(*capabilities, size),
    {
        let config = RenderSwapchain::configure(&self.surface, capabilities, size)?;
        match built {
            Ok(images) => {
                self.swapchain = RenderSwapchain::new(config, images);
                Ok(config)
            },
            Err(code) => Err(ViewportError::SwapchainFailed(code)),
        }
    }

    /// The extent of the swapchain images.
    pub open spec fn spec_size(&self) -> Extent2D {
        self.swapchain.config.extent
    }

    pub fn get_size(&self) -> (r: Extent2D)
        ensures
            r == self.spec_size(),
    {
        self.swapchain.config.extent
    }
}

} // verus!
