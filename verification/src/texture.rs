//! Images with their views: what to create, how to fill them, and the
//! commands that move them between layouts or copy them.

use vstd::prelude::*;

verus! {

#[derive(Clone, Copy, Debug, PartialEq, Eq, Structural)]
pub enum TextureFormat {
    /// Four 8-bit channels, sRGB.
    Rgba8Srgb,
    /// One 32-bit float depth channel.
    Depth32Float,
    /// Four 16-bit float channels.
    Rgba16Float,
}

#[derive(Clone, Copy, Debug, PartialEq, Eq, Structural)]
pub enum ImageAspect {
    Color,
    Depth,
}

#[derive(Clone, Copy, Debug, PartialEq, Eq, Structural)]
pub enum ImageLayout {
    Undefined,
    General,
    ColorAttachmentOptimal,
    DepthStencilAttachmentOptimal,
    ShaderReadOnlyOptimal,
    TransferSrcOptimal,
    TransferDstOptimal,
    PresentSrc,
}

/// The kinds of memory access a barrier orders.
#[derive(Clone, Copy, Debug, PartialEq, Eq, Structural)]
pub enum Access {
    Nothing,
    TransferWrite,
    ShaderRead,
    MemoryWrite,
    MemoryReadWrite,
}

/// The pipeline stages a barrier orders.
#[derive(Clone, Copy, Debug, PartialEq, Eq, Structural)]
pub enum Stage {
    TopOfPipe,
    Transfer,
    FragmentShader,
    AllCommands,
}

/// What an image may be used for.
#[derive(Clone, Copy, Debug, PartialEq, Eq, Structural)]
pub struct ImageUsage {
    pub color_attachment: bool,
    pub sampled: bool,
    pub storage: bool,
    pub transfer_src: bool,
    pub transfer_dst: bool,
    pub depth_stencil_attachment: bool,
}

#[derive(Clone, Copy, Debug, PartialEq, Eq, Structural)]
pub struct Extent2D {
    pub width: u32,
    pub height: u32,
}

#[derive(Clone, Copy, Debug, PartialEq, Eq, Structural)]
pub struct Extent3D {
    pub width: u32,
    pub height: u32,
    pub depth: u32,
}

/// What the driver is asked for when an image is created. Every image
/// lives in device-local memory and gets one view of the whole image.
#[derive(Clone, Copy, Debug, PartialEq, Eq, Structural)]
pub struct TextureCreateInfo {
    pub format: TextureFormat,
    pub extent: Extent3D,
    pub mip_levels: u32,
    pub array_layers: u32,
    pub usage: ImageUsage,
    pub aspect: ImageAspect,
    /// The image lives in memory of the device.
    pub device_local: bool,
    /// Whether the image gets a memory block of its own; meant for images
    /// as large as the screen.
    pub use_dedicated_memory: bool,
}

/// A texture to create, and whether it holds nothing until data was
/// uploaded to it.
#[derive(Clone, Copy, Debug, PartialEq, Eq, Structural)]
pub struct TextureDescriptor {
    pub info: TextureCreateInfo,
    pub needs_upload: bool,
}

/// How a blit takes its samples.
#[derive(Clone, Copy, Debug, PartialEq, Eq, Structural)]
pub enum Filter {
    Nearest,
    Linear,
}

/// The mip levels and array layers of an image that a barrier covers.
#[derive(Clone, Copy, Debug, PartialEq, Eq, Structural)]
pub struct SubresourceRange {
    pub base_mip_level: u32,
    pub level_count: u32,
    pub base_array_layer: u32,
    pub layer_count: u32,
}

/// The mip level and array layers of an image that a copy reads or writes.
#[derive(Clone, Copy, Debug, PartialEq, Eq, Structural)]
pub struct SubresourceLayers {
    pub mip_level: u32,
    pub base_array_layer: u32,
    pub layer_count: u32,
}

/// The one mip level and the one array layer that every image has.
pub open spec fn whole_image() -> SubresourceRange {
    SubresourceRange { base_mip_level: 0, level_count: 1, base_array_layer: 0, layer_count: 1 }
}

/// The one array layer of the one mip level that every image has.
pub open spec fn only_layer() -> SubresourceLayers {
    SubresourceLayers { mip_level: 0, base_array_layer: 0, layer_count: 1 }
}

/// A change of layout of the whole image, with the accesses it orders.
#[derive(Clone, Copy, Debug, PartialEq, Eq, Structural)]
pub struct ImageBarrier {
    pub image: u64,
    pub aspect: ImageAspect,
    pub range: SubresourceRange,
    pub old_layout: ImageLayout,
    pub new_layout: ImageLayout,
    pub src_stage: Stage,
    pub src_access: Access,
    pub dst_stage: Stage,
    pub dst_access: Access,
}

/// A copy out of a staging buffer, from `buffer_offset` on, into an image.
/// The rows lie in the buffer without gaps.
#[derive(Clone, Copy, Debug, PartialEq, Eq, Structural)]
pub struct BufferImageCopy {
    pub buffer_offset: u64,
    pub image: u64,
    pub aspect: ImageAspect,
    pub layers: SubresourceLayers,
    pub extent: Extent3D,
    pub layout: ImageLayout,
}

/// A scaled copy of a part of one image onto a part of another. The parts
/// reach from the origin to the extents.
#[derive(Clone, Copy, Debug, PartialEq, Eq, Structural)]
pub struct ImageBlit {
    pub src_image: u64,
    pub src_layout: ImageLayout,
    pub src_extent: Extent2D,
    pub dst_image: u64,
    pub dst_layout: ImageLayout,
    pub dst_extent: Extent2D,
    pub aspect: ImageAspect,
    pub layers: SubresourceLayers,
    pub filter: Filter,
}

/// The blit that copies all of the colour image `src`, scaled with linear
/// filtering, onto all of `dst`. The source is read in the transfer-source
/// layout, the destination written in the transfer-destination layout.
pub open spec fn spec_blit(src: u64, src_extent: Extent2D, dst: u64, dst_extent: Extent2D)
    -> ImageBlit {
    ImageBlit {
        src_image: src,
        src_layout: ImageLayout::TransferSrcOptimal,
        src_extent,
        dst_image: dst,
        dst_layout: ImageLayout::TransferDstOptimal,
        dst_extent,
        aspect: ImageAspect::Color,
        layers: only_layer(),
        filter: Filter::Linear,
    }
}

/// The width and the height of `extent`.
pub open spec fn flat(extent: Extent3D) -> Extent2D {
    Extent2D { width: extent.width, height: extent.height }
}

/// A step of the destruction of a texture.
#[derive(Clone, Copy, Debug, PartialEq, Eq, Structural)]
pub enum TextureTeardown {
    DestroyView(u64),
    FreeImage(u64),
}

#[derive(Clone, Copy, Debug, PartialEq, Eq, Structural)]
pub enum TextureCommand {
    Barrier(ImageBarrier),
    CopyBufferToImage(BufferImageCopy),
}

/// What an upload takes: a staging buffer of `staging_size` bytes that holds
/// the data, and the commands to record, in order.
#[derive(Debug)]
pub struct UploadPlan {
    pub staging_size: u64,
    pub commands: Vec<TextureCommand>,
}

/// An image, its view, and what they were made with.
#[derive(Clone, Copy, Debug, PartialEq, Eq, Structural)]
pub struct Texture {
    pub image: u64,
    pub view: u64,
    pub format: TextureFormat,
    pub extent: Extent3D,
    pub aspect: ImageAspect,
}

/// The barrier that moves `image` from `old_layout` to `new_layout` and makes
/// every later command wait for every earlier one. No barrier is needed
/// where the layout stays.
pub open spec fn spec_layout_transition(
    image: u64,
    aspect: ImageAspect,
    old_layout: ImageLayout,
    new_layout: ImageLayout,
) -> Option<ImageBarrier> {
    if old_layout == new_layout {
        None
    } else {
        Some(
            ImageBarrier {
                image,
                aspect,
                range: whole_image(),
                old_layout,
                new_layout,
                src_stage: Stage::AllCommands,
                src_access: Access::MemoryWrite,
                dst_stage: Stage::AllCommands,
                dst_access: Access::MemoryReadWrite,
            },
        )
    }
}

/// Computes the barrier for a change of layout; none where the layout stays.
pub fn transition_image_layout(
    image: u64,
    aspect: ImageAspect,
    old_layout: ImageLayout,
    new_layout: ImageLayout,
) -> (r: Option<ImageBarrier>)
    ensures
        r == spec_layout_transition(image, aspect, old_layout, new_layout),
{
    if old_layout == new_layout {
        return None;
    }
    Some(
        ImageBarrier {
            image,
            aspect,
            range: SubresourceRange {
                base_mip_level: 0,
                level_count: 1,
                base_array_layer: 0,
                layer_count: 1,
            },
            old_layout,
            new_layout,
            src_stage: Stage::AllCommands,
            src_access: Access::MemoryWrite,
            dst_stage: Stage::AllCommands,
            dst_access: Access::MemoryReadWrite,
        },
    )
}

/// The blit that copies all of the colour image `src`, scaled with linear
/// filtering, onto all of `dst`.
pub fn copy_vkimage_to_vkimage(src: u64, dst: u64, src_size: Extent2D, dst_size: Extent2D) -> (r:
    ImageBlit)
    ensures
        r == spec_blit(src, src_size, dst, dst_size),
{
    ImageBlit {
        src_image: src,
        src_layout: ImageLayout::TransferSrcOptimal,
        src_extent: src_size,
        dst_image: dst,
        dst_layout: ImageLayout::TransferDstOptimal,
        dst_extent: dst_size,
        aspect: ImageAspect::Color,
        layers: SubresourceLayers { mip_level: 0, base_array_layer: 0, layer_count: 1 },
        filter: Filter::Linear,
    }
}

/// The commands of an upload into `image`: make the image a transfer
/// destination, copy the staging buffer into it, make it readable by
/// shaders.
pub open spec fn spec_upload_commands(image: u64, aspect: ImageAspect, extent: Extent3D) -> Seq<
    TextureCommand,
> {
    seq![
        TextureCommand::Barrier(
            ImageBarrier {
                image,
                aspect,
                range: whole_image(),
                old_layout: ImageLayout::Undefined,
                new_layout: ImageLayout::TransferDstOptimal,
                src_stage: Stage::TopOfPipe,
                src_access: Access::Nothing,
                dst_stage: Stage::Transfer,
                dst_access: Access::TransferWrite,
            },
        ),
        TextureCommand::CopyBufferToImage(
            BufferImageCopy {
                buffer_offset: 0,
                image,
                aspect,
                layers: only_layer(),
                extent,
                layout: ImageLayout::TransferDstOptimal,
            },
        ),
        TextureCommand::Barrier(
            ImageBarrier {
                image,
                aspect,
                range: whole_image(),
                old_layout: ImageLayout::TransferDstOptimal,
                new_layout: ImageLayout::ShaderReadOnlyOptimal,
                src_stage: Stage::Transfer,
                src_access: Access::TransferWrite,
                dst_stage: Stage::FragmentShader,
                dst_access: Access::ShaderRead,
            },
        ),
    ]
}

impl Texture {
    /// What a colour texture that shaders read is created with.
    pub open spec fn spec_color_texture(
        width: u32,
        height: u32,
        has_data: bool,
        use_dedicated_memory: bool,
    ) -> TextureDescriptor {
        TextureDescriptor {
            info: TextureCreateInfo {
                format: TextureFormat::Rgba8Srgb,
                extent: Extent3D { width, height, depth: 1 },
                mip_levels: 1,
                array_layers: 1,
                usage: ImageUsage {
                    color_attachment: false,
                    sampled: true,
                    storage: false,
                    transfer_src: true,
                    transfer_dst: true,
                    depth_stencil_attachment: false,
                },
                aspect: ImageAspect::Color,
                device_local: true,
                use_dedicated_memory,
            },
            needs_upload: has_data,
        }
    }

    /// What a depth buffer is created with.
    pub open spec fn spec_depth_texture(width: u32, height: u32) -> TextureDescriptor {
        TextureDescriptor {
            info: TextureCreateInfo {
                format: TextureFormat::Depth32Float,
                extent: Extent3D { width, height, depth: 1 },
                mip_levels: 1,
                array_layers: 1,
                usage: ImageUsage {
                    color_attachment: false,
                    sampled: false,
                    storage: false,
                    transfer_src: false,
                    transfer_dst: false,
                    depth_stencil_attachment: true,
                },
                aspect: ImageAspect::Depth,
                device_local: true,
                use_dedicated_memory: true,
            },
            needs_upload: false,
        }
    }

    /// What a texture that compute shaders write is created with.
    pub open spec fn spec_storage_texture(
        width: u32,
        height: u32,
        use_dedicated_memory: bool,
    ) -> TextureDescriptor {
        TextureDescriptor {
            info: TextureCreateInfo {
                format: TextureFormat::Rgba16Float,
                extent: Extent3D { width, height, depth: 1 },
                mip_levels: 1,
                array_layers: 1,
                usage: ImageUsage {
                    color_attachment: false,
                    sampled: false,
                    storage: true,
                    transfer_src: true,
                    transfer_dst: true,
                    depth_stencil_attachment: false,
                },
                aspect: ImageAspect::Color,
                device_local: true,
                use_dedicated_memory,
            },
            needs_upload: false,
        }
    }

    /// The texture made of `image` and `view`, which the driver created
    /// from `create_info`.
    pub fn new(create_info: &TextureCreateInfo, image: u64, view: u64) -> (r: Texture)
        ensures
            r == (Texture {
                image,
                view,
                format: create_info.format,
                extent: create_info.extent,
                aspect: create_info.aspect,
            }),
    {
        Texture {
            image,
            view,
            format: create_info.format,
            extent: create_info.extent,
            aspect: create_info.aspect,
        }
    }

    /// A colour texture that shaders read. With initial data it holds
    /// nothing until that data was uploaded.
    pub fn new_color_texture_from_bytes(
        width: u32,
        height: u32,
        has_data: bool,
        use_dedicated_memory: bool,
    ) -> (r: TextureDescriptor)
        ensures
            r == Texture::spec_color_texture(width, height, has_data, use_dedicated_memory),
    {
        TextureDescriptor {
            info: TextureCreateInfo {
                format: TextureFormat::Rgba8Srgb,
                extent: Extent3D { width, height, depth: 1 },
                mip_levels: 1,
                array_layers: 1,
                usage: ImageUsage {
                    color_attachment: false,
                    sampled: true,
                    storage: false,
                    transfer_src: true,
                    transfer_dst: true,
                    depth_stencil_attachment: false,
                },
                aspect: ImageAspect::Color,
                device_local: true,
                use_dedicated_memory,
            },
            needs_upload: has_data,
        }
    }

    /// A depth buffer. It is as large as the screen, so it gets a memory
    /// block of its own; it needs no upload.
    pub fn new_depth_texture(width: u32, height: u32) -> (r: TextureDescriptor)
        ensures
            r == Texture::spec_depth_texture(width, height),
    {
        TextureDescriptor {
            info: TextureCreateInfo {
                format: TextureFormat::Depth32Float,
                extent: Extent3D { width, height, depth: 1 },
                mip_levels: 1,
                array_layers: 1,
                usage: ImageUsage {
                    color_attachment: false,
                    sampled: false,
                    storage: false,
                    transfer_src: false,
                    transfer_dst: false,
                    depth_stencil_attachment: true,
                },
                aspect: ImageAspect::Depth,
                device_local: true,
                use_dedicated_memory: true,
            },
            needs_upload: false,
        }
    }

    /// A texture that compute shaders write. It needs no upload.
    pub fn new_storage_texture(width: u32, height: u32, use_dedicated_memory: bool) -> (r:
        TextureDescriptor)
        ensures
            r == Texture::spec_storage_texture(width, height, use_dedicated_memory),
    {
        TextureDescriptor {
            info: TextureCreateInfo {
                format: TextureFormat::Rgba16Float,
                extent: Extent3D { width, height, depth: 1 },
                mip_levels: 1,
                array_layers: 1,
                usage: ImageUsage {
                    color_attachment: false,
                    sampled: false,
                    storage: true,
                    transfer_src: true,
                    transfer_dst: true,
                    depth_stencil_attachment: false,
                },
                aspect: ImageAspect::Color,
                device_local: true,
                use_dedicated_memory,
            },
            needs_upload: false,
        }
    }

    /// The barrier that moves this texture from `old_layout` to
    /// `new_layout`; none where the layout stays.
    pub fn transition_layout(&self, old_layout: ImageLayout, new_layout: ImageLayout) -> (r: Option<
        ImageBarrier,
    >)
        ensures
            r == spec_layout_transition(self.image, self.aspect, old_layout, new_layout),
    {
        transition_image_layout(self.image, self.aspect, old_layout, new_layout)
    }

    /// The blit of this whole texture onto all of `dst_image`.
    pub fn copy_to_vkimage(&self, dst_image: u64, dst_image_extent: Extent2D) -> (r: ImageBlit)
        ensures
            r == spec_blit(self.image, flat(self.extent), dst_image, dst_image_extent),
    {
        copy_vkimage_to_vkimage(
            self.image,
            dst_image,
            Extent2D { width: self.extent.width, height: self.extent.height },
            dst_image_extent,
        )
    }

    /// The blit of this whole texture onto all of `dst`.
    pub fn copy_to(&self, dst: &Texture) -> (r: ImageBlit)
        ensures
            r == spec_blit(self.image, flat(self.extent), dst.image, flat(dst.extent)),
    {
        self.copy_to_vkimage(
            dst.image,
            Extent2D { width: dst.extent.width, height: dst.extent.height },
        )
    }

    /// What it takes to fill this texture with `data_len` bytes: a staging
    /// buffer of that size, and three commands.
    pub fn upload(&self, data_len: u64) -> (r: UploadPlan)
        ensures
            r.staging_size == data_len,
            r.commands@ == spec_upload_commands(self.image, self.aspect, self.extent),
    {
        let to_transfer = ImageBarrier {
            image: self.image,
            aspect: self.aspect,
            range: SubresourceRange {
                base_mip_level: 0,
                level_count: 1,
                base_array_layer: 0,
                layer_count: 1,
            },
            old_layout: ImageLayout::Undefined,
            new_layout: ImageLayout::TransferDstOptimal,
            src_stage: Stage::TopOfPipe,
            src_access: Access::Nothing,
            dst_stage: Stage::Transfer,
            dst_access: Access::TransferWrite,
        };
        let copy = BufferImageCopy {
            buffer_offset: 0,
            image: self.image,
            aspect: self.aspect,
            layers: SubresourceLayers { mip_level: 0, base_array_layer: 0, layer_count: 1 },
            extent: self.extent,
            layout: ImageLayout::TransferDstOptimal,
        };
        let to_readable = ImageBarrier {
            image: self.image,
            aspect: self.aspect,
            range: SubresourceRange {
                base_mip_level: 0,
                level_count: 1,
                base_array_layer: 0,
                layer_count: 1,
            },
            old_layout: ImageLayout::TransferDstOptimal,
            new_layout: ImageLayout::ShaderReadOnlyOptimal,
            src_stage: Stage::Transfer,
            src_access: Access::TransferWrite,
            dst_stage: Stage::FragmentShader,
            dst_access: Access::ShaderRead,
        };
        let mut commands: Vec<TextureCommand> = Vec::new();
        commands.push(TextureCommand::Barrier(to_transfer));
        commands.push(TextureCommand::CopyBufferToImage(copy));
        commands.push(TextureCommand::Barrier(to_readable));
        UploadPlan { staging_size: data_len, commands }
    }

    /// What is to be destroyed with this texture, in order: the view, and
    /// only then the image with its memory.
    pub fn destroy(self) -> (r: Vec<TextureTeardown>)
        ensures
            r@ == seq![TextureTeardown::DestroyView(self.view), TextureTeardown::FreeImage(self.image)],
    {
        let mut out: Vec<TextureTeardown> = Vec::new();
        out.push(TextureTeardown::DestroyView(self.view));
        out.push(TextureTeardown::FreeImage(self.image));
        out
    }
}

} // verus!
