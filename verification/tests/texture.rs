use dunward_renderer::texture::{
    copy_vkimage_to_vkimage, transition_image_layout, Access, BufferImageCopy, Extent2D,
    Extent3D, Filter, ImageAspect, ImageBarrier, ImageBlit, ImageLayout, ImageUsage, Stage,
    SubresourceLayers, SubresourceRange, Texture, TextureCommand, TextureCreateInfo,
    TextureDescriptor, TextureFormat, TextureTeardown,
};

fn whole_image() -> SubresourceRange {
    SubresourceRange { base_mip_level: 0, level_count: 1, base_array_layer: 0, layer_count: 1 }
}

#[test]
fn a_colour_texture_is_sampled_and_transferable() {
    let with_data = Texture::new_color_texture_from_bytes(64, 32, true, false);
    assert_eq!(
        with_data,
        TextureDescriptor {
            info: TextureCreateInfo {
                format: TextureFormat::Rgba8Srgb,
                extent: Extent3D { width: 64, height: 32, depth: 1 },
                mip_levels: 1,
                array_layers: 1,
                usage: ImageUsage {
                    color_attachment: false,
                    sampled: true,
                    storage: false,
                    transfer_src: true,
                    transfer_dst: true,
                    depth_stencil_attachment: false,
                },
                aspect: ImageAspect::Color,
                device_local: true,
                use_dedicated_memory: false,
            },
            needs_upload: true,
        }
    );
    let without_data = Texture::new_color_texture_from_bytes(64, 32, false, true);
    assert!(!without_data.needs_upload);
    assert!(without_data.info.use_dedicated_memory);
}

#[test]
fn a_depth_texture_is_an_attachment_with_memory_of_its_own() {
    assert_eq!(
        Texture::new_depth_texture(1920, 1080),
        TextureDescriptor {
            info: TextureCreateInfo {
                format: TextureFormat::Depth32Float,
                extent: Extent3D { width: 1920, height: 1080, depth: 1 },
                mip_levels: 1,
                array_layers: 1,
                usage: ImageUsage {
                    color_attachment: false,
                    sampled: false,
                    storage: false,
                    transfer_src: false,
                    transfer_dst: false,
                    depth_stencil_attachment: true,
                },
                aspect: ImageAspect::Depth,
                device_local: true,
                use_dedicated_memory: true,
            },
            needs_upload: false,
        }
    );
}

#[test]
fn a_storage_texture_is_for_compute_shaders() {
    assert_eq!(
        Texture::new_storage_texture(8, 4, false),
        TextureDescriptor {
            info: TextureCreateInfo {
                format: TextureFormat::Rgba16Float,
                extent: Extent3D { width: 8, height: 4, depth: 1 },
                mip_levels: 1,
                array_layers: 1,
                usage: ImageUsage {
                    color_attachment: false,
                    sampled: false,
                    storage: true,
                    transfer_src: true,
                    transfer_dst: true,
                    depth_stencil_attachment: false,
                },
                aspect: ImageAspect::Color,
                device_local: true,
                use_dedicated_memory: false,
            },
            needs_upload: false,
        }
    );
}

fn texture() -> Texture {
    Texture::new(&Texture::new_color_texture_from_bytes(64, 32, true, false).info, 500, 501)
}

#[test]
fn a_texture_keeps_what_it_was_made_with() {
    assert_eq!(
        texture(),
        Texture {
            image: 500,
            view: 501,
            format: TextureFormat::Rgba8Srgb,
            extent: Extent3D { width: 64, height: 32, depth: 1 },
            aspect: ImageAspect::Color,
        }
    );
}

#[test]
fn a_transition_between_equal_layouts_is_nothing() {
    assert_eq!(texture().transition_layout(ImageLayout::General, ImageLayout::General), None);
    assert_eq!(
        transition_image_layout(1, ImageAspect::Depth, ImageLayout::Undefined, ImageLayout::Undefined),
        None
    );
}

#[test]
fn a_transition_is_a_full_barrier() {
    assert_eq!(
        texture().transition_layout(ImageLayout::Undefined, ImageLayout::PresentSrc),
        Some(ImageBarrier {
            image: 500,
            aspect: ImageAspect::Color,
            range: whole_image(),
            old_layout: ImageLayout::Undefined,
            new_layout: ImageLayout::PresentSrc,
            src_stage: Stage::AllCommands,
            src_access: Access::MemoryWrite,
            dst_stage: Stage::AllCommands,
            dst_access: Access::MemoryReadWrite,
        })
    );
}

#[test]
fn a_copy_covers_both_images() {
    let src = texture();
    let dst = Texture::new(&Texture::new_storage_texture(640, 480, true).info, 600, 601);
    let expected = ImageBlit {
        src_image: 500,
        src_layout: ImageLayout::TransferSrcOptimal,
        src_extent: Extent2D { width: 64, height: 32 },
        dst_image: 600,
        dst_layout: ImageLayout::TransferDstOptimal,
        dst_extent: Extent2D { width: 640, height: 480 },
        aspect: ImageAspect::Color,
        layers: SubresourceLayers { mip_level: 0, base_array_layer: 0, layer_count: 1 },
        filter: Filter::Linear,
    };
    assert_eq!(src.copy_to(&dst), expected);
    assert_eq!(src.copy_to_vkimage(600, Extent2D { width: 640, height: 480 }), expected);
    assert_eq!(
        copy_vkimage_to_vkimage(
            500,
            600,
            Extent2D { width: 64, height: 32 },
            Extent2D { width: 640, height: 480 }
        ),
        expected
    );
}

#[test]
fn an_upload_is_a_barrier_a_copy_and_a_barrier() {
    let plan = texture().upload(64 * 32 * 4);
    assert_eq!(plan.staging_size, 8192);
    assert_eq!(
        plan.commands,
        vec![
            TextureCommand::Barrier(ImageBarrier {
                image: 500,
                aspect: ImageAspect::Color,
                range: whole_image(),
                old_layout: ImageLayout::Undefined,
                new_layout: ImageLayout::TransferDstOptimal,
                src_stage: Stage::TopOfPipe,
                src_access: Access::Nothing,
                dst_stage: Stage::Transfer,
                dst_access: Access::TransferWrite,
            }),
            TextureCommand::CopyBufferToImage(BufferImageCopy {
                buffer_offset: 0,
                image: 500,
                aspect: ImageAspect::Color,
                layers: SubresourceLayers { mip_level: 0, base_array_layer: 0, layer_count: 1 },
                extent: Extent3D { width: 64, height: 32, depth: 1 },
                layout: ImageLayout::TransferDstOptimal,
            }),
            TextureCommand::Barrier(ImageBarrier {
                image: 500,
                aspect: ImageAspect::Color,
                range: whole_image(),
                old_layout: ImageLayout::TransferDstOptimal,
                new_layout: ImageLayout::ShaderReadOnlyOptimal,
                src_stage: Stage::Transfer,
                src_access: Access::TransferWrite,
                dst_stage: Stage::FragmentShader,
                dst_access: Access::ShaderRead,
            }),
        ]
    );
}

#[test]
fn the_view_is_destroyed_before_the_image() {
    assert_eq!(
        texture().destroy(),
        vec![TextureTeardown::DestroyView(501), TextureTeardown::FreeImage(500)]
    );
}
