use dunward_renderer::commands::CommandEncoder;
use dunward_renderer::frame::{
    FrameError, FramePresentPacket, FrameRegions, FrameState, PresentAction, PresentEvent,
    RenderAction, RenderEvent, RenderFrame, FRAME_INDEX_BUFFER_SIZE, FRAME_PER_FRAME_BUFFER_SIZE,
    FRAME_PER_MATERIAL_BUFFER_SIZE, FRAME_PER_OBJECT_BUFFER_SIZE, FRAME_TIMEOUT_NANOS,
    FRAME_VERTEX_BUFFER_SIZE,
};
use dunward_renderer::megabuffer::{
    FreeMegabufferRegion, Megabuffer, MegabufferError, MegabufferIds,
};
use dunward_renderer::queue::{Queue, QueueFamily};
use dunward_renderer::renderer::{FrameRenderMetadata, Renderer, FRAMES_IN_FLIGHT};
use dunward_renderer::texture::{Extent2D, Texture};
use dunward_renderer::transfer::{next_step, TransferCommandEncoder, TransferStep};
use dunward_renderer::commands::CommandError;
use dunward_renderer::viewport::{PresentImage, PresentResult, PresentStatus, ViewportError};

const MIB: u64 = 1024 * 1024;

fn free(offset: u64, size: u64) -> FreeMegabufferRegion {
    FreeMegabufferRegion { offset, size }
}

fn queue() -> Queue {
    Queue::new(QueueFamily::new(0, 0x7, true), 1)
}

#[test]
fn a_frame_keeps_a_mebibyte_of_each_buffer() {
    assert_eq!(FRAME_VERTEX_BUFFER_SIZE, MIB);
    assert_eq!(FRAME_INDEX_BUFFER_SIZE, MIB);
    assert_eq!(FRAME_PER_FRAME_BUFFER_SIZE, MIB);
    assert_eq!(FRAME_PER_MATERIAL_BUFFER_SIZE, MIB);
    assert_eq!(FRAME_PER_OBJECT_BUFFER_SIZE, MIB);
    assert_eq!(FRAME_TIMEOUT_NANOS, 1_000_000_000);
}

#[test]
fn the_regions_of_a_frame_come_from_five_megabuffers() {
    let mut ids = MegabufferIds::new();
    let mut vertex = Megabuffer::new(4 * MIB, 256, &mut ids);
    let mut index = Megabuffer::new(4 * MIB, 256, &mut ids);
    let mut per_frame = Megabuffer::new(MIB, 256, &mut ids);
    let mut per_material = Megabuffer::new(2 * MIB, 256, &mut ids);
    let mut per_object = Megabuffer::new(3 * MIB, 256, &mut ids);
    let _held = index.allocate_region(100).unwrap();
    let regions = FrameRegions::allocate(
        &mut vertex,
        &mut index,
        &mut per_frame,
        &mut per_material,
        &mut per_object,
    )
    .unwrap();
    assert_eq!((regions.vertex_region.offset(), regions.vertex_region.size()), (0, MIB));
    assert_eq!((regions.index_region.offset(), regions.index_region.size()), (256, MIB));
    assert_eq!((regions.per_frame_region.offset(), regions.per_frame_region.size()), (0, MIB));
    assert_eq!((regions.per_material_region.offset(), regions.per_material_region.size()), (0, MIB));
    assert_eq!((regions.per_object_region.offset(), regions.per_object_region.size()), (0, MIB));
    assert!(regions.vertex_region.belongs_to_megabuffer(&vertex));
    assert!(regions.per_object_region.belongs_to_megabuffer(&per_object));
    assert_eq!(vertex.free_regions(), vec![free(MIB, 3 * MIB)]);
    assert_eq!(index.free_regions(), vec![free(MIB + 256, 3 * MIB - 256)]);
    assert_eq!(per_frame.free_regions(), vec![]);
    assert_eq!(per_material.free_regions(), vec![free(MIB, MIB)]);
    assert_eq!(per_object.free_regions(), vec![free(MIB, 2 * MIB)]);
}

#[test]
fn a_frame_that_gets_no_room_keeps_nothing() {
    let mut ids = MegabufferIds::new();
    for short in 0..5usize {
        let capacity = |k: usize| if k == short { MIB - 1 } else { 2 * MIB };
        let mut vertex = Megabuffer::new(capacity(0), 1, &mut ids);
        let mut index = Megabuffer::new(capacity(1), 1, &mut ids);
        let mut per_frame = Megabuffer::new(capacity(2), 1, &mut ids);
        let mut per_material = Megabuffer::new(capacity(3), 1, &mut ids);
        let mut per_object = Megabuffer::new(capacity(4), 1, &mut ids);
        let mut held = vertex.allocate_region(10).unwrap();
        let mut gap = vertex.allocate_region(10).unwrap();
        vertex.deallocate_region(&mut held).unwrap();
        let before = vertex.free_regions();
        match FrameRegions::allocate(
            &mut vertex,
            &mut index,
            &mut per_frame,
            &mut per_material,
            &mut per_object,
        ) {
            Err(e) => assert_eq!(e, MegabufferError::OutOfSpace),
            Ok(_) => panic!("regions were taken from a megabuffer without room"),
        }
        assert_eq!(vertex.free_regions(), before);
        assert_eq!(index.free_regions(), vec![free(0, capacity(1))]);
        assert_eq!(per_frame.free_regions(), vec![free(0, capacity(2))]);
        assert_eq!(per_material.free_regions(), vec![free(0, capacity(3))]);
        assert_eq!(per_object.free_regions(), vec![free(0, capacity(4))]);
        vertex.deallocate_region(&mut gap).unwrap();
        assert_eq!(vertex.free_regions(), vec![free(0, capacity(0))]);
    }
}

fn frame() -> RenderFrame {
    let mut ids = MegabufferIds::new();
    let mut vertex = Megabuffer::new(MIB, 256, &mut ids);
    let mut index = Megabuffer::new(MIB, 256, &mut ids);
    let mut per_frame = Megabuffer::new(MIB, 256, &mut ids);
    let mut per_material = Megabuffer::new(MIB, 256, &mut ids);
    let mut per_object = Megabuffer::new(MIB, 256, &mut ids);
    let regions = FrameRegions::allocate(
        &mut vertex,
        &mut index,
        &mut per_frame,
        &mut per_material,
        &mut per_object,
    )
    .unwrap();
    let color = Texture::new(&Texture::new_color_texture_from_bytes(800, 600, false, true).info, 1, 2);
    let depth = Texture::new(&Texture::new_depth_texture(800, 600).info, 3, 4);
    RenderFrame::new(color, depth, regions, 71, 72, 73, CommandEncoder::new(9, queue()))
}

fn image(index: u32) -> PresentImage {
    PresentImage {
        image: 100 + index as u64,
        index,
        extent: Extent2D { width: 800, height: 600 },
        suboptimal: false,
    }
}

#[test]
fn a_frame_goes_round_its_cycle() {
    let mut frame = frame();
    assert_eq!(frame.state, FrameState::Idle);
    assert_eq!(
        frame.render(RenderEvent::FenceSignaled),
        Ok(RenderAction::AcquireImage { semaphore: 71, timeout: 1_000_000_000 })
    );
    assert_eq!(frame.state, FrameState::Acquiring);
    let packet = FramePresentPacket { image: image(2) };
    assert_eq!(frame.render(RenderEvent::ImageAcquired(image(2))), Ok(RenderAction::Record(packet)));
    assert_eq!(frame.state, FrameState::Recording);
    assert_eq!(frame.render(RenderEvent::CommandsSubmitted), Ok(RenderAction::AwaitPresent));
    assert_eq!(frame.state, FrameState::Submitted);
    assert_eq!(
        frame.present(PresentEvent::Requested(packet)),
        Ok(PresentAction::Present { image_index: 2, wait_semaphore: 72 })
    );
    assert_eq!(frame.state, FrameState::Presenting);
    assert_eq!(
        frame.present(PresentEvent::Presented(PresentStatus::Success)),
        Ok(PresentAction::Finished(PresentResult::Success))
    );
    assert_eq!(frame.state, FrameState::Idle);
    assert_eq!(frame.render_fence, 73);
    assert_eq!(frame.cmd_encoder.command_buffer(), 9);
}

#[test]
fn a_timeout_abandons_the_frame() {
    let mut frame = frame();
    assert_eq!(frame.render(RenderEvent::FenceTimedOut), Err(FrameError::FenceTimeout));
    assert_eq!(frame.state, FrameState::Idle);
    frame.render(RenderEvent::FenceSignaled).unwrap();
    assert_eq!(frame.render(RenderEvent::AcquireFailed), Err(FrameError::AcquireFailed));
    assert_eq!(frame.state, FrameState::Idle);
}

#[test]
fn events_out_of_order_change_nothing() {
    let mut frame = frame();
    let packet = FramePresentPacket { image: image(0) };
    assert_eq!(frame.render(RenderEvent::ImageAcquired(image(0))), Err(FrameError::OutOfOrder));
    assert_eq!(frame.render(RenderEvent::CommandsSubmitted), Err(FrameError::OutOfOrder));
    assert_eq!(frame.render(RenderEvent::AcquireFailed), Err(FrameError::OutOfOrder));
    assert_eq!(frame.present(PresentEvent::Requested(packet)), Err(FrameError::OutOfOrder));
    assert_eq!(
        frame.present(PresentEvent::Presented(PresentStatus::Success)),
        Err(FrameError::OutOfOrder)
    );
    assert_eq!(frame.state, FrameState::Idle);
    frame.render(RenderEvent::FenceSignaled).unwrap();
    assert_eq!(frame.render(RenderEvent::FenceSignaled), Err(FrameError::OutOfOrder));
    assert_eq!(frame.render(RenderEvent::FenceTimedOut), Err(FrameError::OutOfOrder));
    assert_eq!(frame.state, FrameState::Acquiring);
    frame.render(RenderEvent::ImageAcquired(image(0))).unwrap();
    assert_eq!(frame.present(PresentEvent::Requested(packet)), Err(FrameError::OutOfOrder));
    assert_eq!(frame.state, FrameState::Recording);
    frame.render(RenderEvent::CommandsSubmitted).unwrap();
    assert_eq!(frame.render(RenderEvent::FenceSignaled), Err(FrameError::OutOfOrder));
    assert_eq!(
        frame.present(PresentEvent::Presented(PresentStatus::Success)),
        Err(FrameError::OutOfOrder)
    );
    assert_eq!(frame.state, FrameState::Submitted);
}

#[test]
fn presenting_ends_the_frame_whatever_came_of_it() {
    for (status, expected) in [
        (PresentStatus::Suboptimal, Ok(PresentAction::Finished(PresentResult::ResizeRequested))),
        (PresentStatus::OutOfDate, Ok(PresentAction::Finished(PresentResult::ResizeRequested))),
        (PresentStatus::Failed(-3), Err(FrameError::Present(ViewportError::PresentFailed(-3)))),
    ] {
        let mut frame = frame();
        frame.render(RenderEvent::FenceSignaled).unwrap();
        frame.render(RenderEvent::ImageAcquired(image(1))).unwrap();
        frame.render(RenderEvent::CommandsSubmitted).unwrap();
        frame.present(PresentEvent::Requested(FramePresentPacket { image: image(1) })).unwrap();
        assert_eq!(frame.present(PresentEvent::Presented(status)), expected);
        assert_eq!(frame.state, FrameState::Idle);
    }
}

#[test]
fn the_slots_are_taken_in_turn() {
    assert_eq!(FRAMES_IN_FLIGHT, 1);
    let size = Extent2D { width: 800, height: 600 };
    let mut single = Renderer::new(FRAMES_IN_FLIGHT);
    assert_eq!(single.current_frame_index(), 0);
    for _ in 0..3 {
        assert_eq!(
            single.render_frame(size),
            FrameRenderMetadata { frame_index: 0, target_size: size, resize_requested: false }
        );
    }
    let mut triple = Renderer::new(3);
    assert_eq!(triple.frame_count(), 3);
    let turns: Vec<usize> = (0..7).map(|_| triple.render_frame(size).frame_index).collect();
    assert_eq!(turns, vec![1, 2, 0, 1, 2, 0, 1]);
    assert_eq!(triple.current_frame_index(), 1);
    assert_eq!(triple.update_scene(size).frame_index, 1);
}

#[test]
fn a_resize_is_requested_until_it_was_done() {
    let size = Extent2D { width: 800, height: 600 };
    let mut renderer = Renderer::new(2);
    assert!(!renderer.resize_requested());
    renderer.frame_presented(PresentResult::Success);
    assert!(!renderer.resize_requested());
    renderer.frame_presented(PresentResult::ResizeRequested);
    assert!(renderer.resize_requested());
    renderer.frame_presented(PresentResult::Success);
    assert!(renderer.resize_requested());
    assert!(renderer.render_frame(size).resize_requested);
    renderer.resize_done();
    assert!(!renderer.resize_requested());
    assert!(!renderer.update_scene(size).resize_requested);
    renderer.request_resize();
    assert!(renderer.resize_requested());
    assert_eq!(renderer.current_frame_index(), 1);
}

#[test]
fn an_immediate_submission_runs_its_steps_in_order() {
    let mut transfer = TransferCommandEncoder::new(5, queue());
    assert_eq!(transfer.step(), TransferStep::Idle);
    assert!(!transfer.is_recording());
    assert_eq!(transfer.immediate_submit(), Ok(TransferStep::Begin));
    assert_eq!(transfer.immediate_submit(), Err(CommandError::AlreadyRecording));
    assert!(!transfer.is_recording());
    assert_eq!(transfer.completed(true), TransferStep::Record);
    assert!(transfer.is_recording());
    assert_eq!(transfer.completed(true), TransferStep::End);
    assert!(transfer.is_recording());
    assert_eq!(transfer.completed(true), TransferStep::Submit);
    assert!(!transfer.is_recording());
    assert_eq!(transfer.completed(true), TransferStep::Wait);
    assert_eq!(transfer.completed(true), TransferStep::Idle);
    assert_eq!(transfer.step(), TransferStep::Idle);
    assert_eq!(transfer.immediate_submit(), Ok(TransferStep::Begin));
    assert_eq!(transfer.command_buffer(), 5);
    assert_eq!(transfer.queue(), queue());
}

#[test]
fn a_failure_while_recording_is_never_submitted() {
    let mut transfer = TransferCommandEncoder::new(5, queue());
    transfer.immediate_submit().unwrap();
    assert_eq!(transfer.completed(true), TransferStep::Record);
    assert_eq!(transfer.completed(false), TransferStep::Idle);
    assert_eq!(transfer.step(), TransferStep::Idle);
    assert_eq!(transfer.completed(true), TransferStep::Idle);
    for step in [
        TransferStep::Idle,
        TransferStep::Begin,
        TransferStep::Record,
        TransferStep::End,
        TransferStep::Submit,
        TransferStep::Wait,
    ] {
        assert_eq!(next_step(step, false), TransferStep::Idle);
        assert_eq!(next_step(step, true) == TransferStep::Submit, step == TransferStep::End);
    }
}
