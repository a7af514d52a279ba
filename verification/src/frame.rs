//! One frame slot: the resources it keeps from frame to frame and the order
//! in which a frame is acquired, recorded, submitted and presented.

use vstd::prelude::*;
use crate::align::{aligned_size, lemma_aligned_size_bounds, lemma_mask_rounds_down};
use crate::commands::CommandEncoder;
use crate::megabuffer::{
    give_back, is_first_fit, is_gap, lemma_gap_is_unique, lemma_take_then_give_back, no_fit,
    take_low, AllocatedMegabufferRegion, Megabuffer, MegabufferError,
};
use crate::texture::Texture;
use crate::viewport::{
    spec_present_outcome, present_outcome, PresentImage, PresentResult, PresentStatus,
    ViewportError,
};

verus! {

/// The bytes a frame slot keeps for vertices.
pub const FRAME_VERTEX_BUFFER_SIZE: u64 = 1_048_576;

/// The bytes a frame slot keeps for indices.
pub const FRAME_INDEX_BUFFER_SIZE: u64 = 1_048_576;

/// The bytes a frame slot keeps for the uniforms of the frame.
pub const FRAME_PER_FRAME_BUFFER_SIZE: u64 = 1_048_576;

/// The bytes a frame slot keeps for the uniforms of the materials.
pub const FRAME_PER_MATERIAL_BUFFER_SIZE: u64 = 1_048_576;

/// The bytes a frame slot keeps for the uniforms of the objects.
pub const FRAME_PER_OBJECT_BUFFER_SIZE: u64 = 1_048_576;

/// How long a frame waits for its fence and for the next image, in
/// nanoseconds.
pub const FRAME_TIMEOUT_NANOS: u64 = 1_000_000_000;

/// `region` is what `before` hands out for `size` bytes, and `after` is what
/// is left of `before`.
pub open spec fn allocated_from(
    before: &Megabuffer,
    after: &Megabuffer,
    region: &AllocatedMegabufferRegion,
    size: u64,
) -> bool {
    let need = aligned_size(size as int, before.spec_alignment() as int);
    &&& region.spec_size() == need
    &&& region.wf()
    &&& after.holds(region)
    &&& exists|i: int|
        {
            &&& is_first_fit(before.spec_free_regions(), need, i)
            &&& region.spec_offset() == before.spec_free_regions()[i].offset
            &&& after.spec_free_regions() == take_low(before.spec_free_regions(), i, need)
        }
}

/// `megabuffer` has a free range for `size` bytes.
pub open spec fn has_room(megabuffer: &Megabuffer, size: u64) -> bool {
    !no_fit(
        megabuffer.spec_free_regions(),
        aligned_size(size as int, megabuffer.spec_alignment() as int),
    )
}

/// `after` is `before` with the same free list.
pub open spec fn untouched(before: &Megabuffer, after: &Megabuffer) -> bool {
    after.spec_free_regions() == before.spec_free_regions()
}

/// The five regions of a frame slot.
#[derive(Debug)]
pub struct FrameRegions {
    pub vertex_region: AllocatedMegabufferRegion,
    pub index_region: AllocatedMegabufferRegion,
    pub per_frame_region: AllocatedMegabufferRegion,
    pub per_material_region: AllocatedMegabufferRegion,
    pub per_object_region: AllocatedMegabufferRegion,
}

/// Gives back a region that was just handed out, which leaves the free list
/// as it was before.
fn give_up(
    megabuffer: &mut Megabuffer,
    region: AllocatedMegabufferRegion,
    Ghost(before): Ghost<Megabuffer>,
    Ghost(size): Ghost<u64>,
)
    requires
        before.wf(),
        old(megabuffer).wf(),
        old(megabuffer).same_buffer(&before),
        size > 0,
        allocated_from(&before, old(megabuffer), &region, size),
    ensures
        final(megabuffer).wf(),
        final(megabuffer).same_buffer(&before),
        final(megabuffer).spec_pending() == old(megabuffer).spec_pending(),
        untouched(&before, final(megabuffer)),
{
    let mut region = region;
    let ghost need = aligned_size(size as int, before.spec_alignment() as int);
    let ghost taken = megabuffer.spec_free_regions();
    let ghost offset = region.spec_offset();
    proof {
        lemma_mask_rounds_down(0, before.spec_alignment());
        lemma_aligned_size_bounds(size as int, before.spec_alignment() as int);
    }
    let _ = megabuffer.deallocate_region(&mut region);
    proof {
        let free = before.spec_free_regions();
        let i = choose|i: int|
            {
                &&& is_first_fit(free, need, i)
                &&& offset == free[i].offset
                &&& taken == take_low(free, i, need)
            };
        lemma_take_then_give_back(free, i, need as u64, before.spec_capacity() as int);
        let p = choose|p: int|
            {
                &&& is_gap(taken, p, offset as int, need)
                &&& megabuffer.spec_free_regions() == give_back(
                    taken,
                    p,
                    offset,
                    need as u64,
                )
            };
        lemma_gap_is_unique(taken, p, i, offset as int, need);
    }
}

impl FrameRegions {
    /// Takes the five regions of a frame slot, each from its own
    /// megabuffer. Where one megabuffer has no room, none keeps a region:
    /// what was taken before goes back.
    pub fn allocate(
        vertex: &mut Megabuffer,
        index: &mut Megabuffer,
        per_frame: &mut Megabuffer,
        per_material: &mut Megabuffer,
        per_object: &mut Megabuffer,
    ) -> (r: Result<FrameRegions, MegabufferError>)
        requires
            old(vertex).wf(),
            old(index).wf(),
            old(per_frame).wf(),
            old(per_material).wf(),
            old(per_object).wf(),
        ensures
            final(vertex).wf() && final(vertex).same_buffer(old(vertex)),
            final(index).wf() && final(index).same_buffer(old(index)),
            final(per_frame).wf() && final(per_frame).same_buffer(old(per_frame)),
            final(per_material).wf() && final(per_material).same_buffer(old(per_material)),
            final(per_object).wf() && final(per_object).same_buffer(old(per_object)),
            final(vertex).spec_pending() == old(vertex).spec_pending(),
            final(index).spec_pending() == old(index).spec_pending(),
            final(per_frame).spec_pending() == old(per_frame).spec_pending(),
            final(per_material).spec_pending() == old(per_material).spec_pending(),
            final(per_object).spec_pending() == old(per_object).spec_pending(),
            match r {
                Ok(regions) => {
                    &&& allocated_from(
                        old(vertex),
                        final(vertex),
                        &regions.vertex_region,
                        FRAME_VERTEX_BUFFER_SIZE,
                    )
                    &&& allocated_from(
                        old(index),
                        final(index),
                        &regions.index_region,
                        FRAME_INDEX_BUFFER_SIZE,
                    )
                    &&& allocated_from(
                        old(per_frame),
                        final(per_frame),
                        &regions.per_frame_region,
                        FRAME_PER_FRAME_BUFFER_SIZE,
                    )
                    &&& allocated_from(
                        old(per_material),
                        final(per_material),
                        &regions.per_material_region,
                        FRAME_PER_MATERIAL_BUFFER_SIZE,
                    )
                    &&& allocated_from(
                        old(per_object),
                        final(per_object),
                        &regions.per_object_region,
                        FRAME_PER_OBJECT_BUFFER_SIZE,
                    )
                },
                Err(e) => {
                    &&& e == MegabufferError::OutOfSpace
                    &&& untouched(old(vertex), final(vertex))
                    &&& untouched(old(index), final(index))
                    &&& untouched(old(per_frame), final(per_frame))
                    &&& untouched(old(per_material), final(per_material))
                    &&& untouched(old(per_object), final(per_object))
                    &&& !(has_room(old(vertex), FRAME_VERTEX_BUFFER_SIZE) && has_room(
                        old(index),
                        FRAME_INDEX_BUFFER_SIZE,
                    ) && has_room(old(per_frame), FRAME_PER_FRAME_BUFFER_SIZE) && has_room(
                        old(per_material),
                        FRAME_PER_MATERIAL_BUFFER_SIZE,
                    ) && has_room(old(per_object), FRAME_PER_OBJECT_BUFFER_SIZE))
                },
            },
    {
        let ghost vertex0 = *vertex;
        let ghost index0 = *index;
        let ghost per_frame0 = *per_frame;
        let ghost per_material0 = *per_material;
        let vertex_region = match vertex.allocate_region(FRAME_VERTEX_BUFFER_SIZE) {
            Ok(region) => region,
            Err(e) => {
                return Err(e);
            },
        };
        let index_region = match index.allocate_region(FRAME_INDEX_BUFFER_SIZE) {
            Ok(region) => region,
            Err(e) => {
                give_up(vertex, vertex_region, Ghost(vertex0), Ghost(FRAME_VERTEX_BUFFER_SIZE));
                return Err(e);
            },
        };
        let per_frame_region = match per_frame.allocate_region(FRAME_PER_FRAME_BUFFER_SIZE) {
            Ok(region) => region,
            Err(e) => {
                give_up(vertex, vertex_region, Ghost(vertex0), Ghost(FRAME_VERTEX_BUFFER_SIZE));
                give_up(index, index_region, Ghost(index0), Ghost(FRAME_INDEX_BUFFER_SIZE));
                return Err(e);
            },
        };
        let per_material_region = match per_material.allocate_region(
            FRAME_PER_MATERIAL_BUFFER_SIZE,
        ) {
            Ok(region) => region,
            Err(e) => {
                give_up(vertex, vertex_region, Ghost(vertex0), Ghost(FRAME_VERTEX_BUFFER_SIZE));
                give_up(index, index_region, Ghost(index0), Ghost(FRAME_INDEX_BUFFER_SIZE));
                give_up(
                    per_frame,
                    per_frame_region,
                    Ghost(per_frame0),
                    Ghost(FRAME_PER_FRAME_BUFFER_SIZE),
                );
                return Err(e);
            },
        };
        let per_object_region = match per_object.allocate_region(FRAME_PER_OBJECT_BUFFER_SIZE) {
            Ok(region) => region,
            Err(e) => {
                give_up(vertex, vertex_region, Ghost(vertex0), Ghost(FRAME_VERTEX_BUFFER_SIZE));
                give_up(index, index_region, Ghost(index0), Ghost(FRAME_INDEX_BUFFER_SIZE));
                give_up(
                    per_frame,
                    per_frame_region,
                    Ghost(per_frame0),
                    Ghost(FRAME_PER_FRAME_BUFFER_SIZE),
                );
                give_up(
                    per_material,
                    per_material_region,
                    Ghost(per_material0),
                    Ghost(FRAME_PER_MATERIAL_BUFFER_SIZE),
                );
                return Err(e);
            },
        };
        Ok(
            FrameRegions {
                vertex_region,
                index_region,
                per_frame_region,
                per_material_region,
                per_object_region,
            },
        )
    }
}

/// Where a frame slot stands in its cycle.
#[derive(Clone, Copy, Debug, PartialEq, Eq, Structural)]
pub enum FrameState {
    /// Nothing of the slot is in use by the device.
    Idle,
    /// The next image of the swapchain is being acquired.
    Acquiring,
    /// The commands of the frame are being recorded.
    Recording,
    /// The commands were submitted.
    Submitted,
    /// The image is being presented.
    Presenting,
}

#[derive(Clone, Copy, Debug, PartialEq, Eq, Structural)]
pub enum FrameError {
    /// The fence of the slot was not signalled in time.
    FenceTimeout,
    /// No image was acquired.
    AcquireFailed,
    /// The event does not belong to the state the slot is in.
    OutOfOrder,
    /// Presenting failed.
    Present(ViewportError),
}

/// What goes from rendering to presenting: the image that was acquired.
#[derive(Clone, Copy, Debug, PartialEq, Eq, Structural)]
pub struct FramePresentPacket {
    pub image: PresentImage,
}

/// What happened while a frame was rendered.
#[derive(Clone, Copy, Debug, PartialEq, Eq, Structural)]
pub enum RenderEvent {
    /// The fence of the slot was signalled and reset.
    FenceSignaled,
    /// The fence of the slot was not signalled in time.
    FenceTimedOut,
    ImageAcquired(PresentImage),
    AcquireFailed,
    CommandsSubmitted,
}

/// What is to be done next while a frame is rendered.
#[derive(Clone, Copy, Debug, PartialEq, Eq, Structural)]
pub enum RenderAction {
    /// Acquire the next image; the semaphore is signalled when it is ready.
    AcquireImage { semaphore: u64, timeout: u64 },
    /// Record and submit the commands of the frame.
    Record(FramePresentPacket),
    /// Nothing until the frame is presented.
    AwaitPresent,
}

/// What happened while a frame was presented.
#[derive(Clone, Copy, Debug, PartialEq, Eq, Structural)]
pub enum PresentEvent {
    Requested(FramePresentPacket),
    Presented(PresentStatus),
}

/// What is to be done next while a frame is presented.
#[derive(Clone, Copy, Debug, PartialEq, Eq, Structural)]
pub enum PresentAction {
    /// Present the image once the semaphore was signalled.
    Present { image_index: u32, wait_semaphore: u64 },
    /// The frame is over.
    Finished(PresentResult),
}

/// The state after `event` and what follows from it, while rendering. A
/// slot leaves `Idle` only when its fence was signalled; a timeout or a
/// failure to acquire abandons the frame.
pub open spec fn spec_render(state: FrameState, event: RenderEvent, present_semaphore: u64) -> (
    FrameState,
    Result<RenderAction, FrameError>,
) {
    match (state, event) {
        (FrameState::Idle, RenderEvent::FenceSignaled) => (
            FrameState::Acquiring,
            Ok(RenderAction::AcquireImage { semaphore: present_semaphore, timeout: FRAME_TIMEOUT_NANOS }),
        ),
        (FrameState::Idle, RenderEvent::FenceTimedOut) => (
            FrameState::Idle,
            Err(FrameError::FenceTimeout),
        ),
        (FrameState::Acquiring, RenderEvent::ImageAcquired(image)) => (
            FrameState::Recording,
            Ok(RenderAction::Record(FramePresentPacket { image })),
        ),
        (FrameState::Acquiring, RenderEvent::AcquireFailed) => (
            FrameState::Idle,
            Err(FrameError::AcquireFailed),
        ),
        (FrameState::Recording, RenderEvent::CommandsSubmitted) => (
            FrameState::Submitted,
            Ok(RenderAction::AwaitPresent),
        ),
        _ => (state, Err(FrameError::OutOfOrder)),
    }
}

/// The state after `event` and what follows from it, while presenting.
pub open spec fn spec_present(state: FrameState, event: PresentEvent, render_semaphore: u64) -> (
    FrameState,
    Result<PresentAction, FrameError>,
) {
    match (state, event) {
        (FrameState::Submitted, PresentEvent::Requested(packet)) => (
            FrameState::Presenting,
            Ok(
                PresentAction::Present {
                    image_index: packet.image.index,
                    wait_semaphore: render_semaphore,
                },
            ),
        ),
        (FrameState::Presenting, PresentEvent::Presented(status)) => (
            FrameState::Idle,
            match spec_present_outcome(status) {
                Ok(result) => Ok(PresentAction::Finished(result)),
                Err(e) => Err(FrameError::Present(e)),
            },
        ),
        _ => (state, Err(FrameError::OutOfOrder)),
    }
}

/// A slot is taken into use only after its fence was signalled, its image
/// is presented only after its commands were submitted, and it is free
/// again only when presenting is over or the frame was abandoned.
pub proof fn lemma_frame_order(
    state: FrameState,
    render_event: RenderEvent,
    present_event: PresentEvent,
    present_semaphore: u64,
    render_semaphore: u64,
)
    ensures
        state == FrameState::Idle && spec_render(state, render_event, present_semaphore).0
            != FrameState::Idle ==> render_event == RenderEvent::FenceSignaled,
        spec_render(state, render_event, present_semaphore).0 == FrameState::Submitted && state
            != FrameState::Submitted ==> state == FrameState::Recording,
        spec_present(state, present_event, render_semaphore).0 == FrameState::Presenting && state
            != FrameState::Presenting ==> state == FrameState::Submitted,
        spec_present(state, present_event, render_semaphore).1 is Ok ==> state
            == FrameState::Submitted || state == FrameState::Presenting,
        spec_render(state, render_event, present_semaphore).1 is Err ==> spec_render(
            state,
            render_event,
            present_semaphore,
        ).0 == state || spec_render(state, render_event, present_semaphore).0 == FrameState::Idle,
{
}

/// One frame slot: the two draw targets, the five buffer regions, the three
/// synchronisation objects and the command encoder that it keeps from frame
/// to frame, and where it stands in its cycle.
#[derive(Debug)]
pub struct RenderFrame {
    pub draw_color_tex: Texture,
    pub draw_depth_tex: Texture,
    pub regions: FrameRegions,
    /// Signalled when the next image of the swapchain was acquired.
    pub present_semaphore: u64,
    /// Signalled when the commands of the frame are done.
    pub render_semaphore: u64,
    /// Signalled when the commands of the frame are done, for the host.
    pub render_fence: u64,
    pub cmd_encoder: CommandEncoder,
    pub state: FrameState,
}

impl RenderFrame {
    /// `other` holds the same resources; at most its state differs.
    pub open spec fn same_resources(&self, other: &RenderFrame) -> bool {
        &&& self.draw_color_tex == other.draw_color_tex
        &&& self.draw_depth_tex == other.draw_depth_tex
        &&& self.regions == other.regions
        &&& self.present_semaphore == other.present_semaphore
        &&& self.render_semaphore == other.render_semaphore
        &&& self.render_fence == other.render_fence
        &&& self.cmd_encoder == other.cmd_encoder
    }

    /// A slot that is idle.
    pub fn new(
        draw_color_tex: Texture,
        draw_depth_tex: Texture,
        regions: FrameRegions,
        present_semaphore: u64,
        render_semaphore: u64,
        render_fence: u64,
        cmd_encoder: CommandEncoder,
    ) -> (r: RenderFrame)
        ensures
            r.draw_color_tex == draw_color_tex,
            r.draw_depth_tex == draw_depth_tex,
            r.regions == regions,
            r.present_semaphore == present_semaphore,
            r.render_semaphore == render_semaphore,
            r.render_fence == render_fence,
            r.cmd_encoder == cmd_encoder,
            r.state == FrameState::Idle,
    {
        RenderFrame {
            draw_color_tex,
            draw_depth_tex,
            regions,
            present_semaphore,
            render_semaphore,
            render_fence,
            cmd_encoder,
            state: FrameState::Idle,
        }
    }

    /// Takes note of what happened while the frame was rendered and says
    /// what is to be done next.
    pub fn render(&mut self, event: RenderEvent) -> (r: Result<RenderAction, FrameError>)
        ensures
            final(self).same_resources(old(self)),
            (final(self).state, r) == spec_render(
                old(self).state,
                event,
                old(self).present_semaphore,
            ),
    {
        match (self.state, event) {
            (FrameState::Idle, RenderEvent::FenceSignaled) => {
                self.state = FrameState::Acquiring;
                Ok(
                    RenderAction::AcquireImage {
                        semaphore: self.present_semaphore,
                        timeout: FRAME_TIMEOUT_NANOS,
                    },
                )
            },
            (FrameState::Idle, RenderEvent::FenceTimedOut) => Err(FrameError::FenceTimeout),
            (FrameState::Acquiring, RenderEvent::ImageAcquired(image)) => {
                self.state = FrameState::Recording;
                Ok(RenderAction::Record(FramePresentPacket { image }))
            },
            (FrameState::Acquiring, RenderEvent::AcquireFailed) => {
                self.state = FrameState::Idle;
                Err(FrameError::AcquireFailed)
            },
            (FrameState::Recording, RenderEvent::CommandsSubmitted) => {
                self.state = FrameState::Submitted;
                Ok(RenderAction::AwaitPresent)
            },
            _ => Err(FrameError::OutOfOrder),
        }
    }

    /// Takes note of what happened while the frame was presented and says
    /// what is to be done next.
    pub fn present(&mut self, event: PresentEvent) -> (r: Result<PresentAction, FrameError>)
        ensures
            final(self).same_resources(old(self)),
            (final(self).state, r) == spec_present(
                old(self).state,
                event,
                old(self).render_semaphore,
            ),
    {
        match (self.state, event) {
            (FrameState::Submitted, PresentEvent::Requested(packet)) => {
                self.state = FrameState::Presenting;
                Ok(
                    PresentAction::Present {
                        image_index: packet.image.index,
                        wait_semaphore: self.render_semaphore,
                    },
                )
            },
            (FrameState::Presenting, PresentEvent::Presented(status)) => {
                self.state = FrameState::Idle;
                match present_outcome(status) {
                    Ok(result) => Ok(PresentAction::Finished(result)),
                    Err(e) => Err(FrameError::Present(e)),
                }
            },
            _ => Err(FrameError::OutOfOrder),
        }
    }
}

} // verus!
