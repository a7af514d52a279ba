//! The frame slots taken in turn, and the request to resize.

use vstd::prelude::*;
use crate::texture::Extent2D;
use crate::viewport::PresentResult;

verus! {

/// The number of frame slots.
pub const FRAMES_IN_FLIGHT: usize = 1;

/// What a frame is told of itself.
#[derive(Clone, Copy, Debug, PartialEq, Eq, Structural)]
pub struct FrameRenderMetadata {
    pub frame_index: usize,
    pub target_size: Extent2D,
    pub resize_requested: bool,
}

/// Which frame slot is in turn, and whether a resize was asked for.
#[derive(Debug)]
pub struct Renderer {
    frame_count: usize,
    current_frame_index: usize,
    resize_requested: bool,
}

impl Renderer {
    pub closed spec fn spec_frame_count(&self) -> usize {
        self.frame_count
    }

    pub closed spec fn spec_current_frame_index(&self) -> usize {
        self.current_frame_index
    }

    pub closed spec fn spec_resize_requested(&self) -> bool {
        self.resize_requested
    }

    /// There is a slot, and the slot in turn is one of them.
    pub open spec fn wf(&self) -> bool {
        self.spec_current_frame_index() < self.spec_frame_count()
    }

    /// A renderer with `frame_count` slots, the first in turn.
    pub fn new(frame_count: usize) -> (r: Renderer)
        requires
            frame_count > 0,
        ensures
            r.wf(),
            r.spec_frame_count() == frame_count,
            r.spec_current_frame_index() == 0,
            !r.spec_resize_requested(),
    {
        Renderer { frame_count, current_frame_index: 0, resize_requested: false }
    }

    pub fn frame_count(&self) -> (r: usize)
        ensures
            r == self.spec_frame_count(),
    {
        self.frame_count
    }

    pub fn current_frame_index(&self) -> (r: usize)
        ensures
            r == self.spec_current_frame_index(),
    {
        self.current_frame_index
    }

    pub fn resize_requested(&self) -> (r: bool)
        ensures
            r == self.spec_resize_requested(),
    {
        self.resize_requested
    }

    /// What the frame in turn is told of itself.
    pub fn update_scene(&self, target_size: Extent2D) -> (r: FrameRenderMetadata)
        ensures
            r == (FrameRenderMetadata {
                frame_index: self.spec_current_frame_index(),
                target_size,
                resize_requested: self.spec_resize_requested(),
            }),
    {
        FrameRenderMetadata {
            frame_index: self.current_frame_index,
            target_size,
            resize_requested: self.resize_requested,
        }
    }

    /// Moves on to the next slot, the first one after the last, and says
    /// what the frame in that slot is told of itself.
    pub fn render_frame(&mut self, target_size: Extent2D) -> (r: FrameRenderMetadata)
        requires
            old(self).wf(),
        ensures
            final(self).wf(),
            final(self).spec_frame_count() == old(self).spec_frame_count(),
            final(self).spec_resize_requested() == old(self).spec_resize_requested(),
            final(self).spec_current_frame_index() == (old(self).spec_current_frame_index() + 1)
                % (old(self).spec_frame_count() as int),
            r == (FrameRenderMetadata {
                frame_index: final(self).spec_current_frame_index(),
                target_size,
                resize_requested: old(self).spec_resize_requested(),
            }),
    {
        self.current_frame_index = (self.current_frame_index + 1) % self.frame_count;
        self.update_scene(target_size)
    }

    /// Takes note of how the frame was presented: a swapchain that asked to
    /// be rebuilt makes a resize requested.
    pub fn frame_presented(&mut self, result: PresentResult)
        ensures
            final(self).spec_frame_count() == old(self).spec_frame_count(),
            final(self).spec_current_frame_index() == old(self).spec_current_frame_index(),
            final(self).spec_resize_requested() == (old(self).spec_resize_requested() || result
                == PresentResult::ResizeRequested),
    {
        match result {
            PresentResult::ResizeRequested => {
                self.request_resize();
            },
            PresentResult::Success => {},
        }
    }

    /// Asks for a resize before the next frame.
    pub fn request_resize(&mut self)
        ensures
            final(self).spec_frame_count() == old(self).spec_frame_count(),
            final(self).spec_current_frame_index() == old(self).spec_current_frame_index(),
            final(self).spec_resize_requested(),
    {
        self.resize_requested = true;
    }

    /// Takes note that the swapchain was rebuilt.
    pub fn resize_done(&mut self)
        ensures
            final(self).spec_frame_count() == old(self).spec_frame_count(),
            final(self).spec_current_frame_index() == old(self).spec_current_frame_index(),
            !final(self).spec_resize_requested(),
    {
        self.resize_requested = false;
    }
}

} // verus!
