//! The per-frame state: the window's size and the uniform block built from it.
//!
//! The block is never changed in place. When the window's size differs from
//! the one the block was built for, a new block replaces it before the draw
//! call is issued, so that every draw call sees the size the window had when
//! its frame began.

use vstd::prelude::*;
use crate::color::Color;
use crate::geometry::{PrimitiveMode, QUAD_VERTICES};
use crate::stages::App;

verus! {

/// One draw call: what is bound and how the geometry is assembled.
#[derive(Clone, Copy, Debug)]
pub struct DrawCall {
    /// The uniform block that the stages read during this call.
    pub uniforms: App,
    /// The number of vertices taken from the geometry buffer.
    pub vertex_count: usize,
    /// How the vertices are assembled.
    pub mode: PrimitiveMode,
    /// The colour to which the framebuffer is cleared first.
    pub clear_color: Color,
}

/// What the orchestrator keeps from frame to frame.
#[derive(Clone, Copy, Debug)]
pub struct FrameState {
    /// The latest width of the window.
    pub window_width: u32,
    /// The latest height of the window.
    pub window_height: u32,
    /// The width for which the current block was built.
    pub uniform_width: u32,
    /// The height for which the current block was built.
    pub uniform_height: u32,
    /// The current block.
    pub uniforms: App,
}

/// Two windows have the same block exactly if they have the same size: no
/// size is lost in the block.
pub proof fn lemma_block_keeps_the_size(w1: u32, h1: u32, w2: u32, h2: u32)
    ensures
        App::spec_for_window(w1, h1) == App::spec_for_window(w2, h2) <==> (w1 == w2 && h1 == h2),
{
    if App::spec_for_window(w1, h1) == App::spec_for_window(w2, h2) {
        assert(App::spec_for_window(w1, h1).window_size.x.num == w1);
        assert(App::spec_for_window(w2, h2).window_size.x.num == w2);
        assert(App::spec_for_window(w1, h1).window_size.y.num == h1);
        assert(App::spec_for_window(w2, h2).window_size.y.num == h2);
    }
}

impl DrawCall {
    /// The draw call of a frame in a window of `width` by `height` pixels: the
    /// block for that size, the six vertices of the quad as triangles, and a
    /// white background.
    pub open spec fn spec_for_window(width: u32, height: u32) -> DrawCall {
        DrawCall {
            uniforms: App::spec_for_window(width, height),
            vertex_count: QUAD_VERTICES,
            mode: PrimitiveMode::Triangles,
            clear_color: Color::spec_background(),
        }
    }
}

impl FrameState {
    /// The current block is the one for the size it is recorded with.
    pub open spec fn wf(self) -> bool {
        self.uniforms == App::spec_for_window(self.uniform_width, self.uniform_height)
    }

    /// The state for a window of `width` by `height` pixels, its block built.
    pub open spec fn spec_new(width: u32, height: u32) -> FrameState {
        FrameState {
            window_width: width,
            window_height: height,
            uniform_width: width,
            uniform_height: height,
            uniforms: App::spec_for_window(width, height),
        }
    }

    /// The state after the window has been given a new size: the block is
    /// left as it is until the next frame.
    pub open spec fn spec_resized(self, width: u32, height: u32) -> FrameState {
        FrameState { window_width: width, window_height: height, ..self }
    }

    /// The state after a frame has been drawn: the block is the one for the
    /// window's size.
    pub open spec fn spec_redrawn(self) -> FrameState {
        FrameState {
            uniform_width: self.window_width,
            uniform_height: self.window_height,
            uniforms: App::spec_for_window(self.window_width, self.window_height),
            ..self
        }
    }

    /// Whether the block was built for another size than the window has now.
    pub open spec fn stale(self) -> bool {
        self.uniform_width != self.window_width || self.uniform_height != self.window_height
    }

    /// The state for a window of `width` by `height` pixels, its block built.
    #[verifier::when_used_as_spec(spec_new)]
    pub fn new(width: u32, height: u32) -> (r: FrameState)
        ensures
            r == FrameState::spec_new(width, height),
            r.wf(),
    {
        FrameState {
            window_width: width,
            window_height: height,
            uniform_width: width,
            uniform_height: height,
            uniforms: App::for_window(width, height),
        }
    }

    /// Records a new size of the window.
    pub fn resized(&mut self, width: u32, height: u32)
        requires
            old(self).wf(),
        ensures
            *final(self) == old(self).spec_resized(width, height),
            final(self).wf(),
    {
        self.window_width = width;
        self.window_height = height;
    }

    /// Prepares one frame: replaces the block if the window's size has
    /// changed since it was built, and returns the draw call. The call's block
    /// is the one for the window's size at this moment.
    pub fn redraw(&mut self) -> (call: DrawCall)
        requires
            old(self).wf(),
        ensures
            *final(self) == old(self).spec_redrawn(),
            !old(self).stale() ==> *final(self) == *old(self),
            final(self).wf(),
            call == DrawCall::spec_for_window(old(self).window_width, old(self).window_height),
    {
        if self.uniform_width != self.window_width || self.uniform_height != self.window_height {
            let fresh = App::for_window(self.window_width, self.window_height);
            self.uniforms = fresh;
            self.uniform_width = self.window_width;
            self.uniform_height = self.window_height;
        }
        DrawCall {
            uniforms: self.uniforms,
            vertex_count: QUAD_VERTICES,
            mode: PrimitiveMode::Triangles,
            clear_color: Color::background(),
        }
    }
}

/// A window that is resized and then given its first size again is drawn with
/// the block of its first frame.
pub proof fn lemma_resize_round_trip(start: FrameState, width: u32, height: u32)
    requires
        start.wf(),
    ensures
        ({
            let first = start.spec_redrawn();
            let second = first.spec_resized(width, height).spec_redrawn();
            let third = second.spec_resized(start.window_width, start.window_height).spec_redrawn();
            &&& third.uniforms == first.uniforms
            &&& third == first
            &&& second.uniforms == App::spec_for_window(width, height)
        }),
{
}

} // verus!
