//! The render side of the platform: the single frame buffer, the panel
//! region a flush covers, and what the loop does once a frame is done.

use vstd::prelude::*;

verus! {

/// Panel width in pixels.
pub const DISPLAY_WIDTH: usize = 240;

/// Panel height in pixels.
pub const DISPLAY_HEIGHT: usize = 240;

/// Number of pixels in one frame.
pub const FRAME_PIXELS: usize = DISPLAY_WIDTH * DISPLAY_HEIGHT;

/// A rectangle of the panel, end coordinates exclusive, as the panel's draw
/// call takes it.
#[derive(Clone, Copy, Debug, PartialEq, Eq, Structural)]
pub struct Region {
    pub x_start: i32,
    pub y_start: i32,
    pub x_end: i32,
    pub y_end: i32,
}

impl Region {
    /// Number of pixels the region covers.
    pub open spec fn spec_area(&self) -> int {
        (self.x_end - self.x_start) * (self.y_end - self.y_start)
    }
}

/// The whole panel: every flush writes it entirely.
pub fn full_frame() -> (r: Region)
    ensures
        r == (Region {
            x_start: 0,
            y_start: 0,
            x_end: DISPLAY_WIDTH as i32,
            y_end: DISPLAY_HEIGHT as i32,
        }),
        r.spec_area() == FRAME_PIXELS,
{
    Region { x_start: 0, y_start: 0, x_end: DISPLAY_WIDTH as i32, y_end: DISPLAY_HEIGHT as i32 }
}

/// The one frame buffer of the render loop: exactly one frame of pixels,
/// allocated once and overwritten before every flush.
pub struct FrameBuffer<P> {
    pixels: Vec<P>,
}

impl<P> View for FrameBuffer<P> {
    type V = Seq<P>;

    closed spec fn view(&self) -> Seq<P> {
        self.pixels@
    }
}

impl<P: Copy> FrameBuffer<P> {
    /// True when the buffer holds exactly one frame.
    pub open spec fn wf(&self) -> bool {
        self@.len() == FRAME_PIXELS
    }

    /// A frame filled with `fill`.
    pub fn new(fill: P) -> (r: FrameBuffer<P>)
        ensures
            r.wf(),
            forall|i: int| 0 <= i < FRAME_PIXELS ==> r@[i] == fill,
    {
        let mut pixels: Vec<P> = Vec::with_capacity(FRAME_PIXELS);
        let mut i: usize = 0;
        while i < FRAME_PIXELS
            invariant
                i <= FRAME_PIXELS,
                pixels@.len() == i,
                forall|j: int| 0 <= j < i ==> pixels@[j] == fill,
            decreases FRAME_PIXELS - i,
        {
            pixels.push(fill);
            i = i + 1;
        }
        FrameBuffer { pixels }
    }

    /// Number of pixels held.
    pub fn len(&self) -> (r: usize)
        ensures
            r == self@.len(),
    {
        self.pixels.len()
    }

    /// The pixels, row by row, for the panel's draw call.
    pub fn pixels(&self) -> (r: &[P])
        ensures
            r@ == self@,
    {
        self.pixels.as_slice()
    }

    /// The pixels, for a renderer to draw into in place.
    pub fn pixels_mut(&mut self) -> (r: &mut [P])
        ensures
            r@ == old(self)@,
            final(r)@ == final(self)@,
    {
        self.pixels.as_mut_slice()
    }

    /// Copies a whole rendered scene into the buffer, replacing every pixel.
    pub fn overwrite(&mut self, scene: &[P])
        requires
            old(self).wf(),
            scene@.len() == FRAME_PIXELS,
        ensures
            final(self).wf(),
            final(self)@ == overwritten(old(self)@, scene@),
            final(self)@ == scene@,
    {
        let mut i: usize = 0;
        while i < FRAME_PIXELS
            invariant
                i <= FRAME_PIXELS,
                scene@.len() == FRAME_PIXELS,
                self.pixels@.len() == FRAME_PIXELS,
                forall|j: int| 0 <= j < i ==> self.pixels@[j] == scene@[j],
            decreases FRAME_PIXELS - i,
        {
            self.pixels.set(i, scene[i]);
            i = i + 1;
        }
        assert(self.pixels@ =~= scene@);
        assert(overwritten(old(self)@, scene@) =~= scene@);
    }

    /// The region a flush of this buffer writes: the whole panel, whose area
    /// is the buffer's length.
    pub fn flush_region(&self) -> (r: Region)
        requires
            self.wf(),
        ensures
            r == (Region {
                x_start: 0,
                y_start: 0,
                x_end: DISPLAY_WIDTH as i32,
                y_end: DISPLAY_HEIGHT as i32,
            }),
            r.spec_area() == self@.len(),
    {
        full_frame()
    }
}

/// Rendering a scene leaves nothing of the frame before it: after two
/// scenes in a row the buffer holds exactly the second.
pub proof fn lemma_second_scene_wins<P>(before: Seq<P>, first: Seq<P>, second: Seq<P>)
    requires
        before.len() == FRAME_PIXELS,
        first.len() == FRAME_PIXELS,
        second.len() == FRAME_PIXELS,
    ensures
        overwritten(overwritten(before, first), second) == second,
{
    assert(overwritten(overwritten(before, first), second) =~= second);
}

/// The content of a frame after a whole scene is copied over it.
pub open spec fn overwritten<P>(frame: Seq<P>, scene: Seq<P>) -> Seq<P> {
    Seq::new(frame.len(), |i: int| scene[i])
}

/// What the loop does after a frame: idle until woken when nothing
/// animates, yield to the other tasks when something does.
#[derive(Clone, Copy, Debug, PartialEq, Eq, Structural)]
pub enum IdleAction {
    Sleep,
    Yield,
}

pub fn idle_action(has_active_animations: bool) -> (r: IdleAction)
    ensures
        r == (if has_active_animations { IdleAction::Yield } else { IdleAction::Sleep }),
{
    if has_active_animations {
        IdleAction::Yield
    } else {
        IdleAction::Sleep
    }
}

} // verus!
