//! The per-frame clock: a frame-relative cycle position plus a monotonically
//! increasing frame counter.

use vstd::prelude::*;

verus! {

/// Upper bound on the T-states a single CPU step (one instruction, or one
/// interrupt entry sequence, together with its contention delays) may
/// consume.  Every supported frame length is far above this bound, so the
/// carry left over when a step crosses a frame boundary always fits inside
/// the next frame.
pub const MAX_STEP_TSTATES: u32 = 1024;

/// A frame-relative timestamp counter.
///
/// The position stays within `0 ..= frame_len` while a frame is in
/// progress; reaching `frame_len` exactly signals that the frame is over.
/// No operation moves the position backward within a frame.
#[derive(Clone, Debug)]
pub struct FrameClock {
    frames: u64,
    pos: u32,
    frame_len: u32,
}

impl FrameClock {
    /// The number of frames completed so far.
    pub closed spec fn frame(&self) -> u64 {
        self.frames
    }

    /// The frame-relative cycle position.
    pub closed spec fn position(&self) -> u32 {
        self.pos
    }

    /// The length of one frame in T-states.
    pub closed spec fn len(&self) -> u32 {
        self.frame_len
    }

    pub open spec fn wf(&self) -> bool {
        &&& self.len() > MAX_STEP_TSTATES
        &&& self.position() <= self.len()
    }

    pub open spec fn spec_is_frame_over(&self) -> bool {
        self.position() == self.len()
    }

    pub fn new(frame_len: u32) -> (clock: FrameClock)
        requires
            frame_len > MAX_STEP_TSTATES,
        ensures
            clock.wf(),
            clock.frame() == 0,
            clock.position() == 0,
            clock.len() == frame_len,
    {
        FrameClock { frames: 0, pos: 0, frame_len }
    }

    pub fn current_frame(&self) -> (frame: u64)
        ensures
            frame == self.frame(),
    {
        self.frames
    }

    pub fn current_tstate(&self) -> (pos: u32)
        ensures
            pos == self.position(),
    {
        self.pos
    }

    pub fn frame_len(&self) -> (len: u32)
        ensures
            len == self.len(),
    {
        self.frame_len
    }

    pub fn is_frame_over(&self) -> (over: bool)
        ensures
            over == self.spec_is_frame_over(),
    {
        self.pos == self.frame_len
    }

    /// Moves the position forward by `cycles`, stopping at the end of the
    /// frame.  The returned overshoot is the part of `cycles` that belongs
    /// to the next frame; it is strictly smaller than `cycles` whenever any
    /// cycles were consumed.
    pub fn advance(&mut self, cycles: u32) -> (overshoot: u32)
        requires
            old(self).wf(),
            !old(self).spec_is_frame_over(),
            cycles <= MAX_STEP_TSTATES,
        ensures
            final(self).wf(),
            final(self).frame() == old(self).frame(),
            final(self).len() == old(self).len(),
            final(self).position() + overshoot == old(self).position() + cycles,
            final(self).position() >= old(self).position(),
            overshoot == 0 || final(self).spec_is_frame_over(),
            cycles > 0 ==> overshoot < cycles,
            overshoot < MAX_STEP_TSTATES,
    {
        let room = self.frame_len - self.pos;
        if cycles <= room {
            self.pos = self.pos + cycles;
            0
        } else {
            self.pos = self.frame_len;
            cycles - room
        }
    }

    /// The frame-boundary transition: the position wraps into the new frame
    /// at zero and the frame counter grows by exactly one.
    pub fn advance_to_next_frame(&mut self)
        requires
            old(self).wf(),
            old(self).spec_is_frame_over(),
            old(self).frame() < u64::MAX,
        ensures
            final(self).wf(),
            final(self).position() == 0,
            final(self).frame() == old(self).frame() + 1,
            final(self).len() == old(self).len(),
    {
        self.pos = 0;
        self.frames = self.frames + 1;
    }

    /// Restores the frame counter of a freshly constructed clock from a
    /// persisted state.  The counter otherwise only ever grows, so this
    /// applies to a clock that has not completed any frame.
    pub fn restore_frame_count(&mut self, frames: u64)
        requires
            old(self).wf(),
            old(self).frame() == 0,
        ensures
            final(self).wf(),
            final(self).frame() == frames,
            final(self).position() == old(self).position(),
            final(self).len() == old(self).len(),
    {
        self.frames = frames;
    }

    /// Sets the position directly.  The position never moves backward
    /// within a frame, so the new position must not precede the current
    /// one.
    pub fn set_position(&mut self, pos: u32)
        requires
            old(self).wf(),
            old(self).position() <= pos <= old(self).len(),
        ensures
            final(self).wf(),
            final(self).position() == pos,
            final(self).frame() == old(self).frame(),
            final(self).len() == old(self).len(),
    {
        self.pos = pos;
    }
}

} // verus!
