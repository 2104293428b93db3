//! Sprite animations: a list of frames, each shown for its own time.

use vstd::prelude::*;
use vstd::arithmetic::div_mod::{lemma_mod_self_0, lemma_small_mod};
use crate::stopwatch::plus;

verus! {

/// A region of a sprite atlas, in thousandths of a texel.
#[derive(Clone, Copy, Debug, PartialEq, Eq, Structural)]
pub struct Rect {
    pub x: i32,
    pub y: i32,
    pub w: i32,
    pub h: i32,
}

impl Rect {
    pub fn new(x: i32, y: i32, w: i32, h: i32) -> (r: Rect)
        ensures
            r == (Rect { x, y, w, h }),
    {
        Rect { x, y, w, h }
    }
}

/// A strip of frames with the time that each of them is shown, in
/// milliseconds, and the place that the animation has reached.
#[derive(Clone, Debug)]
pub struct Animation {
    pub frames: Vec<Rect>,
    pub frame_length: Vec<u64>,
    pub anim_duration: u64,
    pub current_frame_length: u64,
    pub current_frame: usize,
    pub repeating: bool,
}

/// Where an animation stands: the frame shown, the time that this frame is
/// shown for, and the time that it has been shown already.
pub struct Cursor {
    pub frame: nat,
    pub length: u64,
    pub shown: u64,
}

/// Walks on from frame to frame, wrapping round at the end of the strip,
/// until the time shown is shorter than the frame's own time.
pub open spec fn advance(lengths: Seq<u64>, at: Cursor) -> Cursor
    decreases at.shown,
{
    if at.length > 0 && at.shown >= at.length && lengths.len() > 0 {
        let next = (at.frame + 1) % lengths.len();
        advance(
            lengths,
            Cursor { frame: next, length: lengths[next as int], shown: (at.shown - at.length) as u64 },
        )
    } else {
        at
    }
}

impl Animation {
    /// There is at least one frame, every frame has a positive time, and
    /// the frame shown is one of the strip.
    pub open spec fn wf(&self) -> bool {
        &&& self.frames@.len() > 0
        &&& self.frame_length@.len() == self.frames@.len()
        &&& forall|i: int| 0 <= i < self.frame_length@.len() ==> self.frame_length@[i] > 0
        &&& self.current_frame < self.frames@.len()
        &&& self.current_frame_length > 0
    }

    /// Tells whether the animation is sound.
    pub fn is_wf(&self) -> (b: bool)
        ensures
            b == self.wf(),
    {
        let n: usize = self.frames.len();
        if n == 0 || self.frame_length.len() != n || self.current_frame >= n
            || self.current_frame_length == 0 {
            return false;
        }
        let mut i: usize = 0;
        while i < n
            invariant
                i <= n,
                n == self.frame_length@.len(),
                forall|k: int| 0 <= k < i ==> self.frame_length@[k] > 0,
            decreases n - i,
        {
            if self.frame_length[i] == 0 {
                return false;
            }
            i += 1;
        }
        true
    }

    /// An animation that shows each of `frames` for `frame_millis`
    /// milliseconds, and begins at the first.
    pub fn strip(frames: Vec<Rect>, frame_millis: u64, repeating: bool) -> (a: Animation)
        requires
            frames@.len() > 0,
            frame_millis > 0,
        ensures
            a.wf(),
            a.frames@ == frames@,
            a.frame_length@ == Seq::new(frames@.len(), |i: int| frame_millis),
            a.anim_duration == 0,
            a.current_frame == 0,
            a.current_frame_length == frame_millis,
            a.repeating == repeating,
    {
        let n: usize = frames.len();
        let mut lengths: Vec<u64> = Vec::new();
        let mut i: usize = 0;
        while i < n
            invariant
                i <= n,
                lengths@ == Seq::new(i as nat, |k: int| frame_millis),
            decreases n - i,
        {
            lengths.push(frame_millis);
            i += 1;
            assert(lengths@ =~= Seq::new(i as nat, |k: int| frame_millis));
        }
        Animation {
            frames,
            frame_length: lengths,
            anim_duration: 0,
            current_frame_length: frame_millis,
            current_frame: 0,
            repeating,
        }
    }

    /// Where the animation stands.
    pub open spec fn cursor(&self) -> Cursor {
        Cursor {
            frame: self.current_frame as nat,
            length: self.current_frame_length,
            shown: self.anim_duration,
        }
    }

    /// Frames are left after the one shown.
    pub open spec fn frames_remaining(&self) -> bool {
        self.current_frame < self.frames@.len() - 1
    }

    /// Where the animation stands once `duration` more milliseconds have
    /// gone by. An animation on its last frame that does not repeat stays
    /// there, and its time is held at that frame's own.
    pub open spec fn cursor_after(&self, duration: u64) -> Cursor {
        let shown = plus(self.anim_duration, duration);
        let at = Cursor { frame: self.current_frame as nat, length: self.current_frame_length, shown };
        if self.frames_remaining() || self.repeating {
            advance(self.frame_length@, at)
        } else if shown > self.current_frame_length {
            Cursor { frame: at.frame, length: at.length, shown: at.length }
        } else {
            at
        }
    }

    /// The animation once `duration` more milliseconds have gone by.
    pub open spec fn advanced(self, duration: u64) -> Animation {
        let at = self.cursor_after(duration);
        Animation {
            anim_duration: at.shown,
            current_frame_length: at.length,
            current_frame: at.frame as usize,
            ..self
        }
    }

    /// The region of the frame that is shown.
    pub open spec fn source(&self) -> Rect {
        self.frames@[self.current_frame as int]
    }

    /// Lets `duration` milliseconds go by and returns the region of the
    /// frame that is shown then.
    pub fn get_animation_source(&mut self, duration: u64) -> (source: Option<Rect>)
        requires
            old(self).wf(),
        ensures
            final(self).wf(),
            *final(self) == old(self).advanced(duration),
            source == Some(final(self).source()),
    {
        let mut shown: u64 = if self.anim_duration > u64::MAX - duration {
            u64::MAX
        } else {
            self.anim_duration + duration
        };
        let mut frame: usize = self.current_frame;
        let mut length: u64 = self.current_frame_length;
        let count: usize = self.frames.len();
        let frames_remaining = frame < count - 1;
        if frames_remaining || self.repeating {
            while shown >= length
                invariant
                    self.wf(),
                    count == self.frames@.len(),
                    frame < count,
                    length > 0,
                    advance(self.frame_length@, Cursor { frame: frame as nat, length, shown })
                        == old(self).cursor_after(duration),
                decreases shown,
            {
                proof {
                    if frame + 1 == count {
                        lemma_mod_self_0(count as int);
                    } else {
                        lemma_small_mod((frame + 1) as nat, count as nat);
                    }
                }
                frame = if frame + 1 == count {
                    0
                } else {
                    frame + 1
                };
                shown = shown - length;
                length = self.frame_length[frame];
            }
        } else if shown > length {
            shown = length;
        }
        self.anim_duration = shown;
        self.current_frame = frame;
        self.current_frame_length = length;
        Some(self.frames[frame])
    }

    /// An animation that does not repeat counts as finished on its last, its
    /// first and its middle frame; one that repeats never does.
    pub open spec fn finished(&self) -> bool {
        !self.repeating && (self.current_frame == self.frames@.len() - 1 || self.current_frame == 0
            || self.current_frame == (self.frames@.len() - 1) / 2)
    }

    pub fn is_animation_finished(&self) -> (done: bool)
        requires
            self.wf(),
        ensures
            done == self.finished(),
    {
        if !self.repeating {
            return self.current_frame == self.frames.len() - 1 || self.current_frame == 0
                || self.current_frame == (self.frames.len() - 1) / 2;
        }
        false
    }
}

} // verus!
