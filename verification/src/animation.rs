//! Which animation frame to show next.
use vstd::prelude::*;

verus! {

/// Cycles through the frames of a runner, one frame per tick.
#[derive(Debug)]
pub struct AnimationClock {
    current_frame: usize,
}

impl AnimationClock {
    #[verifier::type_invariant]
    spec fn below_max(self) -> bool {
        self.current_frame < usize::MAX
    }

    /// The index the clock will hand out next (before wrapping).
    pub closed spec fn position(self) -> nat {
        self.current_frame as nat
    }

    /// Returns the frame to show now and advances the clock; with no frames,
    /// returns 0 and rewinds.
    pub fn next_frame(&mut self, frame_count: usize) -> (frame: usize)
        ensures
            frame_count == 0 ==> frame == 0 && final(self).position() == 0,
            frame_count > 0 ==> frame == old(self).position() % (frame_count as nat)
                && final(self).position() == (old(self).position() + 1) % (frame_count as nat),
    {
        proof {
            use_type_invariant(&*self);
        }
        if frame_count == 0 {
            self.current_frame = 0;
            return 0;
        }
        let frame = self.current_frame % frame_count;
        self.current_frame = (self.current_frame + 1) % frame_count;
        frame
    }

    /// Rewinds the clock to the first frame.
    pub fn reset(&mut self)
        ensures
            final(self).position() == 0,
    {
        self.current_frame = 0;
    }
}

impl Clone for AnimationClock {
    fn clone(&self) -> (r: Self)
        ensures
            r.position() == self.position(),
    {
        proof {
            use_type_invariant(self);
        }
        AnimationClock { current_frame: self.current_frame }
    }
}

impl Default for AnimationClock {
    fn default() -> (r: Self)
        ensures
            r.position() == 0,
    {
        AnimationClock { current_frame: 0 }
    }
}

/// Whether the animation should move on to its next frame: only once the
/// time since the last frame, in nanoseconds, has reached the interval.
pub fn frame_is_due(elapsed_nanos: u128, interval_nanos: u128) -> (due: bool)
    ensures
        due == (elapsed_nanos >= interval_nanos),
{
    elapsed_nanos >= interval_nanos
}

/// The clock position after `ticks` calls of `next_frame(frame_count)` from
/// position `start`.
pub open spec fn position_after(start: nat, frame_count: nat, ticks: nat) -> nat
    decreases ticks,
{
    if ticks == 0 {
        start
    } else {
        (position_after(start, frame_count, (ticks - 1) as nat) + 1) % frame_count
    }
}

/// The frame handed out by the tick numbered `tick` (counting from 0), when
/// the clock starts at `start` and every tick uses `frame_count` frames.
pub open spec fn frame_at_tick(start: nat, frame_count: nat, tick: nat) -> nat {
    position_after(start, frame_count, tick) % frame_count
}

/// The clock position after `ticks` ticks is the start advanced by `ticks`,
/// wrapped to the frame count.
proof fn lemma_position_after(start: nat, frame_count: nat, ticks: nat)
    requires
        frame_count > 0,
        start < frame_count,
    ensures
        position_after(start, frame_count, ticks) == (start + ticks) % frame_count,
    decreases ticks,
{
    if ticks == 0 {
        vstd::arithmetic::div_mod::lemma_small_mod(start, frame_count);
    } else {
        lemma_position_after(start, frame_count, (ticks - 1) as nat);
        vstd::arithmetic::div_mod::lemma_add_mod_noop(
            (start + ticks - 1) as int,
            1,
            frame_count as int,
        );
        vstd::arithmetic::div_mod::lemma_mod_twice((start + ticks) as int, frame_count as int);
        if frame_count == 1 {
            vstd::arithmetic::div_mod::lemma_mod_self_0(1);
        } else {
            vstd::arithmetic::div_mod::lemma_small_mod(1, frame_count);
        }
    }
}

/// Frames wrap around: from any position below the frame count, successive
/// ticks hand out consecutive frames modulo the frame count, so after a reset
/// tick `k` shows frame `k mod n`.
pub proof fn lemma_frames_wrap(start: nat, frame_count: nat, tick: nat)
    requires
        frame_count > 0,
        start < frame_count,
    ensures
        frame_at_tick(start, frame_count, tick) == (start + tick) % frame_count,
{
    lemma_position_after(start, frame_count, tick);
    vstd::arithmetic::div_mod::lemma_mod_twice((start + tick) as int, frame_count as int);
}

} // verus!
