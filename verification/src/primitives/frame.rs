//! The frame counter, a small animation clock that wraps around.

use vstd::prelude::*;
use crate::bytes::is_u32_image;
use crate::bytes::lemma_small_word_image;
use crate::bytes::u32_image;

verus! {

/// Number of distinct values of the frame counter.
pub const FRAME_PERIOD: u32 = 100;

/// The counter value that follows `value`.
pub open spec fn next_frame(value: nat) -> nat {
    (value + 1) % (FRAME_PERIOD as nat)
}

/// The counter value reached from `start` after `ticks` increments.
pub open spec fn frame_after(start: nat, ticks: nat) -> nat
    decreases ticks,
{
    if ticks == 0 {
        start
    } else {
        next_frame(frame_after(start, (ticks - 1) as nat))
    }
}

/// The frame counter as it is laid out for the vertex stage.
#[derive(Debug, Clone, Copy)]
pub struct FrameUniform {
    frame: u32,
}

impl FrameUniform {
    #[verifier::type_invariant]
    spec fn in_range(self) -> bool {
        self.frame < FRAME_PERIOD
    }

    /// The current counter value.
    pub closed spec fn value(self) -> nat {
        self.frame as nat
    }

    /// A counter at zero.
    pub fn new() -> (fresh: Self)
        ensures
            fresh.value() == 0,
    {
        Self { frame: 0 }
    }

    /// Advances the counter by one, wrapping to zero after `FRAME_PERIOD - 1`.
    pub fn incr_frame(&mut self)
        ensures
            final(self).value() == next_frame(old(self).value()),
            final(self).value() < FRAME_PERIOD,
        no_unwind
    {
        proof {
            use_type_invariant(&*self);
        }
        let new_frame: u32 = self.frame + 1;
        self.frame = new_frame % FRAME_PERIOD;
    }

    /// The counter as it lies in memory, ready to be written into its buffer:
    /// four bytes, of which one holds the value and the others are zero.
    pub fn to_bytes(&self) -> (bytes: Vec<u8>)
        ensures
            is_u32_image(bytes@, seq![self.value() as u32]),
            bytes@ == seq![self.value() as u8, 0u8, 0u8, 0u8] || bytes@ == seq![
                0u8,
                0u8,
                0u8,
                self.value() as u8,
            ],
    {
        proof {
            use_type_invariant(self);
        }
        let mut words: Vec<u32> = Vec::new();
        words.push(self.frame);
        assert(words@ =~= seq![self.frame]);
        let bytes = u32_image(&words);
        proof {
            lemma_small_word_image(bytes@, self.frame);
        }
        bytes
    }

    /// Reads the counter.
    pub fn frame(&self) -> (value: u32)
        ensures
            value == self.value(),
            value < FRAME_PERIOD,
    {
        proof {
            use_type_invariant(self);
        }
        self.frame
    }
}

/// Each tick moves the counter up by one, or from the last value back to
/// zero, and never out of its range.
pub proof fn lemma_next_frame(value: nat)
    requires
        value < FRAME_PERIOD,
    ensures
        next_frame(value) < FRAME_PERIOD,
        value + 1 < FRAME_PERIOD ==> next_frame(value) == value + 1,
        value + 1 == FRAME_PERIOD ==> next_frame(value) == 0,
{
}

/// After `ticks` ticks the counter has moved on by `ticks`, modulo the
/// period.
pub proof fn lemma_frame_after(start: nat, ticks: nat)
    requires
        start < FRAME_PERIOD,
    ensures
        frame_after(start, ticks) == (start + ticks) % (FRAME_PERIOD as nat),
        frame_after(start, ticks) < FRAME_PERIOD,
    decreases ticks,
{
    if ticks > 0 {
        lemma_frame_after(start, (ticks - 1) as nat);
    }
}

/// Counting from zero, the counter shows the number of ticks modulo the
/// period; a whole period of ticks brings any counter back to where it was.
pub proof fn lemma_frame_after_ticks(start: nat, ticks: nat)
    requires
        start < FRAME_PERIOD,
    ensures
        frame_after(0, ticks) == ticks % (FRAME_PERIOD as nat),
        frame_after(start, FRAME_PERIOD as nat) == start,
{
    lemma_frame_after(0, ticks);
    lemma_frame_after(start, FRAME_PERIOD as nat);
}

} // verus!
