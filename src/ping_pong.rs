//! Double buffering of particle state. Two buffers, A and B, take turns as
//! the one the compute pass reads and the one it writes; which is which
//! follows from the parity of the frame counter alone.

use vstd::prelude::*;

verus! {

/// One of the two particle buffers, or the bind group that reads from it.
#[derive(Clone, Copy, Debug, PartialEq, Eq, Structural)]
pub enum PingPongSide {
    A,
    B,
}

/// The side that frame `frame_count` reads from: A on even frames, B on odd.
pub open spec fn side_of_frame(frame_count: int) -> PingPongSide {
    if frame_count % 2 == 0 {
        PingPongSide::A
    } else {
        PingPongSide::B
    }
}

/// The other side.
pub open spec fn other_side(side: PingPongSide) -> PingPongSide {
    match side {
        PingPongSide::A => PingPongSide::B,
        PingPongSide::B => PingPongSide::A,
    }
}

impl PingPongSide {
    /// The side that frame `frame_count` reads from.
    pub fn for_frame(frame_count: u32) -> (r: PingPongSide)
        ensures
            r == side_of_frame(frame_count as int),
    {
        if frame_count % 2 == 0 {
            PingPongSide::A
        } else {
            PingPongSide::B
        }
    }

    /// The side that a bind group reading from `self` writes to.
    pub fn other(self) -> (r: PingPongSide)
        ensures
            r == other_side(self),
            r != self,
    {
        match self {
            PingPongSide::A => PingPongSide::B,
            PingPongSide::B => PingPongSide::A,
        }
    }
}

/// The one of `a` and `b` that stands on `side`.
pub fn select<'a, T>(side: PingPongSide, a: &'a T, b: &'a T) -> (r: &'a T)
    ensures
        r == (match side {
            PingPongSide::A => a,
            PingPongSide::B => b,
        }),
{
    match side {
        PingPongSide::A => a,
        PingPongSide::B => b,
    }
}

/// Within a frame the compute pass never reads and writes the same buffer.
pub proof fn lemma_read_differs_from_write(frame_count: u32)
    ensures
        other_side(side_of_frame(frame_count as int)) != side_of_frame(frame_count as int),
{
}

/// What one frame writes is what the next frame reads, also where the 32-bit
/// frame counter wraps around to zero.
pub proof fn lemma_write_feeds_next_read(frame_count: u32)
    ensures
        other_side(side_of_frame(frame_count as int)) == side_of_frame(
            frame_count.wrapping_add(1) as int,
        ),
{
}

/// Two frames apart, the same buffer is read again.
pub proof fn lemma_period_two(frame_count: u32)
    ensures
        side_of_frame(frame_count as int) == side_of_frame(
            frame_count.wrapping_add(2) as int,
        ),
{
}

/// Cutting a 64-bit frame number down to its low 32 bits keeps its parity,
/// so the side chosen from the cut counter is the side of the full one.
pub proof fn lemma_truncation_keeps_side(frame_number: u64)
    ensures
        side_of_frame(frame_number as u32 as int) == side_of_frame(frame_number as int),
{
    assert((frame_number as u32) % 2 == frame_number % 2) by (bit_vector);
}

} // verus!
