//! The uniform clock: elapsed milliseconds since loop entry, written into a
//! GPU-visible buffer once per frame, immediately before the draw that reads
//! it.

use vstd::prelude::*;

verus! {

/// The value the clock takes after one advance: the new elapsed-time reading,
/// unless that reading runs behind the value already written (the clock never
/// moves backwards).
pub open spec fn advanced(prev: u32, now_ms: u32) -> u32 {
    if now_ms >= prev {
        now_ms
    } else {
        prev
    }
}

/// Owns the current value of the shader-visible elapsed-time uniform.
/// The buffer itself lives with the graphics device; this type decides the
/// 32-bit value each frame observes.
pub struct UniformClock {
    millis: u32,
}

impl UniformClock {
    /// The value most recently written for a frame to observe.
    pub closed spec fn value(self) -> u32 {
        self.millis
    }

    /// A fresh clock reads zero elapsed time: clock start epoch = loop entry.
    pub fn new() -> (c: UniformClock)
        ensures
            c.value() == 0,
    {
        UniformClock { millis: 0 }
    }

    /// Record the elapsed-time reading for the frame about to be drawn and
    /// return the value the frame's shader will observe. The observed value
    /// never decreases across frames, and strictly increases whenever the
    /// reading has strictly advanced.
    pub fn advance(&mut self, now_ms: u32) -> (v: u32)
        ensures
            final(self).value() == advanced(old(self).value(), now_ms),
            v == final(self).value(),
            final(self).value() >= old(self).value(),
            now_ms > old(self).value() ==> final(self).value() > old(self).value(),
    {
        if now_ms >= self.millis {
            self.millis = now_ms;
        }
        self.millis
    }
}

/// The clock value observed across consecutive frames is non-decreasing, and
/// strictly increases across two frames whose elapsed-time readings are
/// separated by non-zero wall-clock time (readings taken from a monotonic
/// clock, so the first reading is no older than the value already written).
pub proof fn lemma_clock_monotonic(prev: u32, now1: u32, now2: u32)
    requires
        prev <= now1,
        now1 < now2,
    ensures
        advanced(prev, now1) <= advanced(advanced(prev, now1), now2),
        advanced(prev, now1) < advanced(advanced(prev, now1), now2),
{
}

/// Little-endian byte image of the clock value, exactly as the uniform buffer
/// stores it.
pub open spec fn le_bytes_of(v: u32) -> Seq<u8> {
    seq![
        (v % 256) as u8,
        ((v / 256) % 256) as u8,
        ((v / 65536) % 256) as u8,
        ((v / 16777216) % 256) as u8,
    ]
}

/// The declared shape of the one resource every built pipeline binds: the
/// clock's uniform buffer.
pub struct ClockBinding {
    /// Bind group the buffer lives in.
    pub group: u32,
    /// Slot the buffer is bound at.
    pub binding: u32,
    /// The buffer is read-only and visible to the fragment stage alone.
    pub fragment_only: bool,
    /// Size of the buffer: one 32-bit value.
    pub size_bytes: u32,
}

/// The binding layout every pipeline is built against: one read-only uniform
/// buffer of four bytes, bound at slot 0 of group 0, visible to the fragment
/// stage only.
pub fn clock_binding() -> (b: ClockBinding)
    ensures
        b.group == 0,
        b.binding == 0,
        b.fragment_only,
        b.size_bytes == 4,
{
    ClockBinding { group: 0, binding: 0, fragment_only: true, size_bytes: 4 }
}

/// Encode the clock value as the four little-endian bytes written into the
/// uniform buffer.
pub fn clock_bytes(v: u32) -> (b: Vec<u8>)
    ensures
        b@ == le_bytes_of(v),
{
    let mut b: Vec<u8> = Vec::new();
    b.push((v % 256) as u8);
    b.push(((v / 256) % 256) as u8);
    b.push(((v / 65536) % 256) as u8);
    b.push(((v / 16777216) % 256) as u8);
    proof {
        assert(b@ =~= le_bytes_of(v));
    }
    b
}

} // verus!
