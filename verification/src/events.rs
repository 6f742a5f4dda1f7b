//! Event dispatch substrate.
//!
//! A process-wide bitmask of pending deferred-work flags, one bit per
//! source, set from interrupt context and drained by the cooperative run
//! loop in priority order (lower bit index = higher priority). The flags
//! value travels through `EventFlags`, whose operations model the
//! read-modify-write that the hardware performs atomically; callers in
//! interrupt-driven code must keep that access atomic (interrupts masked).

use vstd::prelude::*;

verus! {

/// A deferred-work source. Each source owns one distinct bit of the mask.
#[derive(Debug, Clone, Copy, PartialEq, Eq, Structural)]
pub enum EventPriority {
    Gpio,
    Uart1,
    Uart0,
    AonRtc,
    Rtc,
    I2c0,
    AonProg,
}

/// The bit index a source's flag lives at. Lower index = higher priority.
pub open spec fn spec_bit_index(p: EventPriority) -> u64 {
    match p {
        EventPriority::Gpio => 0,
        EventPriority::Uart1 => 1,
        EventPriority::Uart0 => 2,
        EventPriority::AonRtc => 3,
        EventPriority::Rtc => 4,
        EventPriority::I2c0 => 6,
        EventPriority::AonProg => 7,
    }
}

/// The bits that belong to some source. Bit 5 and bits 8 and above are
/// unassigned and stay clear.
pub open spec fn spec_assigned_mask() -> u64 {
    0xdf
}

/// The pending-work bitmask.
pub struct EventFlags {
    bits: u64,
}

impl EventFlags {
    /// The raw mask value.
    pub closed spec fn view(&self) -> u64 {
        self.bits
    }

    /// Only assigned bits are ever set. Established at boot and preserved
    /// by every operation, since each sets or clears one assigned bit.
    pub open spec fn wf(&self) -> bool {
        self@ & !spec_assigned_mask() == 0
    }

    /// The all-clear mask a device boots with.
    pub fn new() -> (r: EventFlags)
        ensures
            r@ == 0u64,
            r.wf(),
    {
        let r = EventFlags { bits: 0 };
        proof {
            assert(0u64 & !0xdfu64 == 0) by (bit_vector);
        }
        r
    }
}

/// `flags` after the bit of `p` is set.
pub open spec fn spec_set_flag(flags: u64, p: EventPriority) -> u64 {
    flags | (1u64 << spec_bit_index(p))
}

/// `flags` after the bit of `p` is cleared.
pub open spec fn spec_clear_flag(flags: u64, p: EventPriority) -> u64 {
    flags & !(1u64 << spec_bit_index(p))
}

/// The highest-priority pending source: the set bit with the lowest index.
pub open spec fn spec_next_pending(flags: u64) -> Option<EventPriority> {
    if flags & (1u64 << 0) != 0 {
        Some(EventPriority::Gpio)
    } else if flags & (1u64 << 1) != 0 {
        Some(EventPriority::Uart1)
    } else if flags & (1u64 << 2) != 0 {
        Some(EventPriority::Uart0)
    } else if flags & (1u64 << 3) != 0 {
        Some(EventPriority::AonRtc)
    } else if flags & (1u64 << 4) != 0 {
        Some(EventPriority::Rtc)
    } else if flags & (1u64 << 6) != 0 {
        Some(EventPriority::I2c0)
    } else if flags & (1u64 << 7) != 0 {
        Some(EventPriority::AonProg)
    } else {
        None
    }
}

/// The bit index of `p`, as the run loop computes it.
pub fn bit_index(p: EventPriority) -> (r: u64)
    ensures
        r == spec_bit_index(p),
{
    match p {
        EventPriority::Gpio => 0,
        EventPriority::Uart1 => 1,
        EventPriority::Uart0 => 2,
        EventPriority::AonRtc => 3,
        EventPriority::Rtc => 4,
        EventPriority::I2c0 => 6,
        EventPriority::AonProg => 7,
    }
}

/// Mark the source `priority` as having deferred work pending. Callable
/// from interrupt context; its only effect is the flag.
pub fn set_event_flag(flags: &mut EventFlags, priority: EventPriority)
    requires
        old(flags).wf(),
    ensures
        final(flags)@ == spec_set_flag(old(flags)@, priority),
        final(flags).wf(),
{
    let idx = bit_index(priority);
    proof {
        let b = flags@;
        let i = spec_bit_index(priority);
        assert(b & !0xdfu64 == 0 && (i == 0 || i == 1 || i == 2 || i == 3 || i == 4 || i == 6
            || i == 7) ==> (b | (1u64 << i)) & !0xdfu64 == 0) by (bit_vector);
    }
    flags.bits = flags.bits | (1u64 << idx);
}

/// Clear the flag of `priority`. Called by the run loop once the source's
/// deferred work has been fully drained.
pub fn clear_event_flag(flags: &mut EventFlags, priority: EventPriority)
    requires
        old(flags).wf(),
    ensures
        final(flags)@ == spec_clear_flag(old(flags)@, priority),
        final(flags).wf(),
{
    let idx = bit_index(priority);
    proof {
        let b = flags@;
        let i = spec_bit_index(priority);
        assert(b & !0xdfu64 == 0 ==> (b & !(1u64 << i)) & !0xdfu64 == 0) by (bit_vector);
    }
    flags.bits = flags.bits & !(1u64 << idx);
}

/// The first pending priority, scanning from bit 0 upward; `None` when the
/// mask is zero. An empty mask is the normal idle state, not an error.
pub fn next_pending(flags: &EventFlags) -> (r: Option<EventPriority>)
    requires
        flags.wf(),
    ensures
        r == spec_next_pending(flags@),
        r is None <==> flags@ == 0,
        forall|p: EventPriority| r == Some(p) ==> flags@ & (1u64 << spec_bit_index(p)) != 0,
{
    let b = flags.bits;
    proof {
        assert(b & !0xdfu64 == 0 && b & (1u64 << 0) == 0 && b & (1u64 << 1) == 0 && b & (1u64
            << 2) == 0 && b & (1u64 << 3) == 0 && b & (1u64 << 4) == 0 && b & (1u64 << 6) == 0 && b
            & (1u64 << 7) == 0 ==> b == 0) by (bit_vector);
        assert(b == 0 ==> b & (1u64 << 0) == 0 && b & (1u64 << 1) == 0 && b & (1u64 << 2) == 0 && b
            & (1u64 << 3) == 0 && b & (1u64 << 4) == 0 && b & (1u64 << 6) == 0 && b & (1u64 << 7)
            == 0) by (bit_vector);
    }
    if b & (1u64 << 0) != 0 {
        Some(EventPriority::Gpio)
    } else if b & (1u64 << 1) != 0 {
        Some(EventPriority::Uart1)
    } else if b & (1u64 << 2) != 0 {
        Some(EventPriority::Uart0)
    } else if b & (1u64 << 3) != 0 {
        Some(EventPriority::AonRtc)
    } else if b & (1u64 << 4) != 0 {
        Some(EventPriority::Rtc)
    } else if b & (1u64 << 6) != 0 {
        Some(EventPriority::I2c0)
    } else if b & (1u64 << 7) != 0 {
        Some(EventPriority::AonProg)
    } else {
        None
    }
}

/// Law: the scan never reports a source whose flag is clear; in particular,
/// clearing `p` and immediately scanning cannot return `p` unless `p` was
/// set again in between.
pub proof fn lemma_clear_then_next_pending(flags: u64, p: EventPriority)
    ensures
        spec_next_pending(spec_clear_flag(flags, p)) != Some(p),
{
    let i = spec_bit_index(p);
    assert((flags & !(1u64 << i)) & (1u64 << i) == 0) by (bit_vector);
}

} // verus!
