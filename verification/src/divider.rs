use vstd::prelude::*;

verus! {

/// Wrap interrupts counted before the output toggles once.
pub const WRAP_DIVISOR: u8 = 3;

/// The slow-toggle counter driven from the timer-wrap interrupt: it counts
/// interrupts and, every `WRAP_DIVISOR`th one, asks for the output level to
/// be flipped.
///
/// The interrupt handler owns it under a critical section and is not
/// re-entered; the handler performs the toggle and clears its trigger
/// condition before returning.
pub struct WrapDivider {
    count: u8,
}

impl WrapDivider {
    /// Interrupts counted since the last toggle.
    pub closed spec fn count(self) -> u8 {
        self.count
    }

    pub open spec fn wf(self) -> bool {
        self.count() < WRAP_DIVISOR
    }

    /// A fresh counter has seen no interrupt.
    pub fn new() -> (r: WrapDivider)
        ensures
            r.count() == 0,
            r.wf(),
    {
        WrapDivider { count: 0 }
    }

    /// One wrap interrupt arrived while the output sits at `level_high`.
    /// Every `WRAP_DIVISOR`th interrupt the counter resets and hands back
    /// the level to drive — the opposite of the current one; otherwise it
    /// only counts.
    pub fn on_wrap(&mut self, level_high: bool) -> (drive: Option<bool>)
        ensures
            final(self).wf(),
            old(self).count() >= WRAP_DIVISOR - 1 ==> drive == Some(!level_high)
                && final(self).count() == 0,
            old(self).count() < WRAP_DIVISOR - 1 ==> drive is None && final(self).count()
                == old(self).count() + 1,
    {
        if self.count >= WRAP_DIVISOR - 1 {
            self.count = 0;
            Some(!level_high)
        } else {
            self.count = self.count + 1;
            None
        }
    }
}

/// Whether the wrap-interrupt status word flags the given channel: all
/// slices share one interrupt, and bit `channel` of the status word says
/// whose counter wrapped.
pub fn channel_flagged(ints: u32, channel: u32) -> (r: bool)
    requires
        channel < 32,
    ensures
        r == (ints & (1u32 << channel) != 0),
{
    ints & (1u32 << channel) != 0
}

} // verus!
