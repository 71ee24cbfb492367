use vstd::prelude::*;

use crate::targets::appleii::io::soft_switches::{switch_index, SoftSwitches, Switch};

verus! {

/// Cycles of visible lines in a frame (32 cycles for each of 480 lines).
pub const VISIBLE_CYCLES: u64 = 15360;
/// Cycles of the vertical blank (32 cycles for each of 45 lines).
pub const BLANK_CYCLES: u64 = 1440;

/// Tracks the vertical blank from the processor's cycle count.
pub struct VblTickListener {
    pub last_vbl: u64,
    pub vbl: bool,
}

/// The processor reached cycle `instant`: the listener and the soft switches after it, and
/// whether the blank began. The blank starts once the visible lines have passed since the
/// last one ended (VBL on), and ends 1440 cycles later (VBL off); a cycle count that went
/// back starts the count over.
pub open spec fn vbl_tick_spec(l: VblTickListener, sw: Seq<bool>, instant: u64) -> (VblTickListener, Seq<bool>, bool) {
    if instant > l.last_vbl {
        let period = instant - l.last_vbl;
        let enter = period >= VISIBLE_CYCLES && !l.vbl;
        let vbl1 = l.vbl || enter;
        let exit = period >= VISIBLE_CYCLES + BLANK_CYCLES && vbl1;
        let sw1 = if enter { sw.update(switch_index(Switch::Vbl), true) } else { sw };
        (
            VblTickListener { vbl: vbl1 && !exit, last_vbl: if exit { instant } else { l.last_vbl } },
            if exit { sw1.update(switch_index(Switch::Vbl), false) } else { sw1 },
            enter,
        )
    } else {
        (VblTickListener { last_vbl: instant, ..l }, sw, false)
    }
}

impl VblTickListener {
    /// Outside the blank, counting from cycle `now`.
    pub fn new(now: u64) -> (l: VblTickListener)
        ensures
            l.last_vbl == now,
            !l.vbl,
    {
        VblTickListener { last_vbl: now, vbl: false }
    }

    /// The processor reached cycle `instant`. The blank starts once the visible lines have
    /// passed since the last one ended (VBL on; returns true: the frame is drawn and the
    /// mouse told), and ends 1440 cycles later (VBL off); a cycle count that went back
    /// starts the count over.
    pub fn tick_updated(&mut self, instant: u64, soft_switches: &mut SoftSwitches) -> (entered: bool)
        ensures
            (*final(self), final(soft_switches)@, entered) == vbl_tick_spec(*old(self), old(soft_switches)@, instant),
    {
        let mut entered = false;
        if instant > self.last_vbl {
            let period = instant - self.last_vbl;
            if period >= VISIBLE_CYCLES && !self.vbl {
                soft_switches.set(Switch::Vbl, true);
                self.vbl = true;
                entered = true;
            }
            if period >= VISIBLE_CYCLES + BLANK_CYCLES && self.vbl {
                soft_switches.set(Switch::Vbl, false);
                self.vbl = false;
                self.last_vbl = instant;
            }
        } else {
            self.last_vbl = instant;
        }
        entered
    }
}

} // verus!
