use vstd::prelude::*;

verus! {

/// The game switch that the Apple (Option) key drives.
pub const GAME_SWITCH_APPLE_KEY: usize = 0;

/// The game switches (push buttons) of the Apple II.
pub struct MiscIo {
    game_switch: [bool; 3],
}

impl View for MiscIo {
    type V = Seq<bool>;

    closed spec fn view(&self) -> Seq<bool> {
        self.game_switch@
    }
}

impl MiscIo {
    /// Switches 0 and 1 released, switch 2 pressed.
    pub fn new() -> (m: MiscIo)
        ensures
            m@ == seq![false, false, true],
    {
        let m = MiscIo { game_switch: [false, false, true] };
        assert(m@ =~= seq![false, false, true]);
        m
    }

    /// Presses or releases game switch `switch`; there are three.
    pub fn update_game_switch(&mut self, switch: usize, state: bool)
        ensures
            switch > 2 ==> final(self)@ == old(self)@,
            switch <= 2 ==> final(self)@ == old(self)@.update(switch as int, state),
    {
        if switch > 2 {
            return;
        }
        self.game_switch[switch] = state;
    }

    /// A read of address `address` (relative to 0xc060): addresses 1 to 3 give game switch
    /// 0 to 2 in bit 7; others give 0.
    pub fn read(&self, address: usize) -> (r: u8)
        ensures
            1 <= address <= 3 ==> r == (if self@[address - 1] { 0x80u8 } else { 0u8 }),
            !(1 <= address <= 3) ==> r == 0,
    {
        if address >= 1 && address <= 3 {
            if self.game_switch[address - 1] {
                return 0x80;
            }
        }
        0
    }
}

} // verus!
