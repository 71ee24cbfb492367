use vstd::prelude::*;

verus! {

/// The soft switches of the Apple II, each an on/off state of the machine.
#[derive(Debug, Clone, Copy, PartialEq, Eq, Structural)]
pub enum Switch {
    Eightystore,
    Altzp,
    Eightycol,
    Altchar,
    Ramrd,
    Ramwrt,
    TextMode,
    MixMode,
    PageTwo,
    HiresMode,
    An0,
    An1,
    An2,
    An3,
    Ioudis,
    C3romSlot,
    Intcxrom,
    Rdlcram,
    Rdlbnk2,
    Vbl,
    Iicrom,
}

/// Which accesses flip a switch: reads only, writes only, or both.
#[derive(Debug, Clone, Copy, PartialEq, Eq, Structural)]
pub enum AccessType {
    Read,
    Write,
    Both,
}

/// The number of soft switches.
pub const NUM_SWITCHES: usize = 21;

/// The switches, in the order their addresses are matched.
pub const SWITCHES: [Switch; 21] = [
    Switch::Eightystore,
    Switch::Altzp,
    Switch::Eightycol,
    Switch::Altchar,
    Switch::Ramrd,
    Switch::Ramwrt,
    Switch::TextMode,
    Switch::MixMode,
    Switch::PageTwo,
    Switch::HiresMode,
    Switch::An0,
    Switch::An1,
    Switch::An2,
    Switch::An3,
    Switch::Ioudis,
    Switch::C3romSlot,
    Switch::Intcxrom,
    Switch::Rdlcram,
    Switch::Rdlbnk2,
    Switch::Vbl,
    Switch::Iicrom,
];

/// The address that turns each switch off (0: none).
pub const SWITCH_OFF: [u16; 21] = [
    0xc000, 0xc008, 0xc00c, 0xc00e, 0xc002, 0xc004, 0xc050, 0xc052, 0xc054, 0xc056, 0xc058, 0xc05a, 0xc05c,
    0xc05e, 0xc07e, 0xc00a, 0xc006, 0, 0, 0, 0,
];

/// The address that turns each switch on (0: none).
pub const SWITCH_ON: [u16; 21] = [
    0xc001, 0xc009, 0xc00d, 0xc00f, 0xc003, 0xc005, 0xc051, 0xc053, 0xc055, 0xc057, 0xc059, 0xc05b, 0xc05d,
    0xc05f, 0xc07f, 0xc00b, 0xc007, 0, 0, 0, 0xc028,
];

/// Whether each switch can be read back.
pub const SWITCH_HAS_READ: [bool; 21] = [
    true, true, true, true, true, true, true, true, true, true, false, false, false, false, true, true, true, true,
    true, true, false,
];

/// The address that reads each switch back, where it can be.
pub const SWITCH_READ: [u16; 21] = [
    0xc018, 0xc016, 0xc01f, 0xc01e, 0xc013, 0xc014, 0xc01a, 0xc01b, 0xc01c, 0xc01d, 0, 0, 0, 0, 0xc07e, 0xc017,
    0xc015, 0xc012, 0xc011, 0xc019, 0,
];

/// Which accesses flip each switch.
pub const SWITCH_ACCESS: [AccessType; 21] = [
    AccessType::Write,
    AccessType::Write,
    AccessType::Write,
    AccessType::Write,
    AccessType::Write,
    AccessType::Write,
    AccessType::Both,
    AccessType::Both,
    AccessType::Both,
    AccessType::Both,
    AccessType::Both,
    AccessType::Both,
    AccessType::Both,
    AccessType::Both,
    AccessType::Both,
    AccessType::Write,
    AccessType::Write,
    AccessType::Both,
    AccessType::Both,
    AccessType::Both,
    AccessType::Both,
];

/// The position of a switch in the table.
pub open spec fn switch_index(s: Switch) -> int {
    match s {
        Switch::Eightystore => 0,
        Switch::Altzp => 1,
        Switch::Eightycol => 2,
        Switch::Altchar => 3,
        Switch::Ramrd => 4,
        Switch::Ramwrt => 5,
        Switch::TextMode => 6,
        Switch::MixMode => 7,
        Switch::PageTwo => 8,
        Switch::HiresMode => 9,
        Switch::An0 => 10,
        Switch::An1 => 11,
        Switch::An2 => 12,
        Switch::An3 => 13,
        Switch::Ioudis => 14,
        Switch::C3romSlot => 15,
        Switch::Intcxrom => 16,
        Switch::Rdlcram => 17,
        Switch::Rdlbnk2 => 18,
        Switch::Vbl => 19,
        Switch::Iicrom => 20,
    }
}

/// Whether an access (a write or a read) flips a switch with access type `access`.
pub open spec fn access_matches(access: AccessType, write: bool) -> bool {
    access == AccessType::Both || (access == AccessType::Write && write) || (access == AccessType::Read && !write)
}

/// What an address does to the switches: turns one on, turns one off, reads one back, or
/// nothing.
#[derive(Debug, Clone, Copy, PartialEq, Eq, Structural)]
pub enum SwitchArm {
    On(usize),
    Off(usize),
    Read(usize),
    NoArm,
}

/// The first entry of the table, from `i` on, that `address` selects: each switch's "on"
/// address, then its "off" address, then its read address.
pub open spec fn switch_arm_from(address: usize, i: int) -> SwitchArm
    decreases 21 - i,
{
    if i < 0 || i >= 21 {
        SwitchArm::NoArm
    } else if SWITCH_ON@[i] != 0 && address == SWITCH_ON@[i] {
        SwitchArm::On(i as usize)
    } else if SWITCH_OFF@[i] != 0 && address == SWITCH_OFF@[i] {
        SwitchArm::Off(i as usize)
    } else if SWITCH_HAS_READ@[i] && address == SWITCH_READ@[i] {
        SwitchArm::Read(i as usize)
    } else {
        switch_arm_from(address, i + 1)
    }
}

/// The table entry an address selects is one of the 21.
pub proof fn lemma_switch_arm_range(address: usize, i: int)
    ensures
        switch_arm_from(address, i) matches SwitchArm::On(k) ==> k < 21,
        switch_arm_from(address, i) matches SwitchArm::Off(k) ==> k < 21,
        switch_arm_from(address, i) matches SwitchArm::Read(k) ==> k < 21,
    decreases 21 - i,
{
    if 0 <= i < 21 {
        lemma_switch_arm_range(address, i + 1);
    }
}

/// A switch changed by an access: which one, its value before and its value after.
#[derive(Debug, Clone, Copy, PartialEq, Eq, Structural)]
pub struct SwitchUpdate {
    pub switch: Switch,
    pub previous: bool,
    pub value: bool,
}

/// What an access to `address` does: the new switch values, the byte read, and the switch
/// it changed, if it changed one (0x80 when a switch is turned on or read back on).
pub open spec fn update_switches_spec(values: Seq<bool>, address: usize, write: bool) -> (Seq<bool>, u8, Option<SwitchUpdate>) {
    match switch_arm_from(address, 0) {
        SwitchArm::On(i) => if access_matches(SWITCH_ACCESS@[i as int], write) {
            (values.update(i as int, true), 0x80u8, Some(SwitchUpdate { switch: SWITCHES@[i as int], previous: values[i as int], value: true }))
        } else {
            (values, 0u8, None)
        },
        SwitchArm::Off(i) => if access_matches(SWITCH_ACCESS@[i as int], write) {
            (values.update(i as int, false), 0u8, Some(SwitchUpdate { switch: SWITCHES@[i as int], previous: values[i as int], value: false }))
        } else {
            (values, 0u8, None)
        },
        SwitchArm::Read(i) => (values, if values[i as int] { 0x80u8 } else { 0u8 }, None),
        SwitchArm::NoArm => (values, 0u8, None),
    }
}

/// The switch values after a reset: all off but I/O disable.
pub open spec fn reset_switch_values() -> Seq<bool> {
    Seq::new(21, |i: int| i == 14)
}

/// The soft switches.
pub struct SoftSwitches {
    values: [bool; 21],
}

impl View for SoftSwitches {
    type V = Seq<bool>;

    closed spec fn view(&self) -> Seq<bool> {
        self.values@
    }
}

/// The table position of a switch.
fn index_of(s: Switch) -> (r: usize)
    ensures
        r == switch_index(s),
        r < 21,
        SWITCHES@[r as int] == s,
{
    match s {
        Switch::Eightystore => 0,
        Switch::Altzp => 1,
        Switch::Eightycol => 2,
        Switch::Altchar => 3,
        Switch::Ramrd => 4,
        Switch::Ramwrt => 5,
        Switch::TextMode => 6,
        Switch::MixMode => 7,
        Switch::PageTwo => 8,
        Switch::HiresMode => 9,
        Switch::An0 => 10,
        Switch::An1 => 11,
        Switch::An2 => 12,
        Switch::An3 => 13,
        Switch::Ioudis => 14,
        Switch::C3romSlot => 15,
        Switch::Intcxrom => 16,
        Switch::Rdlcram => 17,
        Switch::Rdlbnk2 => 18,
        Switch::Vbl => 19,
        Switch::Iicrom => 20,
    }
}

impl SoftSwitches {
    /// The switches after a reset.
    pub fn new() -> (s: SoftSwitches)
        ensures
            s@ == reset_switch_values(),
    {
        let mut s = SoftSwitches { values: [false; 21] };
        s.reset();
        s
    }

    /// Turns every switch off, then I/O disable on.
    pub fn reset(&mut self)
        ensures
            final(self)@ == reset_switch_values(),
    {
        self.values = [false; 21];
        self.values[14] = true;
        assert(self.values@ =~= reset_switch_values());
    }

    /// Whether `switch` is on.
    pub fn get(&self, switch: Switch) -> (r: bool)
        ensures
            r == self@[switch_index(switch)],
    {
        self.values[index_of(switch)]
    }

    /// Turns `switch` on or off.
    pub fn set(&mut self, switch: Switch, value: bool)
        ensures
            final(self)@ == old(self)@.update(switch_index(switch), value),
    {
        let i = index_of(switch);
        self.values[i] = value;
    }

    /// The table entry that `address` selects.
    fn find_arm(address: usize) -> (r: SwitchArm)
        ensures
            r == switch_arm_from(address, 0),
            r matches SwitchArm::On(i) ==> i < 21,
            r matches SwitchArm::Off(i) ==> i < 21,
            r matches SwitchArm::Read(i) ==> i < 21,
    {
        let mut i: usize = 0;
        while i < 21
            invariant
                i <= 21,
                switch_arm_from(address, 0) == switch_arm_from(address, i as int),
            decreases 21 - i,
        {
            if SWITCH_ON[i] != 0 && address == SWITCH_ON[i] as usize {
                return SwitchArm::On(i);
            }
            if SWITCH_OFF[i] != 0 && address == SWITCH_OFF[i] as usize {
                return SwitchArm::Off(i);
            }
            if SWITCH_HAS_READ[i] && address == SWITCH_READ[i] as usize {
                return SwitchArm::Read(i);
            }
            i += 1;
        }
        SwitchArm::NoArm
    }

    /// An access to `address`: a read (`write` false) or a write. The address that turns a
    /// switch on or off does so where the switch's access type allows the access, the
    /// read address gives its value in bit 7; the switch changed is reported.
    pub fn update_switches(&mut self, address: usize, write: bool) -> (r: (u8, Option<SwitchUpdate>))
        ensures
            (final(self)@, r.0, r.1) == update_switches_spec(old(self)@, address, write),
            final(self)@.len() == old(self)@.len(),
    {
        match Self::find_arm(address) {
            SwitchArm::On(i) => {
                if Self::access_ok(SWITCH_ACCESS[i], write) {
                    let previous = self.values[i];
                    self.values[i] = true;
                    (0x80, Some(SwitchUpdate { switch: SWITCHES[i], previous, value: true }))
                } else {
                    (0, None)
                }
            },
            SwitchArm::Off(i) => {
                if Self::access_ok(SWITCH_ACCESS[i], write) {
                    let previous = self.values[i];
                    self.values[i] = false;
                    (0, Some(SwitchUpdate { switch: SWITCHES[i], previous, value: false }))
                } else {
                    (0, None)
                }
            },
            SwitchArm::Read(i) => (if self.values[i] { 0x80 } else { 0 }, None),
            SwitchArm::NoArm => (0, None),
        }
    }

    fn access_ok(access: AccessType, write: bool) -> (r: bool)
        ensures
            r == access_matches(access, write),
    {
        match access {
            AccessType::Both => true,
            AccessType::Write => write,
            AccessType::Read => !write,
        }
    }

    /// A read of `address`.
    pub fn read(&mut self, address: usize) -> (r: (u8, Option<SwitchUpdate>))
        ensures
            (final(self)@, r.0, r.1) == update_switches_spec(old(self)@, address, false),
            final(self)@.len() == old(self)@.len(),
    {
        self.update_switches(address, false)
    }

    /// A write to `address`; the data does not matter.
    pub fn write(&mut self, address: usize, data: u8) -> (r: Option<SwitchUpdate>)
        ensures
            final(self)@ == update_switches_spec(old(self)@, address, true).0,
            r == update_switches_spec(old(self)@, address, true).2,
            final(self)@.len() == old(self)@.len(),
    {
        let (_, update) = self.update_switches(address, true);
        update
    }
}

} // verus!

verus! {

/// A switch turned on by an access reads back on (0x80) at its read address; turned off,
/// it reads back 0.
pub proof fn lemma_switch_reads_back(values: Seq<bool>, set_address: usize, write: bool, read_address: usize, i: usize)
    requires
        values.len() == 21,
        i < 21,
        switch_arm_from(set_address, 0) == SwitchArm::On(i) || switch_arm_from(set_address, 0) == SwitchArm::Off(i),
        access_matches(SWITCH_ACCESS@[i as int], write),
        switch_arm_from(read_address, 0) == SwitchArm::Read(i),
    ensures
        update_switches_spec(update_switches_spec(values, set_address, write).0, read_address, false).1 == (
        if switch_arm_from(set_address, 0) == SwitchArm::On(i) { 0x80u8 } else { 0u8 }),
{
}

} // verus!
