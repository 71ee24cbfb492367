use vstd::prelude::*;
use vstd::string::StrSliceExecFns;

use crate::cpu::mos6502;
use crate::cpu::mos6502::bus::memory::MemoryBank;
use crate::cpu::mos6502::bus::{cleared_slave, connection_view, fully_mapped, mapped, Bus, SlaveView};
use crate::cpu::mos6502::host::{instruction_reads_operand, instruction_writes_operand, next_access_spec, reads_operand, writes_operand};
use crate::cpu::mos6502::opcodes::Instruction;
use crate::cpu::mos6502::state::{registers_zero, Operand};
use crate::cpu::mos6502::host::{lemma_with_writes_concat, with_writes};
use crate::cpu::mos6502::CpuView;
use crate::cpu::InterruptSource;
use crate::targets::appleii::io::peripherals::diskii::{diskii_read_spec, diskii_write_spec};
use crate::targets::appleii::io::peripherals::language::{config_switches, handle_access_spec, write_access_spec};
use crate::targets::appleii::io::peripherals::mouse::{mouse_default, mouse_read_spec, mouse_write_spec, INTERRUPT_SOURCE_MOUSE};
use crate::targets::appleii::io::peripherals::smartport::{smartport_read_spec, smartport_write_spec};
use crate::targets::appleii::io::peripherals::superserial::{serial_read_spec, serial_write_spec, IRQ_SOURCE as SERIAL_IRQ_SOURCE};
use crate::targets::appleii::io::video::video7::listener_step;
use crate::cpu::mos6502::{with_write, instruction_spec, interrupt_spec, irq_released, reset_spec, ExecutionRequest, Mos6502};
use crate::emulator::{EmulatorTargetType, ResetType};
use crate::errors::Error;
use crate::targets::ExecutionState;
use crate::targets::appleii::args::{AppleIIArgs, AppleIICArgs, AppleIIEArgs, AppleIIEEnhancedArgs, RunArgs, Variant};
use crate::targets::appleii::io::disks::dsk::{DskFile, SystemType};
use crate::targets::appleii::io::disks::woz::{dsk_disk, lemma_dsk_disk_tracks_wf, lemma_woz_tracks_wf_unique, woz_parsed, ReaderState, WozDisk, WozDiskReader};
use crate::targets::appleii::io::memory::iic_bank::AppleIICBankSwitcher;
use crate::targets::appleii::io::keyboard::{clear_strobe_spec, Keyboard, KeyboardView};
use crate::targets::appleii::io::misc::MiscIo;
use crate::targets::appleii::io::peripheral::{peripheral_read_spec, peripheral_write_spec, PeripheralKind, PeripheralManager, PeripheralManagerView, PeripheralRead, PeripheralWrite};
use crate::targets::appleii::io::peripherals::diskii::{drive_disk_of, drive_wf, initial_spec, DiskIIView, DiskIIPeripheral, DiskTiming, DriveDisk};
use crate::targets::appleii::io::peripherals::extended_text::{aux_route, AuxTarget, Extended80ColumnText};
use crate::targets::appleii::io::peripherals::language::{default_bank_config, Bank, LanguageCard, Location};
use crate::targets::appleii::io::peripherals::mouse::MouseCard;
use crate::targets::appleii::io::peripherals::smartport::{Smartport, SmartportArgs, SmartportView};
use crate::targets::appleii::io::peripherals::superserial::{serial_default, SerialAction, SuperSerialCard};
use crate::targets::appleii::io::soft_switches::{reset_switch_values, switch_index, update_switches_spec, SoftSwitches, Switch, SwitchUpdate};
use crate::targets::appleii::io::video::character_rom::CharacterROM;
use crate::targets::appleii::io::video::vbl::VblTickListener;
use crate::targets::appleii::io::video::video7::{fsm_wf, Video7Listener};
use crate::targets::appleii::io::video::{aux_view, black, frame_spec, monitor_frame, MonitorType, Rgb, Video, VideoMode};
use crate::targets::appleii::io::video::vbl::vbl_tick_spec;
use crate::targets::appleii::io::peripherals::mouse::{signal_vbl_fires, MouseView};
use crate::utils::bits::with_bit;
use crate::utils::text::{lowercase, str_eq, unicode_lowercase};

verus! {

/// Where the F8 ROM of an Apple II starts.
pub const BUS_ROM_F8_BANK_START_ADDRESS: usize = 0xf800;
/// Where main RAM starts.
pub const BUS_RAM_START_ADDRESS: usize = 0x0;
/// The size of main RAM.
pub const BUS_RAM_SIZE: usize = 48 * 1024;
/// The slot of the Disk II card.
pub const DISK_SLOT: usize = 6;
/// The slot of the Smartport card.
pub const SMARTPORT_SLOT: usize = 5;
/// The processor clock of the Apple II, in Hz.
pub const CLOCK_RATE_HZ: u64 = 1022727;

/// The id of the Apple II.
pub const TARGET_APPLE_II: &'static str = "apple-ii";
/// The id of the Apple IIe.
pub const TARGET_APPLE_IIE: &'static str = "apple-iie";
/// The id of the enhanced Apple IIe.
pub const TARGET_APPLE_IIE_ENHANCED: &'static str = "apple-iie-enhanced";
/// The id of the Apple IIc.
pub const TARGET_APPLE_IIC: &'static str = "apple-iic";

/// The processor of a machine: the 65C02 in the enhanced IIe and the IIc, else the 6502.
pub open spec fn cpu_variant_spec(v: Variant) -> mos6502::Variant {
    match v {
        Variant::AppleIIEEnhanced(_) => mos6502::Variant::Wdc65c02,
        Variant::AppleIIC(_) => mos6502::Variant::Wdc65c02,
        _ => mos6502::Variant::Original,
    }
}

/// The processor of a machine.
pub fn cpu_variant(v: &Variant) -> (r: mos6502::Variant)
    ensures
        r == cpu_variant_spec(*v),
{
    match v {
        Variant::AppleIIEEnhanced(_) => mos6502::Variant::Wdc65c02,
        Variant::AppleIIC(_) => mos6502::Variant::Wdc65c02,
        _ => mos6502::Variant::Original,
    }
}

/// The slot of the mouse card: 7 on the IIc, else 4.
pub fn mouse_slot(v: &Variant) -> (r: usize)
    ensures
        r == (if *v is AppleIIC { 7usize } else { 4usize }),
{
    match v {
        Variant::AppleIIC(_) => 7,
        _ => 4,
    }
}

/// The id of a machine.
pub fn target_type_id(v: &Variant) -> (r: &'static str)
    ensures
        *v is AppleII ==> r@ == TARGET_APPLE_II@,
        *v is AppleIIE ==> r@ == TARGET_APPLE_IIE@,
        *v is AppleIIEEnhanced ==> r@ == TARGET_APPLE_IIE_ENHANCED@,
        *v is AppleIIC ==> r@ == TARGET_APPLE_IIC@,
{
    match v {
        Variant::AppleII(_) => TARGET_APPLE_II,
        Variant::AppleIIE(_) => TARGET_APPLE_IIE,
        Variant::AppleIIEEnhanced(_) => TARGET_APPLE_IIE_ENHANCED,
        Variant::AppleIIC(_) => TARGET_APPLE_IIC,
    }
}

/// A stopped processor of a machine with zeroed registers on `bus`.
pub open spec fn fresh_cpu_view(v: Variant, bus: Seq<SlaveView>) -> CpuView {
    CpuView {
        registers: registers_zero(),
        bus,
        stack_frame: Seq::empty(),
        cycles: 0,
        request: ExecutionRequest::Idle,
        irq: Seq::empty(),
        nmi: Seq::empty(),
        nmi_previous_cycle: false,
        execution_state: ExecutionState::Stopped,
        breakpoints: Seq::empty(),
        variant: cpu_variant_spec(v),
    }
}

/// The id of a machine.
pub open spec fn type_id_spec(v: Variant) -> Seq<char> {
    match v {
        Variant::AppleII(_) => TARGET_APPLE_II@,
        Variant::AppleIIE(_) => TARGET_APPLE_IIE@,
        Variant::AppleIIEEnhanced(_) => TARGET_APPLE_IIE_ENHANCED@,
        Variant::AppleIIC(_) => TARGET_APPLE_IIC@,
    }
}

/// The processor of a machine, at the Apple II clock, on the given bus.
pub fn new_cpu(v: &Variant, bus: mos6502::bus::Bus) -> (cpu: Mos6502)
    ensures
        cpu@ == fresh_cpu_view(*v, bus@),
        cpu.clock_rate() == CLOCK_RATE_HZ,
{
    Mos6502::new(bus, CLOCK_RATE_HZ, cpu_variant(v))
}

/// The kind of a program file.
#[derive(Debug, Clone, Copy, PartialEq, Eq, Structural)]
pub enum ProgramKind {
    /// A hard disk image for the Smartport card.
    HardDisk,
    /// A WOZ floppy image.
    Woz,
    /// A 16-sector floppy image in DOS or ProDOS order.
    Dsk(SystemType),
}

/// Whether `s` ends with the characters of `suffix`.
pub open spec fn ends_with_chars(s: Seq<char>, suffix: Seq<char>) -> bool {
    s.len() >= suffix.len() && s.subrange(s.len() - suffix.len(), s.len() as int) == suffix
}

/// The kind of a program file by its name, in lower case: ".hdv" a hard disk, ".woz" a
/// WOZ image, a name ending in "dsk" a DOS-order image, in "po" a ProDOS-order image.
pub open spec fn program_kind_spec(file_name: Seq<char>) -> Result<ProgramKind, Error> {
    lowered_program_kind(unicode_lowercase(file_name))
}

/// The kind of a program file by its name already in lower case.
pub open spec fn lowered_program_kind(lower: Seq<char>) -> Result<ProgramKind, Error> {
    if ends_with_chars(lower, seq!['.', 'h', 'd', 'v']) {
        Ok(ProgramKind::HardDisk)
    } else if ends_with_chars(lower, seq!['.', 'w', 'o', 'z']) {
        Ok(ProgramKind::Woz)
    } else if ends_with_chars(lower, seq!['d', 's', 'k']) {
        Ok(ProgramKind::Dsk(SystemType::Dos))
    } else if ends_with_chars(lower, seq!['p', 'o']) {
        Ok(ProgramKind::Dsk(SystemType::ProDos))
    } else {
        Err(Error::UnsupportedProgramType)
    }
}

/// Whether `s` ends with `suffix`.
fn ends_with(s: &str, suffix: &[char]) -> (r: bool)
    ensures
        r == ends_with_chars(s@, suffix@),
{
    let n = s.unicode_len();
    let m = suffix.len();
    if n < m {
        return false;
    }
    let mut i: usize = 0;
    while i < m
        invariant
            i <= m,
            m <= n,
            n == s@.len(),
            m == suffix@.len(),
            forall|k: int| 0 <= k < i ==> s@[n - m + k] == suffix@[k],
        decreases m - i,
    {
        if s.get_char(n - m + i) != suffix[i] {
            assert(s@.subrange(n - m, n as int)[i as int] != suffix@[i as int]);
            return false;
        }
        i += 1;
    }
    assert(s@.subrange(n - m, n as int) =~= suffix@);
    true
}

/// The kind of a program file by its name.
pub fn program_kind(file_name: &str) -> (r: Result<ProgramKind, Error>)
    ensures
        r == program_kind_spec(file_name@),
{
    let lower = lowercase(file_name);
    lowered_kind(lower.as_str())
}

/// The kind of a program file by its name in lower case.
pub fn lowered_kind(l: &str) -> (r: Result<ProgramKind, Error>)
    ensures
        r == lowered_program_kind(l@),
{
    let hdv = ['.', 'h', 'd', 'v'];
    let woz = ['.', 'w', 'o', 'z'];
    let dsk = ['d', 's', 'k'];
    let po = ['p', 'o'];
    assert(hdv@ =~= seq!['.', 'h', 'd', 'v']);
    assert(woz@ =~= seq!['.', 'w', 'o', 'z']);
    assert(dsk@ =~= seq!['d', 's', 'k']);
    assert(po@ =~= seq!['p', 'o']);
    if ends_with(l, &hdv) {
        Ok(ProgramKind::HardDisk)
    } else if ends_with(l, &woz) {
        Ok(ProgramKind::Woz)
    } else if ends_with(l, &dsk) {
        Ok(ProgramKind::Dsk(SystemType::Dos))
    } else if ends_with(l, &po) {
        Ok(ProgramKind::Dsk(SystemType::ProDos))
    } else {
        Err(Error::UnsupportedProgramType)
    }
}

/// Whether `reader` holds the floppy that the file `name` with bytes `data` loads: the
/// WOZ image parsed, or the 16-sector image made into a WOZ disk, its head at bit 0.
pub open spec fn floppy_loaded(name: Seq<char>, data: Seq<u8>, reader: WozDiskReader) -> bool {
    &&& reader.bit_index == 0
    &&& match program_kind_spec(name) {
        Ok(ProgramKind::Woz) => woz_parsed(Ok(reader.disk), data),
        Ok(ProgramKind::Dsk(order)) => dsk_disk(reader.disk, data, order, 0),
        _ => false,
    }
}

/// Reads a floppy image by its file name: a WOZ image is parsed, a 16-sector image made
/// into a WOZ disk; any other kind is not a floppy.
pub fn load_disk_file(file_name: &str, data: Vec<u8>) -> (r: Result<WozDiskReader, Error>)
    requires
        program_kind_spec(file_name@) == Ok::<ProgramKind, Error>(ProgramKind::Woz) ==> data@.len() >= 12,
    ensures
        program_kind_spec(file_name@) is Err ==> r == Err::<WozDiskReader, Error>(Error::UnsupportedProgramType),
        program_kind_spec(file_name@) == Ok::<ProgramKind, Error>(ProgramKind::HardDisk) ==> r == Err::<WozDiskReader, Error>(
            Error::UnsupportedProgramType,
        ),
        program_kind_spec(file_name@) == Ok::<ProgramKind, Error>(ProgramKind::Woz) ==> match r {
            Ok(reader) => woz_parsed(Ok(reader.disk), data@) && reader.bit_index == 0,
            Err(e) => woz_parsed(Err(e), data@),
        },
        program_kind_spec(file_name@) matches Ok(ProgramKind::Dsk(_)) ==> {
            &&& data@.len() < 143360 ==> r == Err::<WozDiskReader, Error>(Error::UnexpectedEof)
            &&& data@.len() >= 143360 ==> (r matches Ok(reader) && reader.disk.tracks_wf())
        },
        r matches Ok(reader) ==> floppy_loaded(file_name@, data@, reader),
{
    match program_kind(file_name) {
        Ok(ProgramKind::Woz) => match WozDisk::parse(data.as_slice()) {
            Ok(disk) => Ok(WozDiskReader::new(disk)),
            Err(e) => Err(e),
        },
        Ok(ProgramKind::Dsk(system_type)) => {
            let dsk = DskFile::new_16_sector(data, system_type);
            let ghost image = dsk.image();
            match WozDisk::try_from(dsk) {
                Ok(disk) => {
                    proof {
                        let tc = disk.chunks@[1]->Tracks_0;
                        lemma_dsk_disk_tracks_wf(disk, tc, image, system_type, 0);
                    }
                    Ok(WozDiskReader::new(disk))
                },
                Err(e) => Err(e),
            }
        },
        _ => Err(Error::UnsupportedProgramType),
    }
}

/// The machines that can be chosen (the IIc is not offered yet).
pub struct TargetFactory {}

impl TargetFactory {
    /// The Apple II family.
    pub fn new() -> (r: TargetFactory) {
        TargetFactory {}
    }

    /// The family's name.
    pub fn name(&self) -> (r: &'static str)
        ensures
            r@ == "Apple II"@,
    {
        "Apple II"
    }

    /// The machines offered: Apple II, Apple IIe and enhanced Apple IIe.
    pub fn get_types(&self) -> (r: Vec<EmulatorTargetType>)
        ensures
            r@.len() == 3,
            r@[0].name@ == "Apple II"@ && r@[0].id@ == TARGET_APPLE_II@,
            r@[1].name@ == "Apple IIe"@ && r@[1].id@ == TARGET_APPLE_IIE@,
            r@[2].name@ == "Apple IIe Enhanced"@ && r@[2].id@ == TARGET_APPLE_IIE_ENHANCED@,
    {
        let mut v: Vec<EmulatorTargetType> = Vec::new();
        v.push(EmulatorTargetType { name: "Apple II", id: TARGET_APPLE_II });
        v.push(EmulatorTargetType { name: "Apple IIe", id: TARGET_APPLE_IIE });
        v.push(EmulatorTargetType { name: "Apple IIe Enhanced", id: TARGET_APPLE_IIE_ENHANCED });
        v
    }

    /// How to run the machine with id `id`, with its built-in ROMs; none for an unknown
    /// id.
    pub fn create(&self, id: &str) -> (r: Option<RunArgs>)
        ensures
            id@ == TARGET_APPLE_II@ ==> (r matches Some(a) && a.variant is AppleII),
            id@ == TARGET_APPLE_IIC@ ==> (r matches Some(a) && a.variant is AppleIIC),
            id@ == TARGET_APPLE_IIE@ ==> (r matches Some(a) && a.variant is AppleIIE),
            id@ == TARGET_APPLE_IIE_ENHANCED@ ==> (r matches Some(a) && a.variant is AppleIIEEnhanced),
            id@ != TARGET_APPLE_II@ && id@ != TARGET_APPLE_IIC@ && id@ != TARGET_APPLE_IIE@ && id@
                != TARGET_APPLE_IIE_ENHANCED@ ==> r is None,
            r matches Some(a) ==> a.program_rom is None && a.serial_port is None && a.serial_force_zero_baud is None,
    {
        proof {
            reveal_strlit("apple-ii");
            reveal_strlit("apple-iic");
            reveal_strlit("apple-iie");
            reveal_strlit("apple-iie-enhanced");
            assert(TARGET_APPLE_II@.len() == 8);
            assert(TARGET_APPLE_IIC@.len() == 9);
            assert(TARGET_APPLE_IIE@.len() == 9);
            assert(TARGET_APPLE_IIE_ENHANCED@.len() == 18);
            assert(TARGET_APPLE_IIC@[8] != TARGET_APPLE_IIE@[8]);
        }
        let variant = if str_eq(id, TARGET_APPLE_II) {
            Variant::AppleII(AppleIIArgs::default_args())
        } else if str_eq(id, TARGET_APPLE_IIC) {
            Variant::AppleIIC(AppleIICArgs { rom_c0: None })
        } else if str_eq(id, TARGET_APPLE_IIE) {
            Variant::AppleIIE(AppleIIEArgs { rom_c0: None, rom_e0: None })
        } else if str_eq(id, TARGET_APPLE_IIE_ENHANCED) {
            Variant::AppleIIEEnhanced(AppleIIEEnhancedArgs { rom_c0: None, rom_e0: None })
        } else {
            return None;
        };
        Some(RunArgs { variant, program_rom: None, serial_port: None, serial_force_zero_baud: None })
    }
}

/// Switches the Apple IIc ROM bank when software touches the IICROM switch.
pub struct IICBankSwitchListener {}

impl IICBankSwitchListener {
    /// The listener.
    pub fn new() -> (r: IICBankSwitchListener) {
        IICBankSwitchListener {}
    }

    /// A soft switch changed: IICROM flips the ROM bank, others do nothing.
    pub fn on_updated(&self, update: SwitchUpdate, switcher: &mut AppleIICBankSwitcher)
        ensures
            final(switcher).rom_spec() == old(switcher).rom_spec(),
            final(switcher).rom_read_only() == old(switcher).rom_read_only(),
            final(switcher).main_spec() == (if update.switch == Switch::Iicrom {
                !old(switcher).main_spec()
            } else {
                old(switcher).main_spec()
            }),
    {
        if update.switch == Switch::Iicrom {
            switcher.toggle_bank();
        }
    }
}

/// The memory breakpoints: a read of one of these addresses breaks into the debugger, a
/// write halts the processor.
pub struct MemoryBreakpointListener {
    pub breakpoints: Vec<usize>,
}

impl MemoryBreakpointListener {
    /// No breakpoints.
    pub fn new() -> (r: MemoryBreakpointListener)
        ensures
            r.breakpoints@ == Seq::<usize>::empty(),
    {
        MemoryBreakpointListener { breakpoints: Vec::new() }
    }

    /// Whether `address` is a breakpoint.
    pub fn contains(&self, address: usize) -> (r: bool)
        ensures
            r == self.breakpoints@.contains(address),
    {
        let mut i: usize = 0;
        while i < self.breakpoints.len()
            invariant
                i <= self.breakpoints@.len(),
                forall|k: int| 0 <= k < i ==> self.breakpoints@[k] != address,
            decreases self.breakpoints@.len() - i,
        {
            if self.breakpoints[i] == address {
                return true;
            }
            i += 1;
        }
        false
    }

    /// Adds a breakpoint (once).
    pub fn add_memory_breakpoint(&mut self, address: usize) -> (r: Result<(), Error>)
        ensures
            r is Ok,
            final(self).breakpoints@.to_set() == old(self).breakpoints@.to_set().insert(address),
            old(self).breakpoints@.no_duplicates() ==> final(self).breakpoints@.no_duplicates(),
    {
        if !self.contains(address) {
            self.breakpoints.push(address);
            assert(self.breakpoints@.to_set() =~= old(self).breakpoints@.to_set().insert(address)) by {
                assert forall|x: usize| self.breakpoints@.contains(x) <==> (old(self).breakpoints@.contains(x) || x == address) by {
                    if x == address {
                        assert(self.breakpoints@[self.breakpoints@.len() - 1] == address);
                    }
                    if old(self).breakpoints@.contains(x) {
                        let k = choose|k: int| 0 <= k < old(self).breakpoints@.len() && old(self).breakpoints@[k] == x;
                        assert(self.breakpoints@[k] == x);
                    }
                }
            }
        } else {
            assert(self.breakpoints@.to_set() =~= old(self).breakpoints@.to_set().insert(address));
        }
        Ok(())
    }

    /// The breakpoints, in the order they were added.
    pub fn list_memory_breakpoints(&self) -> (r: Result<Vec<usize>, Error>)
        ensures
            r matches Ok(v) && v@ == self.breakpoints@,
    {
        Ok(self.breakpoints.clone())
    }

    /// Removes a breakpoint.
    pub fn delete_memory_breakpoint(&mut self, address: usize) -> (r: Result<(), Error>)
        ensures
            r is Ok,
            final(self).breakpoints@ == old(self).breakpoints@.filter(|b: usize| b != address),
    {
        let mut kept: Vec<usize> = Vec::new();
        let mut i: usize = 0;
        while i < self.breakpoints.len()
            invariant
                i <= self.breakpoints@.len(),
                self.breakpoints@ == old(self).breakpoints@,
                kept@ == self.breakpoints@.take(i as int).filter(|b: usize| b != address),
            decreases self.breakpoints@.len() - i,
        {
            let b = self.breakpoints[i];
            proof {
                let s = self.breakpoints@.take(i + 1);
                assert(s.drop_last() == self.breakpoints@.take(i as int));
                assert(s.last() == b);
                reveal(Seq::filter);
            }
            if b != address {
                kept.push(b);
            }
            i += 1;
        }
        assert(self.breakpoints@.take(i as int) == self.breakpoints@);
        self.breakpoints = kept;
        Ok(())
    }

    /// A read of `address`: at a breakpoint, the processor breaks into the debugger. The
    /// read itself is left to the bus.
    pub fn read(&self, address: usize, cpu: &mut Mos6502) -> (r: Result<Option<u8>, Error>)
        ensures
            r == Ok::<Option<u8>, Error>(None),
            self.breakpoints@.contains(address) ==> final(cpu)@ == (mos6502::CpuView {
                request: mos6502::ExecutionRequest::ForceBreak,
                ..old(cpu)@
            }),
            !self.breakpoints@.contains(address) ==> final(cpu)@ == old(cpu)@,
            final(cpu).clock_rate() == old(cpu).clock_rate(),
    {
        if self.contains(address) {
            let _ = cpu.force_break();
        }
        Ok(None)
    }

    /// A write to `address`: at a breakpoint, the processor halts. The write itself is
    /// left to the bus.
    pub fn write(&self, address: usize, data: u8, cpu: &mut Mos6502) -> (r: Result<Option<()>, Error>)
        ensures
            r == Ok::<Option<()>, Error>(None),
            self.breakpoints@.contains(address) ==> final(cpu)@ == (mos6502::CpuView {
                request: mos6502::ExecutionRequest::Halt,
                ..old(cpu)@
            }),
            !self.breakpoints@.contains(address) ==> final(cpu)@ == old(cpu)@,
            final(cpu).clock_rate() == old(cpu).clock_rate(),
    {
        if self.contains(address) {
            let _ = cpu.halt();
        }
        Ok(None)
    }
}

} // verus!

verus! {

/// The ROM images a machine is built from: the system ROMs (Apple II: F8, D0, D8, E0, E8,
/// F0; Apple IIe and enhanced IIe: C0, E0; Apple IIc: C0), the character generator, and the
/// ROMs of the language card, serial card, mouse card, Smartport card and Disk II card.
pub struct TargetRoms {
    pub system: Vec<Vec<u8>>,
    pub character: Vec<u8>,
    pub language_card: Vec<u8>,
    pub super_serial: Vec<u8>,
    pub mouse: Vec<u8>,
    pub smartport: Vec<u8>,
    pub diskii: Vec<u8>,
}

/// How many system ROM images a machine takes.
pub open spec fn system_rom_count(v: Variant) -> nat {
    match v {
        Variant::AppleII(_) => 6,
        Variant::AppleIIE(_) => 2,
        Variant::AppleIIEEnhanced(_) => 2,
        Variant::AppleIIC(_) => 1,
    }
}

/// The ROM images fit the machine: its system ROMs, a character generator of 256
/// characters, and a 2K serial card ROM.
pub open spec fn roms_fit(v: Variant, roms: TargetRoms) -> bool {
    &&& roms.system@.len() == system_rom_count(v)
    &&& roms.character@.len() >= 2048
    &&& roms.super_serial@.len() >= 0x800
}

/// The Disk II timing at the Apple II clock: a bit every 4 cycles once 5 have passed (4
/// microseconds), a byte valid for 7 cycles, reading for a second after the motor stops,
/// a written bit every 4 cycles.
pub open spec fn apple_disk_timing() -> DiskTiming {
    DiskTiming { bit_step: 4, bit_threshold: 5, data_valid: 7, motor_off: 1022727, write_bit: 4 }
}

/// An Apple II: the processor with its memory, the soft switches and I/O devices, the cards
/// in the slots, the video, and what watches them.
pub struct Target {
    pub cpu: Mos6502,
    pub soft_switches: SoftSwitches,
    pub keyboard: Keyboard,
    pub misc_io: MiscIo,
    pub language_card: LanguageCard,
    pub extended_text: Option<Extended80ColumnText>,
    pub peripheral_manager: PeripheralManager,
    pub internal_rom: Option<MemoryBank>,
    pub iic_bank_switcher: Option<AppleIICBankSwitcher>,
    pub diskii: DiskIIPeripheral,
    pub smartport: Smartport,
    pub mouse: MouseCard,
    pub super_serial: SuperSerialCard,
    pub video: Video,
    pub vbl: VblTickListener,
    pub video7: Video7Listener,
    pub iic_listener: IICBankSwitchListener,
    pub memory_breakpoint_listener: MemoryBreakpointListener,
    pub speaker_toggles: u64,
    pub serial_actions: Vec<SerialAction>,
    pub ram_index: usize,
    pub target_type_id: String,
}

/// The machine is consistent: all memory mapped, RAM where it was connected, the cards and
/// listeners in working order.
pub open spec fn target_wf(t: Target) -> bool {
    &&& fully_mapped(t.cpu@.bus)
    &&& t.language_card.wf()
    &&& (t.extended_text matches Some(x) ==> x.wf())
    &&& drive_wf(t.diskii@)
    &&& t.video.wf()
    &&& t.mouse.slot_spec() < 8
    &&& t.peripheral_manager@.peripherals.len() == 8
    &&& t.soft_switches@.len() == 21
    &&& (forall|i: int| 0 <= i < t.video7.state_machines@.len() ==> fsm_wf(#[trigger] t.video7.state_machines@[i]))
    &&& (t.internal_rom matches Some(r) ==> r@.len() >= 0x1000)
    &&& t.language_card.rom_spec().len() >= 0x100
}

/// Which part of the machine answers an address (when neither the auxiliary memory nor
/// the language card takes it): the keyboard, the speaker, the soft switches, the game
/// switches, the slot area, the Apple IIc ROM, or memory.
#[derive(Debug, Clone, Copy, PartialEq, Eq, Structural)]
pub enum BusTarget {
    Keyboard(usize),
    Speaker,
    SoftSwitches(usize),
    MiscIo(usize),
    Peripheral(usize),
    IicRom(usize),
    Memory,
}

/// Which part of the machine answers `address`, in the order the parts are connected.
pub open spec fn bus_target(iic: bool, address: u16) -> BusTarget {
    if address == 0xc000 {
        BusTarget::Keyboard(0)
    } else if address == 0xc010 {
        BusTarget::Keyboard(0x10)
    } else if address == 0xc030 {
        BusTarget::Speaker
    } else if 0xc000 <= address < 0xc060 {
        BusTarget::SoftSwitches(address as usize)
    } else if 0xc060 <= address < 0xc080 {
        BusTarget::MiscIo((address - 0xc060) as usize)
    } else if iic && address >= 0xc100 {
        BusTarget::IicRom((address - 0xc000) as usize)
    } else if 0xc080 <= address < 0xd000 {
        BusTarget::Peripheral((address - 0xc000) as usize)
    } else {
        BusTarget::Memory
    }
}

/// Which part of the machine answers `address`.
pub fn decode_address(iic: bool, address: u16) -> (r: BusTarget)
    ensures
        r == bus_target(iic, address),
{
    if address == 0xc000 {
        BusTarget::Keyboard(0)
    } else if address == 0xc010 {
        BusTarget::Keyboard(0x10)
    } else if address == 0xc030 {
        BusTarget::Speaker
    } else if 0xc000 <= address && address < 0xc060 {
        BusTarget::SoftSwitches(address as usize)
    } else if 0xc060 <= address && address < 0xc080 {
        BusTarget::MiscIo((address - 0xc060) as usize)
    } else if iic && address >= 0xc100 {
        BusTarget::IicRom((address - 0xc000) as usize)
    } else if 0xc080 <= address && address < 0xd000 {
        BusTarget::Peripheral((address - 0xc000) as usize)
    } else {
        BusTarget::Memory
    }
}

} // verus!

verus! {

/// `n` zero bytes.
pub open spec fn zero_bytes(n: nat) -> Seq<u8> {
    Seq::new(n, |i: int| 0u8)
}

/// Whether the machine is a IIe whose first system ROM is too short to hold the internal
/// ROM of 0xc000-0xcfff.
pub open spec fn internal_rom_short(v: Variant, roms: TargetRoms) -> bool {
    (v is AppleIIE || v is AppleIIEEnhanced) && roms.system@[0]@.len() < 0x1000
}

/// The banks on the processor's bus of a newly built machine, in the order they are
/// connected: the system ROMs where the machine puts them, then the 48K of RAM and the
/// RAM of 0xc000-0xcfff.
pub open spec fn built_bus(v: Variant, roms: TargetRoms) -> Seq<SlaveView> {
    let sys = roms.system@;
    let system = match v {
        Variant::AppleII(_) => seq![
            connection_view(0xf800, 0xf800, 0x800, sys[0]@, true),
            connection_view(0xd000, 0xd000, 0x800, sys[1]@, true),
            connection_view(0xd800, 0xd800, 0x800, sys[2]@, true),
            connection_view(0xe000, 0xe000, 0x800, sys[3]@, true),
            connection_view(0xe800, 0xe800, 0x800, sys[4]@, true),
            connection_view(0xf000, 0xf000, 0x800, sys[5]@, true),
        ],
        Variant::AppleIIC(_) => seq![connection_view(0xc100, 0xc000, 0x3f00, sys[0]@, true)],
        _ => seq![
            connection_view(0xd000, 0xc000, 0x1000, sys[0]@, true),
            connection_view(0xe000, 0xe000, 0x2000, sys[1]@, true),
        ],
    };
    system.push(connection_view(0, 0, 0xc000, zero_bytes(0xc000), false)).push(
        connection_view(0xc000, 0xc000, 0x1000, zero_bytes(0x1000), false),
    )
}

/// `address` is the lowest address that reaches no byte of the banks.
pub open spec fn first_unmapped(bus: Seq<SlaveView>, address: u16) -> bool {
    &&& !mapped(bus, address)
    &&& forall|x: u16| x < address ==> #[trigger] mapped(bus, x)
}

/// The ROM images of a machine, each a read-only bank.
fn rom_bank(data: &Vec<u8>) -> (r: MemoryBank)
    ensures
        r@ == data@,
        r.is_read_only(),
{
    MemoryBank::new_with_data(data.as_slice(), true)
}

impl Target {
    /// Builds a machine: its system ROMs and 48K of RAM on the processor's bus, the soft
    /// switches, keyboard and game switches, the language card in slot 0, the serial card
    /// in slot 1, the mouse card (slot 7 on the IIc, else 4), the Disk II in slot 6 with the
    /// disk `program` where given, the 80-column card on the IIe and IIc, the video; then
    /// resets the processor. The processor's own view of 0xc000-0xcfff is RAM holding a copy
    /// of each card's slot ROM in its page (where the processor fetches the cards' code);
    /// the devices themselves answer through `bus_read`, `bus_write` and `step`.
    pub fn new(args: &RunArgs, roms: &TargetRoms, program: Option<(&str, Vec<u8>)>) -> (r: Result<Target, Error>)
        requires
            roms_fit(args.variant, *roms),
            program matches Some(p) ==> (program_kind_spec(p.0@) == Ok::<ProgramKind, Error>(ProgramKind::Woz) ==> p.1@.len() >= 12),
        ensures
            r matches Ok(t) ==> {
                &&& target_wf(t)
                &&& t.cpu@.variant == cpu_variant_spec(args.variant)
                &&& t.peripheral_manager@.peripherals[0] == Some(PeripheralKind::LanguageCard)
                &&& t.peripheral_manager@.peripherals[1] == Some(PeripheralKind::SuperSerialCard)
                &&& t.peripheral_manager@.peripherals[6] == Some(PeripheralKind::DiskII)
                &&& t.peripheral_manager@.peripherals[(if args.variant is AppleIIC { 7int } else { 4int })] == Some(PeripheralKind::MouseCard)
                &&& (t.extended_text is Some <==> !(args.variant is AppleII))
                &&& (t.iic_bank_switcher is Some <==> args.variant is AppleIIC)
                &&& t.cpu.clock_rate() == CLOCK_RATE_HZ
                &&& t.cpu@ == with_writes(
                    reset_spec(fresh_cpu_view(args.variant, built_bus(args.variant, *roms))),
                    slot_rom_writes(t, 8),
                )
                &&& t.target_type_id@ == type_id_spec(args.variant)
                &&& t.peripheral_manager@.peripherals.len() == 8
                &&& forall|s: int| 0 <= s < 8 && s != 0 && s != 1 && s != 6 && s != (if args.variant is AppleIIC { 7int } else { 4int })
                    ==> #[trigger] t.peripheral_manager@.peripherals[s] is None
                &&& (t.internal_rom matches Some(r) ==> r@ == roms.system@[0]@)
                &&& t.soft_switches@ == reset_switch_values()
                &&& t.keyboard@ == (KeyboardView { key: 0, pressed_keys: Seq::empty(), caps_lock: true })
                &&& t.language_card.config_spec() == default_bank_config()
                &&& t.language_card.bank1_spec() == Seq::new(4096, |i: int| 0u8)
                &&& t.language_card.bank2_spec() == Seq::new(4096, |i: int| 0u8)
                &&& t.language_card.ram_spec() == Seq::new(8192, |i: int| 0u8)
                &&& t.language_card.rom_spec() == roms.language_card@
                &&& serial_default(t.super_serial@)
                &&& mouse_default(t.mouse@)
                &&& t.mouse.slot_spec() == (if args.variant is AppleIIC { 7usize } else { 4usize })
                &&& t.smartport@ == (SmartportView {
                    data: Seq::empty(),
                    dispatch_x: 0,
                    dispatch_y: 0,
                    smartport_args: SmartportArgs { command: 0, param_list: 0 },
                })
                &&& t.video.video_mode_spec() == VideoMode::Implied
                &&& t.video.monitor_type_spec() == MonitorType::Color
                &&& t.video.frame_view() == Seq::new(215040, |i: int| black())
                &&& !t.video.blink_spec()
                &&& t.memory_breakpoint_listener.breakpoints@ == Seq::<usize>::empty()
                &&& t.speaker_toggles == 0
                &&& t.serial_actions@ == Seq::<SerialAction>::empty()
                &&& program is None ==> t.diskii@ == initial_spec(0, None)
                &&& program matches Some(p) ==> exists|reader: WozDiskReader| #[trigger] floppy_loaded(p.0@, p.1@, reader)
                    && t.diskii@ == initial_spec(0, Some(drive_disk_of(reader)))
            },
            internal_rom_short(args.variant, *roms) ==> r == Err::<Target, Error>(Error::UnmappedAddress { address: 0xc000 }),
            !internal_rom_short(args.variant, *roms) && !fully_mapped(built_bus(args.variant, *roms)) ==> (r matches Err(
                Error::UnmappedAddress { address },
            ) && first_unmapped(built_bus(args.variant, *roms), address)),
            !internal_rom_short(args.variant, *roms) && fully_mapped(built_bus(args.variant, *roms))
                && roms.language_card@.len() < 0x100 ==> r == Err::<Target, Error>(Error::InvalidSize),
            !internal_rom_short(args.variant, *roms) && fully_mapped(built_bus(args.variant, *roms))
                && roms.language_card@.len() >= 0x100 ==> match program {
                None => r is Ok,
                Some(p) => match program_kind_spec(p.0@) {
                    Ok(ProgramKind::Woz) => {
                        &&& forall|e: Error| #[trigger] woz_parsed(Err(e), p.1@) ==> r == Err::<Target, Error>(e)
                        &&& forall|d: WozDisk| #[trigger] woz_parsed(Ok(d), p.1@) ==> (if d.tracks_wf() {
                            r is Ok
                        } else {
                            r == Err::<Target, Error>(Error::InvalidTrackBlock)
                        })
                    },
                    Ok(ProgramKind::Dsk(_)) => if p.1@.len() < 143360 {
                        r == Err::<Target, Error>(Error::UnexpectedEof)
                    } else {
                        r is Ok
                    },
                    _ => r == Err::<Target, Error>(Error::UnsupportedProgramType),
                },
            },
    {
        let mut bus = Bus::new();
        let mut internal_rom: Option<MemoryBank> = None;
        let mut iic_bank_switcher: Option<AppleIICBankSwitcher> = None;
        let iic = match &args.variant {
            Variant::AppleIIC(_) => true,
            _ => false,
        };
        match &args.variant {
            Variant::AppleII(_) => {
                bus.connect(BUS_ROM_F8_BANK_START_ADDRESS, 0x800, rom_bank(&roms.system[0]));
                bus.connect(0xd000, 0x800, rom_bank(&roms.system[1]));
                bus.connect(0xd800, 0x800, rom_bank(&roms.system[2]));
                bus.connect(0xe000, 0x800, rom_bank(&roms.system[3]));
                bus.connect(0xe800, 0x800, rom_bank(&roms.system[4]));
                bus.connect(0xf000, 0x800, rom_bank(&roms.system[5]));
            },
            Variant::AppleIIC(_) => {
                bus.connect_map(0xc100, 0xc000, 0x4000 - 0x100, rom_bank(&roms.system[0]));
                iic_bank_switcher = Some(AppleIICBankSwitcher::new(rom_bank(&roms.system[0])));
            },
            _ => {
                bus.connect_map(0xd000, 0xc000, 0x1000, rom_bank(&roms.system[0]));
                bus.connect(0xe000, 0x2000, rom_bank(&roms.system[1]));
                if roms.system[0].len() < 0x1000 {
                    return Err(Error::UnmappedAddress { address: 0xc000 });
                }
                internal_rom = Some(rom_bank(&roms.system[0]));
            },
        }
        let ram_index = bus.len();
        let ram = MemoryBank::new(BUS_RAM_SIZE, false);
        assert(ram@ =~= zero_bytes(0xc000));
        bus.connect(BUS_RAM_START_ADDRESS, BUS_RAM_SIZE, ram);
        let slot_area = MemoryBank::new(0x1000, false);
        assert(slot_area@ =~= zero_bytes(0x1000));
        bus.connect(0xc000, 0x1000, slot_area);
        assert(bus@ =~= built_bus(args.variant, *roms));
        assert(!internal_rom_short(args.variant, *roms));
        let mut a: u32 = 0;
        while a < 0x10000
            invariant
                a <= 0x10000,
                forall|x: u16| (x as u32) < a ==> #[trigger] mapped(bus@, x),
                bus@ == built_bus(args.variant, *roms),
                !internal_rom_short(args.variant, *roms),
            decreases 0x10000 - a,
        {
            if !bus.maps(a as u16) {
                return Err(Error::UnmappedAddress { address: a as u16 });
            }
            a += 1;
        }
        let mut cpu = new_cpu(&args.variant, bus);
        let mut soft_switches = SoftSwitches::new();
        let language_card = LanguageCard::new(roms.language_card.as_slice());
        if roms.language_card.len() < 0x100 {
            return Err(Error::InvalidSize);
        }
        let extended_text = if iic || internal_rom.is_some() { Some(Extended80ColumnText::new()) } else { None };
        let mut peripheral_manager = PeripheralManager::new(internal_rom.is_some() || iic);
        let _ = peripheral_manager.assign(0, PeripheralKind::LanguageCard);
        let super_serial = SuperSerialCard::new(roms.super_serial.as_slice());
        let _ = peripheral_manager.assign(1, PeripheralKind::SuperSerialCard);
        let slot = mouse_slot(&args.variant);
        let mouse = MouseCard::new(roms.mouse.as_slice(), slot);
        let _ = peripheral_manager.assign(slot, PeripheralKind::MouseCard);
        let smartport = Smartport::new(roms.smartport.as_slice());
        let mut diskii = DiskIIPeripheral::new(rom_bank(&roms.diskii), 0);
        let _ = peripheral_manager.assign(DISK_SLOT, PeripheralKind::DiskII);
        match program {
            Some((name, data)) => {
                let ghost image = data@;
                let disk = match load_disk_file(name, data) {
                    Ok(d) => d,
                    Err(e) => return Err(e),
                };
                proof {
                    if program_kind_spec(name@) == Ok::<ProgramKind, Error>(ProgramKind::Woz) {
                        assert forall|d: WozDisk| #[trigger] woz_parsed(Ok(d), image) implies d.tracks_wf() == disk.disk.tracks_wf() by {
                            lemma_woz_tracks_wf_unique(d, disk.disk, image);
                        }
                    }
                }
                if !disk.disk.tracks_valid() {
                    return Err(Error::InvalidTrackBlock);
                }
                assert(floppy_loaded(name@, image, disk));
                diskii.attach(disk);
            },
            None => {},
        }
        let enhanced = !(match &args.variant {
            Variant::AppleII(_) => true,
            _ => false,
        });
        let video = Video::new(CharacterROM::new(roms.character.as_slice(), enhanced, enhanced, enhanced));
        cpu.reset();
        let target_type_id = target_type_id(&args.variant).to_owned();
        let mut target = Target {
            cpu,
            soft_switches,
            keyboard: Keyboard::new(),
            misc_io: MiscIo::new(),
            language_card,
            extended_text,
            peripheral_manager,
            internal_rom,
            iic_bank_switcher,
            diskii,
            smartport,
            mouse,
            super_serial,
            video,
            vbl: VblTickListener::new(0),
            video7: Video7Listener::new(),
            iic_listener: IICBankSwitchListener::new(),
            memory_breakpoint_listener: MemoryBreakpointListener::new(),
            speaker_toggles: 0,
            serial_actions: Vec::new(),
            ram_index,
            target_type_id,
        };
        let ghost before = target;
        target.fill_slot_roms();
        proof {
            lemma_slot_rom_writes_cpu(target, before, 8);
        }
        Ok(target)
    }
}

} // verus!

verus! {

/// What a read of `address` gives where the memory or a switch decides it alone (`None`
/// where a card's register or ROM answers).
pub open spec fn bus_read_known(t: Target, address: u16) -> Option<Result<u8, Error>> {
    let sw = t.soft_switches@;
    let config = t.language_card.config_spec();
    let aux = match t.extended_text {
        Some(x) => aux_route(address as usize, sw, config, false),
        None => AuxTarget::Pass,
    };
    if aux != AuxTarget::Pass {
        match (aux, t.extended_text) {
            (AuxTarget::Memory(a), Some(x)) => Some(Ok(x.memory_spec()[a as int])),
            (AuxTarget::Bank1(o), Some(x)) => Some(Ok(x.bank1_spec()[o as int])),
            (AuxTarget::Bank2(o), Some(x)) => Some(Ok(x.bank2_spec()[o as int])),
            _ => None,
        }
    } else if t.language_card.intercept_read_spec(address as usize) is Some {
        Some(Ok(t.language_card.intercept_read_spec(address as usize)->Some_0))
    } else {
        match bus_target(t.iic_bank_switcher is Some, address) {
            BusTarget::Memory => Some(Ok(crate::cpu::mos6502::bus::bus_read(t.cpu@.bus, address))),
            BusTarget::Keyboard(o) => Some(Ok(if o == 0 { t.keyboard@.key } else { 0u8 })),
            BusTarget::Speaker => Some(Ok(0u8)),
            BusTarget::SoftSwitches(a) => Some(Ok(update_switches_spec(sw, a, false).1)),
            BusTarget::MiscIo(o) => Some(Ok(if 1 <= o <= 3 && t.misc_io@[o - 1] { 0x80u8 } else { 0u8 })),
            BusTarget::Peripheral(o) => match peripheral_read_spec(t.peripheral_manager@, o, sw).1 {
                PeripheralRead::InternalRom(x) => match t.internal_rom {
                    Some(r) => Some(Ok(r@[x as int])),
                    None => None,
                },
                PeripheralRead::Value(v) => Some(Ok(v)),
                _ => None,
            },
            BusTarget::IicRom(_) => None,
        }
    }
}

/// The processor after an access of `address` checked the memory breakpoints: a read at a
/// breakpoint breaks into the debugger, a write halts.
pub open spec fn break_cpu(t: Target, address: u16, write: bool) -> CpuView {
    if t.memory_breakpoint_listener.breakpoints@.contains(address as usize) {
        CpuView { request: if write { ExecutionRequest::Halt } else { ExecutionRequest::ForceBreak }, ..t.cpu@ }
    } else {
        t.cpu@
    }
}

/// What a soft switch change does to the machine `t0`, giving `t1`: the Video-7 mode
/// machines step and may set the video mode, IICROM flips the IIc ROM bank; the processor
/// and the switches are stated by the caller, nothing else changes.
pub open spec fn switch_update_rel(t0: Target, t1: Target, update: SwitchUpdate) -> bool {
    let (states, mode) = listener_step(t0.video7.state_machines@, update.switch, update.value);
    &&& t1 == (Target {
        cpu: t1.cpu,
        soft_switches: t1.soft_switches,
        video7: t1.video7,
        video: t1.video,
        iic_bank_switcher: t1.iic_bank_switcher,
        ..t0
    })
    &&& t1.video7.state_machines@.len() == t0.video7.state_machines@.len()
    &&& forall|i: int| 0 <= i < t1.video7.state_machines@.len() ==> {
        &&& (#[trigger] t1.video7.state_machines@[i]).state == states[i]
        &&& t1.video7.state_machines@[i].mode == t0.video7.state_machines@[i].mode
        &&& t1.video7.state_machines@[i].states@ == t0.video7.state_machines@[i].states@
    }
    &&& t1.video.video_mode == (if mode is Some { mode->Some_0 } else { t0.video.video_mode })
    &&& t1.video.monitor_type == t0.video.monitor_type
    &&& t1.video.blink_inverted == t0.video.blink_inverted
    &&& t1.video.frame@ == t0.video.frame@
    &&& t1.video.character_rom == t0.video.character_rom
    &&& t0.iic_bank_switcher is None ==> t1.iic_bank_switcher is None
    &&& t0.iic_bank_switcher matches Some(s0) ==> (t1.iic_bank_switcher matches Some(s1) && {
        &&& s1.rom_spec() == s0.rom_spec()
        &&& s1.rom_read_only() == s0.rom_read_only()
        &&& s1.main_spec() == (if update.switch == Switch::Iicrom { !s0.main_spec() } else { s0.main_spec() })
    })
}

/// The Disk II's clock at processor state `c`: the cycle count, never before the drive's.
pub open spec fn disk_now_of(c: CpuView, t: Target) -> u64 {
    if c.cycles < t.diskii@.last_instant {
        t.diskii@.last_instant
    } else {
        c.cycles
    }
}

/// A read of device register `offset` of the card in `slot` of `t0`, the processor then
/// being `c`: the value and the machine `t1` after it. The slot manager is stated by the
/// caller.
pub open spec fn card_read_rel(t0: Target, c: CpuView, t1: Target, slot: usize, offset: usize, r: Result<u8, Error>) -> bool {
    match t0.peripheral_manager@.peripherals[slot as int] {
        None => r == Ok::<u8, Error>(0) && t1.cpu@ == c && t1 == (Target {
            cpu: t1.cpu,
            peripheral_manager: t1.peripheral_manager,
            ..t0
        }),
        Some(PeripheralKind::LanguageCard) => {
            &&& r == Ok::<u8, Error>(0)
            &&& t1.language_card.config_spec() == handle_access_spec(t0.language_card.config_spec(), offset)
            &&& t1.language_card.bank1_spec() == t0.language_card.bank1_spec()
            &&& t1.language_card.bank2_spec() == t0.language_card.bank2_spec()
            &&& t1.language_card.ram_spec() == t0.language_card.ram_spec()
            &&& t1.language_card.rom_spec() == t0.language_card.rom_spec()
            &&& t1.soft_switches@ == config_switches(t0.soft_switches@, t1.language_card.config_spec())
            &&& t1.cpu@ == c
            &&& t1 == (Target {
                cpu: t1.cpu,
                peripheral_manager: t1.peripheral_manager,
                language_card: t1.language_card,
                soft_switches: t1.soft_switches,
                ..t0
            })
        },
        Some(PeripheralKind::SuperSerialCard) => {
            let (s, v, release) = serial_read_spec(t0.super_serial@, offset);
            &&& r == Ok::<u8, Error>(v)
            &&& t1.super_serial@ == s
            &&& t1.cpu@ == released(c, SERIAL_IRQ_SOURCE, release)
            &&& t1 == (Target {
                cpu: t1.cpu,
                peripheral_manager: t1.peripheral_manager,
                super_serial: t1.super_serial,
                ..t0
            })
        },
        Some(PeripheralKind::MouseCard) => {
            let (m, v, release) = mouse_read_spec(t0.mouse@, offset);
            &&& r == Ok::<u8, Error>(v)
            &&& t1.mouse@ == m
            &&& t1.cpu@ == released(c, INTERRUPT_SOURCE_MOUSE, release)
            &&& t1 == (Target { cpu: t1.cpu, peripheral_manager: t1.peripheral_manager, mouse: t1.mouse, ..t0 })
        },
        Some(PeripheralKind::Smartport) => {
            let (sp, writes, v) = smartport_read_spec(t0.smartport@, c, offset);
            &&& r == Ok::<u8, Error>(v)
            &&& t1.smartport@ == sp
            &&& t1.cpu@ == with_writes(c, writes)
            &&& t1 == (Target {
                cpu: t1.cpu,
                peripheral_manager: t1.peripheral_manager,
                smartport: t1.smartport,
                ..t0
            })
        },
        Some(PeripheralKind::DiskII) => {
            &&& (t1.diskii@, r) == diskii_read_spec(t0.diskii@, offset, disk_now_of(c, t0), apple_disk_timing())
            &&& t1.cpu@ == c
            &&& t1 == (Target { cpu: t1.cpu, peripheral_manager: t1.peripheral_manager, diskii: t1.diskii, ..t0 })
        },
    }
}

/// What a read through the slot area gives where no card register answers: a byte of the
/// internal ROM, a fixed value, a slot ROM byte or an expansion ROM byte.
pub open spec fn peripheral_value(t: Target, pr: PeripheralRead) -> Result<u8, Error> {
    match pr {
        PeripheralRead::InternalRom(x) => match t.internal_rom {
            Some(r) => rom_byte(r@, x),
            None => Ok(0),
        },
        PeripheralRead::Value(v) => Ok(v),
        PeripheralRead::SlotRom { slot, offset } => card_rom_spec(t, slot, offset),
        PeripheralRead::ExpansionRom { slot, offset, fallback } => match card_expansion_rom_spec(t, slot, offset) {
            Ok(Some(v)) => Ok(v),
            Ok(None) => if fallback {
                match t.internal_rom {
                    Some(r) => rom_byte(r@, (offset + 0x800) as usize),
                    None => Ok(0),
                }
            } else {
                Ok(0)
            },
            Err(e) => Err(e),
        },
        PeripheralRead::Device { .. } => Ok(0),
    }
}

/// What the IIc ROM gives at `offset` of the slot area and above.
pub open spec fn iic_rom_value(t: Target, offset: usize) -> Result<u8, Error> {
    match t.iic_bank_switcher {
        Some(s) => {
            let a = if s.main_spec() { offset } else { (offset + 0x4000) as usize };
            rom_byte(s.rom_spec(), a)
        },
        None => Ok(0),
    }
}

/// A read of `address` through the machine's bus, from machine `t0`: the value `r` and
/// the machine `t1` after it. A memory breakpoint breaks into the debugger; the auxiliary
/// memory, then the language card may take the read; else the part that answers the
/// address does: the processor's memory, the keyboard, the speaker, a soft switch (whose
/// change the video and the IIc ROM bank follow), the game switches, the IIc ROM, or the
/// slot area (internal ROM, a card's ROM or a card's registers).
pub open spec fn bus_read_rel(t0: Target, t1: Target, address: u16, r: Result<u8, Error>) -> bool {
    let c = break_cpu(t0, address, false);
    let sw = t0.soft_switches@;
    if !read_reaches_device(t0, address) {
        r == bus_read_known(t0, address)->Some_0 && t1.cpu@ == c && t1 == (Target { cpu: t1.cpu, ..t0 })
    } else {
        match bus_target(t0.iic_bank_switcher is Some, address) {
            BusTarget::SoftSwitches(a) => {
                let (sw1, v, update) = update_switches_spec(sw, a, false);
                &&& r == Ok::<u8, Error>(v)
                &&& t1.soft_switches@ == sw1
                &&& t1.cpu@ == c
                &&& match update {
                    None => t1 == (Target { cpu: t1.cpu, soft_switches: t1.soft_switches, ..t0 }),
                    Some(u) => switch_update_rel(t0, t1, u),
                }
            },
            BusTarget::Keyboard(o) => {
                &&& r == Ok::<u8, Error>(if o == 0 { t0.keyboard@.key } else { 0u8 })
                &&& t1.keyboard@ == (if o == 0x10 { clear_strobe_spec(t0.keyboard@) } else { t0.keyboard@ })
                &&& t1.cpu@ == c
                &&& t1 == (Target { cpu: t1.cpu, keyboard: t1.keyboard, ..t0 })
            },
            BusTarget::Speaker => {
                &&& r == Ok::<u8, Error>(0)
                &&& t1.speaker_toggles == t0.speaker_toggles.wrapping_add(1)
                &&& t1.cpu@ == c
                &&& t1 == (Target { cpu: t1.cpu, speaker_toggles: t1.speaker_toggles, ..t0 })
            },
            BusTarget::IicRom(o) => r == iic_rom_value(t0, o) && t1.cpu@ == c && t1 == (Target { cpu: t1.cpu, ..t0 }),
            BusTarget::Peripheral(o) => {
                let (pm1, pr) = peripheral_read_spec(t0.peripheral_manager@, o, sw);
                &&& t1.peripheral_manager@ == pm1
                &&& match pr {
                    PeripheralRead::Device { slot, offset } => card_read_rel(t0, c, t1, slot, offset, r),
                    _ => r == peripheral_value(t0, pr) && t1.cpu@ == c && t1 == (Target {
                        cpu: t1.cpu,
                        peripheral_manager: t1.peripheral_manager,
                        ..t0
                    }),
                }
            },
            _ => r == bus_read_known(t0, address)->Some_0 && t1.cpu@ == c && t1 == (Target { cpu: t1.cpu, ..t0 }),
        }
    }
}

/// The vertical blank check at the processor's cycle count, from machine `t0` to `t1`:
/// entering the blank draws the frame (where the main RAM is on the bus) and tells the
/// mouse card, which may raise its interrupt.
pub open spec fn tick_rel(t0: Target, t1: Target) -> bool {
    let (l, sw, entered) = vbl_tick_spec(t0.vbl, t0.soft_switches@, t0.cpu@.cycles);
    let drawn = entered && t0.ram_index < t0.cpu@.bus.len();
    let signalled = entered && signal_vbl_fires(t0.mouse@);
    &&& t1.vbl == l
    &&& t1.soft_switches@ == sw
    &&& drawn ==> t1.video.frame_view() == tick_frame(t0, sw)
    &&& !drawn ==> t1.video.frame_view() == t0.video.frame_view()
    &&& t1.video.character_rom == t0.video.character_rom
    &&& t1.video.video_mode == t0.video.video_mode
    &&& t1.video.monitor_type == t0.video.monitor_type
    &&& t1.video.blink_inverted == t0.video.blink_inverted
    &&& signalled ==> t1.mouse@ == (MouseView { status: with_bit(t0.mouse@.status, 3, true), ..t0.mouse@ })
        && t1.cpu@ == (CpuView { irq: t0.cpu@.irq.push(INTERRUPT_SOURCE_MOUSE), ..t0.cpu@ })
    &&& !signalled ==> t1.mouse@ == t0.mouse@ && t1.cpu@ == t0.cpu@
    &&& t1 == (Target {
        vbl: t1.vbl,
        soft_switches: t1.soft_switches,
        video: t1.video,
        mouse: t1.mouse,
        cpu: t1.cpu,
        ..t0
    })
}

/// Whether a read of `address` reaches the part that answers the address: neither the
/// auxiliary memory nor the language card takes it.
pub open spec fn read_reaches_device(t: Target, address: u16) -> bool {
    let aux = match t.extended_text {
        Some(x) => aux_route(address as usize, t.soft_switches@, t.language_card.config_spec(), false),
        None => AuxTarget::Pass,
    };
    aux == AuxTarget::Pass && t.language_card.intercept_read_spec(address as usize) is None
}

/// Byte `offset` of a ROM image, or the fault of an offset past its end.
pub open spec fn rom_byte(rom: Seq<u8>, offset: usize) -> Result<u8, Error> {
    if offset < rom.len() {
        Ok(rom[offset as int])
    } else {
        Err(Error::MemoryFault { address: offset, size: rom.len() as usize })
    }
}

/// What the slot ROM of the card in `slot` gives at `offset` (0 from an empty slot).
pub open spec fn card_rom_spec(t: Target, slot: usize, offset: usize) -> Result<u8, Error> {
    match t.peripheral_manager@.peripherals[slot as int] {
        Some(PeripheralKind::LanguageCard) => Ok(t.language_card.rom_spec()[offset as int]),
        Some(PeripheralKind::SuperSerialCard) => rom_byte(t.super_serial.rom_spec(), offset),
        Some(PeripheralKind::MouseCard) => rom_byte(t.mouse.rom_spec(), offset),
        Some(PeripheralKind::DiskII) => rom_byte(t.diskii.rom_spec(), offset),
        Some(PeripheralKind::Smartport) => if offset == 0xfe {
            Ok(if t.smartport@.data.len() > 0 { 0xd3u8 } else { 0u8 })
        } else {
            rom_byte(t.smartport.rom_spec(), offset)
        },
        None => Ok(0),
    }
}

/// What the expansion ROM of the card in `slot` gives at `offset`: only the serial card has
/// one; the Smartport card fails.
pub open spec fn card_expansion_rom_spec(t: Target, slot: usize, offset: usize) -> Result<Option<u8>, Error> {
    match t.peripheral_manager@.peripherals[slot as int] {
        Some(PeripheralKind::SuperSerialCard) => match rom_byte(t.super_serial.expansion_rom_spec(), offset) {
            Ok(b) => Ok(Some(b)),
            Err(e) => Err(e),
        },
        Some(PeripheralKind::Smartport) => Err(Error::NoExpansionRom),
        _ => Ok(None),
    }
}

/// The Disk II's clock: the processor's cycle count, but never before the drive's.
pub open spec fn disk_now_spec(t: Target) -> u64 {
    if t.cpu@.cycles < t.diskii@.last_instant {
        t.diskii@.last_instant
    } else {
        t.cpu@.cycles
    }
}

/// The processor after an interrupt release by `source` where `release`.
pub open spec fn released(c: CpuView, source: InterruptSource, release: bool) -> CpuView {
    if release {
        irq_released(c, source)
    } else {
        c
    }
}

/// The processor with the RAM bank (the bank connected `i`-th) zeroed.
pub open spec fn ram_cleared(c: CpuView, i: usize) -> CpuView {
    CpuView {
        bus: if i < c.bus.len() { c.bus.update(i as int, cleared_slave(c.bus[i as int])) } else { c.bus },
        ..c
    }
}

/// What the auxiliary 80-column text card holds, where one is present.
pub open spec fn extended_view(t: Target) -> Option<Seq<u8>> {
    match t.extended_text {
        Some(x) => Some(x.memory_spec()),
        None => None,
    }
}

/// The frame drawn at a vertical blank from the switches `sw` and the main RAM bank.
pub open spec fn tick_frame(t: Target, sw: Seq<bool>) -> Seq<Rgb> {
    monitor_frame(
        frame_spec(t.video.inputs(sw, t.cpu@.bus[t.ram_index as int].data, extended_view(t))),
        t.video.monitor_type,
    )
}

/// The writes that copy offsets `0..n` of the slot ROM of the card in `slot` into its page
/// 0xcs00-0xcsff, in order (an offset the card's ROM does not reach is left alone).
pub open spec fn page_writes(t: Target, slot: usize, n: nat) -> Seq<(u16, u8)>
    decreases n,
{
    if n == 0 {
        Seq::empty()
    } else {
        let prev = page_writes(t, slot, (n - 1) as nat);
        match card_rom_spec(t, slot, (n - 1) as usize) {
            Ok(v) => prev.push(((0xc000 + slot * 0x100 + (n - 1)) as u16, v)),
            Err(_) => prev,
        }
    }
}

/// The writes that copy the slot ROMs of the occupied slots `1..s` into their pages, slot
/// by slot.
pub open spec fn slot_rom_writes(t: Target, s: nat) -> Seq<(u16, u8)>
    decreases s,
{
    if s <= 1 {
        Seq::empty()
    } else {
        let slot = (s - 1) as nat;
        slot_rom_writes(t, slot) + if t.peripheral_manager@.peripherals[slot as int] is Some {
            page_writes(t, slot as usize, 0x100)
        } else {
            Seq::empty()
        }
    }
}

/// The slot ROM writes do not depend on the processor.
pub proof fn lemma_slot_rom_writes_cpu(t1: Target, t2: Target, s: nat)
    requires
        t1 == (Target { cpu: t1.cpu, ..t2 }),
    ensures
        slot_rom_writes(t1, s) == slot_rom_writes(t2, s),
    decreases s,
{
    if s > 1 {
        lemma_slot_rom_writes_cpu(t1, t2, (s - 1) as nat);
        lemma_page_writes_cpu(t1, t2, (s - 1) as usize, 0x100);
    }
}

/// The page writes of a slot do not depend on the processor.
pub proof fn lemma_page_writes_cpu(t1: Target, t2: Target, slot: usize, n: nat)
    requires
        t1 == (Target { cpu: t1.cpu, ..t2 }),
    ensures
        page_writes(t1, slot, n) == page_writes(t2, slot, n),
    decreases n,
{
    if n > 0 {
        lemma_page_writes_cpu(t1, t2, slot, (n - 1) as nat);
        assert(card_rom_spec(t1, slot, (n - 1) as usize) == card_rom_spec(t2, slot, (n - 1) as usize));
    }
}

impl Target {
    /// The processor's cycle count as the Disk II's clock (never before the drive's).
    fn disk_now(&self) -> (r: u64)
        requires
            target_wf(*self),
        ensures
            r >= self.diskii@.last_instant,
            r == disk_now_spec(*self),
    {
        let c = self.cpu.get_cycle_count();
        let l = self.diskii.last_instant();
        if c < l {
            l
        } else {
            c
        }
    }

    /// A soft switch changed: the Video-7 sequence watcher and the Apple IIc bank switch
    /// see it.
    fn switch_updated(&mut self, update: SwitchUpdate)
        requires
            target_wf(*old(self)),
        ensures
            target_wf(*final(self)),
            final(self).cpu@ == old(self).cpu@,
            final(self).soft_switches@ == old(self).soft_switches@,
            final(self).peripheral_manager@ == old(self).peripheral_manager@,
            final(self).keyboard@ == old(self).keyboard@,
            *final(self) == (Target {
                video7: final(self).video7,
                video: final(self).video,
                iic_bank_switcher: final(self).iic_bank_switcher,
                ..*old(self)
            }),
            ({
                let (states, mode) = listener_step(old(self).video7.state_machines@, update.switch, update.value);
                &&& final(self).video7.state_machines@.len() == old(self).video7.state_machines@.len()
                &&& forall|i: int| 0 <= i < final(self).video7.state_machines@.len() ==> {
                    &&& (#[trigger] final(self).video7.state_machines@[i]).state == states[i]
                    &&& final(self).video7.state_machines@[i].mode == old(self).video7.state_machines@[i].mode
                    &&& final(self).video7.state_machines@[i].states@ == old(self).video7.state_machines@[i].states@
                }
                &&& final(self).video.video_mode == (if mode is Some { mode->Some_0 } else { old(self).video.video_mode })
            }),
            final(self).video.monitor_type == old(self).video.monitor_type,
            final(self).video.blink_inverted == old(self).video.blink_inverted,
            final(self).video.frame@ == old(self).video.frame@,
            final(self).video.character_rom == old(self).video.character_rom,
            old(self).iic_bank_switcher is None ==> final(self).iic_bank_switcher is None,
            old(self).iic_bank_switcher matches Some(s0) ==> (final(self).iic_bank_switcher matches Some(s1) && {
                &&& s1.rom_spec() == s0.rom_spec()
                &&& s1.rom_read_only() == s0.rom_read_only()
                &&& s1.main_spec() == (if update.switch == Switch::Iicrom { !s0.main_spec() } else { s0.main_spec() })
            }),
    {
        match self.video7.on_updated(update) {
            Some(mode) => self.video.set_video_mode(mode),
            None => {},
        }
        match &mut self.iic_bank_switcher {
            Some(s) => self.iic_listener.on_updated(update, s),
            None => {},
        }
    }

    /// The expansion ROM byte of the card in `slot`, if it has one.
    fn card_expansion_rom(&self, slot: usize, offset: usize) -> (r: Result<Option<u8>, Error>)
        requires
            target_wf(*self),
            slot < 8,
        ensures
            r == card_expansion_rom_spec(*self, slot, offset),
    {
        match self.peripheral_manager.kind_at(slot) {
            Some(PeripheralKind::LanguageCard) => self.language_card.read_expansion_rom(offset),
            Some(PeripheralKind::SuperSerialCard) => self.super_serial.read_expansion_rom(offset),
            Some(PeripheralKind::MouseCard) => self.mouse.read_expansion_rom(offset),
            Some(PeripheralKind::DiskII) => self.diskii.read_expansion_rom(offset),
            Some(PeripheralKind::Smartport) => Err(Error::NoExpansionRom),
            None => Ok(None),
        }
    }

    /// The slot ROM byte of the card in `slot`.
    fn card_rom(&self, slot: usize, offset: usize) -> (r: Result<u8, Error>)
        requires
            target_wf(*self),
            slot < 8,
            offset < 0x100,
        ensures
            r == card_rom_spec(*self, slot, offset),
    {
        match self.peripheral_manager.kind_at(slot) {
            Some(PeripheralKind::LanguageCard) => self.language_card.read_rom(offset),
            Some(PeripheralKind::SuperSerialCard) => self.super_serial.read_rom(offset),
            Some(PeripheralKind::MouseCard) => self.mouse.read_rom(offset),
            Some(PeripheralKind::DiskII) => self.diskii.read_rom(offset),
            Some(PeripheralKind::Smartport) => self.smartport.read_rom(offset),
            None => Ok(0),
        }
    }

    /// A read of device register `offset` of the card in `slot`.
    fn card_device_read(&mut self, slot: usize, offset: usize) -> (r: Result<u8, Error>)
        requires
            target_wf(*old(self)),
            slot < 8,
        ensures
            target_wf(*final(self)),
            final(self).peripheral_manager@ == old(self).peripheral_manager@,
            match old(self).peripheral_manager@.peripherals[slot as int] {
                None => r == Ok::<u8, Error>(0) && *final(self) == *old(self),
                Some(PeripheralKind::LanguageCard) => {
                    &&& r == Ok::<u8, Error>(0)
                    &&& final(self).language_card.config_spec() == handle_access_spec(old(self).language_card.config_spec(), offset)
                    &&& final(self).language_card.bank1_spec() == old(self).language_card.bank1_spec()
                    &&& final(self).language_card.bank2_spec() == old(self).language_card.bank2_spec()
                    &&& final(self).language_card.ram_spec() == old(self).language_card.ram_spec()
                    &&& final(self).language_card.rom_spec() == old(self).language_card.rom_spec()
                    &&& final(self).soft_switches@ == config_switches(old(self).soft_switches@, final(self).language_card.config_spec())
                    &&& *final(self) == (Target { language_card: final(self).language_card, soft_switches: final(self).soft_switches, ..*old(self) })
                },
                Some(PeripheralKind::SuperSerialCard) => {
                    let (s, v, release) = serial_read_spec(old(self).super_serial@, offset);
                    &&& r == Ok::<u8, Error>(v)
                    &&& final(self).super_serial@ == s
                    &&& final(self).cpu@ == released(old(self).cpu@, SERIAL_IRQ_SOURCE, release)
                    &&& *final(self) == (Target { super_serial: final(self).super_serial, cpu: final(self).cpu, ..*old(self) })
                },
                Some(PeripheralKind::MouseCard) => {
                    let (m, v, release) = mouse_read_spec(old(self).mouse@, offset);
                    &&& r == Ok::<u8, Error>(v)
                    &&& final(self).mouse@ == m
                    &&& final(self).cpu@ == released(old(self).cpu@, INTERRUPT_SOURCE_MOUSE, release)
                    &&& *final(self) == (Target { mouse: final(self).mouse, cpu: final(self).cpu, ..*old(self) })
                },
                Some(PeripheralKind::Smartport) => {
                    let (sp, writes, v) = smartport_read_spec(old(self).smartport@, old(self).cpu@, offset);
                    &&& r == Ok::<u8, Error>(v)
                    &&& final(self).smartport@ == sp
                    &&& final(self).cpu@ == with_writes(old(self).cpu@, writes)
                    &&& *final(self) == (Target { smartport: final(self).smartport, cpu: final(self).cpu, ..*old(self) })
                },
                Some(PeripheralKind::DiskII) => {
                    &&& (final(self).diskii@, r) == diskii_read_spec(old(self).diskii@, offset, disk_now_spec(*old(self)), apple_disk_timing())
                    &&& *final(self) == (Target { diskii: final(self).diskii, ..*old(self) })
                },
            },
    {
        match self.peripheral_manager.kind_at(slot) {
            Some(PeripheralKind::LanguageCard) => self.language_card.device_read(offset, &mut self.soft_switches),
            Some(PeripheralKind::SuperSerialCard) => self.super_serial.device_read(offset, &mut self.cpu),
            Some(PeripheralKind::MouseCard) => self.mouse.device_read(offset, &mut self.cpu),
            Some(PeripheralKind::Smartport) => self.smartport.device_read(offset, &mut self.cpu),
            Some(PeripheralKind::DiskII) => {
                let now = self.disk_now();
                self.diskii.device_read(offset, now, DiskTiming { bit_step: 4, bit_threshold: 5, data_valid: 7, motor_off: 1022727, write_bit: 4 })
            },
            None => Ok(0),
        }
    }

    /// A write of `value` to device register `offset` of the card in `slot`.
    fn card_device_write(&mut self, slot: usize, offset: usize, value: u8) -> (r: Result<(), Error>)
        requires
            target_wf(*old(self)),
            slot < 8,
        ensures
            target_wf(*final(self)),
            final(self).peripheral_manager@ == old(self).peripheral_manager@,
            r is Ok,
            match old(self).peripheral_manager@.peripherals[slot as int] {
                None => *final(self) == *old(self),
                Some(PeripheralKind::LanguageCard) => {
                    &&& final(self).language_card.config_spec() == write_access_spec(old(self).language_card.config_spec(), offset)
                    &&& final(self).language_card.bank1_spec() == old(self).language_card.bank1_spec()
                    &&& final(self).language_card.bank2_spec() == old(self).language_card.bank2_spec()
                    &&& final(self).language_card.ram_spec() == old(self).language_card.ram_spec()
                    &&& final(self).language_card.rom_spec() == old(self).language_card.rom_spec()
                    &&& final(self).soft_switches@ == config_switches(old(self).soft_switches@, final(self).language_card.config_spec())
                    &&& *final(self) == (Target { language_card: final(self).language_card, soft_switches: final(self).soft_switches, ..*old(self) })
                },
                Some(PeripheralKind::SuperSerialCard) => {
                    let (s, action, release) = serial_write_spec(old(self).super_serial@, offset, value);
                    &&& final(self).super_serial@ == s
                    &&& final(self).serial_actions@ == (match action {
                        Some(a) => old(self).serial_actions@.push(a),
                        None => old(self).serial_actions@,
                    })
                    &&& final(self).cpu@ == released(old(self).cpu@, SERIAL_IRQ_SOURCE, release)
                    &&& *final(self) == (Target {
                        super_serial: final(self).super_serial,
                        cpu: final(self).cpu,
                        serial_actions: final(self).serial_actions,
                        ..*old(self)
                    })
                },
                Some(PeripheralKind::MouseCard) => {
                    &&& offset == 0 ==> mouse_default(final(self).mouse@) && final(self).cpu@ == old(self).cpu@
                    &&& offset != 0 ==> ({
                        let (m, writes) = mouse_write_spec(old(self).mouse@, old(self).cpu@, old(self).mouse.slot_spec(), offset, value);
                        final(self).mouse@ == m && final(self).cpu@ == with_writes(old(self).cpu@, writes)
                    })
                    &&& *final(self) == (Target { mouse: final(self).mouse, cpu: final(self).cpu, ..*old(self) })
                },
                Some(PeripheralKind::Smartport) => {
                    &&& final(self).smartport@ == smartport_write_spec(old(self).smartport@, old(self).cpu@, offset, value)
                    &&& *final(self) == (Target { smartport: final(self).smartport, ..*old(self) })
                },
                Some(PeripheralKind::DiskII) => {
                    &&& final(self).diskii@ == diskii_write_spec(old(self).diskii@, offset, value, disk_now_spec(*old(self)), apple_disk_timing())
                    &&& *final(self) == (Target { diskii: final(self).diskii, ..*old(self) })
                },
            },
    {
        match self.peripheral_manager.kind_at(slot) {
            Some(PeripheralKind::LanguageCard) => self.language_card.device_write(offset, value, &mut self.soft_switches),
            Some(PeripheralKind::SuperSerialCard) => match self.super_serial.device_write(offset, value, &mut self.cpu) {
                Ok(Some(action)) => {
                    self.serial_actions.push(action);
                    Ok(())
                },
                Ok(None) => Ok(()),
                Err(e) => Err(e),
            },
            Some(PeripheralKind::MouseCard) => self.mouse.device_write(offset, value, &mut self.cpu),
            Some(PeripheralKind::Smartport) => self.smartport.device_write(offset, value, &self.cpu),
            Some(PeripheralKind::DiskII) => {
                let now = self.disk_now();
                self.diskii.device_write(offset, value, now, DiskTiming { bit_step: 4, bit_threshold: 5, data_valid: 7, motor_off: 1022727, write_bit: 4 })
            },
            None => Ok(()),
        }
    }

    /// A read of `address` as the machine's bus does it: a memory breakpoint there breaks
    /// into the debugger; the auxiliary memory, then the language card may take the read;
    /// else the part that answers the address does.
    pub fn bus_read(&mut self, address: u16) -> (r: Result<u8, Error>)
        requires
            target_wf(*old(self)),
        ensures
            target_wf(*final(self)),
            bus_read_rel(*old(self), *final(self), address, r),
            bus_read_known(*old(self), address) matches Some(x) ==> r == x,
            read_reaches_device(*old(self), address) ==> ({
                let target = bus_target(old(self).iic_bank_switcher is Some, address);
                &&& target matches BusTarget::SoftSwitches(a) ==> final(self).soft_switches@ == update_switches_spec(
                    old(self).soft_switches@,
                    a,
                    false,
                ).0
                &&& target == BusTarget::Keyboard(0x10) ==> final(self).keyboard@ == clear_strobe_spec(old(self).keyboard@)
                &&& target == BusTarget::Keyboard(0) ==> final(self).keyboard@ == old(self).keyboard@
                &&& target == BusTarget::Speaker ==> final(self).speaker_toggles == old(self).speaker_toggles.wrapping_add(1)
                &&& target == BusTarget::Memory ==> final(self).cpu@.bus == old(self).cpu@.bus
            }),
    {
        if self.memory_breakpoint_listener.contains(address as usize) {
            let _ = self.cpu.force_break();
        }
        let config = self.language_card.config();
        match &self.extended_text {
            Some(t) => match t.intercept_read(address as usize, &self.soft_switches, config) {
                Ok(Some(v)) => return Ok(v),
                Ok(None) => {},
                Err(e) => {
                    assert(false);
                    return Err(e);
                },
            },
            None => {},
        }
        match self.language_card.intercept_read(address as usize) {
            Some(v) => return Ok(v),
            None => {},
        }
        match decode_address(self.iic_bank_switcher.is_some(), address) {
            BusTarget::Memory => Ok(self.cpu.read_bus(address)),
            BusTarget::Keyboard(o) => Ok(self.keyboard.read(o)),
            BusTarget::Speaker => {
                self.speaker_toggles = self.speaker_toggles.wrapping_add(1);
                Ok(0)
            },
            BusTarget::SoftSwitches(a) => {
                let (v, update) = self.soft_switches.read(a);
                match update {
                    Some(u) => self.switch_updated(u),
                    None => {},
                }
                Ok(v)
            },
            BusTarget::MiscIo(o) => Ok(self.misc_io.read(o)),
            BusTarget::IicRom(o) => match &self.iic_bank_switcher {
                Some(s) => s.read(o),
                None => Ok(0),
            },
            BusTarget::Peripheral(o) => {
                match self.peripheral_manager.read(o, &self.soft_switches) {
                    PeripheralRead::InternalRom(x) => match &self.internal_rom {
                        Some(rom) => {
                            rom.read(x)
                        },
                        None => Ok(0),
                    },
                    PeripheralRead::Value(v) => Ok(v),
                    PeripheralRead::SlotRom { slot, offset } => self.card_rom(slot, offset),
                    PeripheralRead::Device { slot, offset } => self.card_device_read(slot, offset),
                    PeripheralRead::ExpansionRom { slot, offset, fallback } => match self.card_expansion_rom(slot, offset) {
                        Ok(Some(v)) => Ok(v),
                        Ok(None) => if fallback {
                            match &self.internal_rom {
                                Some(rom) => rom.read(offset + 0x800),
                                None => Ok(0),
                            }
                        } else {
                            Ok(0)
                        },
                        Err(e) => Err(e),
                    },
                }
            },
        }
    }
}

} // verus!

verus! {

/// Whether a write of `address` reaches the part that answers the address: neither the
/// auxiliary memory nor the language card takes it.
pub open spec fn write_reaches_device(t: Target, address: u16) -> bool {
    let aux = match t.extended_text {
        Some(x) => aux_route(address as usize, t.soft_switches@, t.language_card.config_spec(), true),
        None => AuxTarget::Pass,
    };
    aux == AuxTarget::Pass && (t.language_card.config_spec().mode.write == Location::Rom || !(0xd000 <= address <= 0xffff))
}

/// Whether a write of `address` reaches the processor's memory: neither the auxiliary
/// memory nor the language card takes it, and no device answers the address.
pub open spec fn write_reaches_memory(t: Target, address: u16) -> bool {
    let aux = match t.extended_text {
        Some(x) => aux_route(address as usize, t.soft_switches@, t.language_card.config_spec(), true),
        None => AuxTarget::Pass,
    };
    &&& aux == AuxTarget::Pass
    &&& (t.language_card.config_spec().mode.write == Location::Rom || !(0xd000 <= address <= 0xffff))
    &&& bus_target(t.iic_bank_switcher is Some, address) == BusTarget::Memory
}

/// A write of `value` to device register `offset` of the card in `slot` of `t0`, the
/// processor then being `c`: the machine `t1` after it. The slot manager is stated by the
/// caller.
pub open spec fn card_write_rel(t0: Target, c: CpuView, t1: Target, slot: usize, offset: usize, value: u8) -> bool {
    match t0.peripheral_manager@.peripherals[slot as int] {
        None => t1.cpu@ == c && t1 == (Target { cpu: t1.cpu, peripheral_manager: t1.peripheral_manager, ..t0 }),
        Some(PeripheralKind::LanguageCard) => {
            &&& t1.language_card.config_spec() == write_access_spec(t0.language_card.config_spec(), offset)
            &&& t1.language_card.bank1_spec() == t0.language_card.bank1_spec()
            &&& t1.language_card.bank2_spec() == t0.language_card.bank2_spec()
            &&& t1.language_card.ram_spec() == t0.language_card.ram_spec()
            &&& t1.language_card.rom_spec() == t0.language_card.rom_spec()
            &&& t1.soft_switches@ == config_switches(t0.soft_switches@, t1.language_card.config_spec())
            &&& t1.cpu@ == c
            &&& t1 == (Target {
                cpu: t1.cpu,
                peripheral_manager: t1.peripheral_manager,
                language_card: t1.language_card,
                soft_switches: t1.soft_switches,
                ..t0
            })
        },
        Some(PeripheralKind::SuperSerialCard) => {
            let (s, action, release) = serial_write_spec(t0.super_serial@, offset, value);
            &&& t1.super_serial@ == s
            &&& t1.serial_actions@ == (match action {
                Some(a) => t0.serial_actions@.push(a),
                None => t0.serial_actions@,
            })
            &&& t1.cpu@ == released(c, SERIAL_IRQ_SOURCE, release)
            &&& t1 == (Target {
                cpu: t1.cpu,
                peripheral_manager: t1.peripheral_manager,
                super_serial: t1.super_serial,
                serial_actions: t1.serial_actions,
                ..t0
            })
        },
        Some(PeripheralKind::MouseCard) => {
            &&& offset == 0 ==> mouse_default(t1.mouse@) && t1.cpu@ == c
            &&& offset != 0 ==> ({
                let (m, writes) = mouse_write_spec(t0.mouse@, c, t0.mouse.slot_spec(), offset, value);
                t1.mouse@ == m && t1.cpu@ == with_writes(c, writes)
            })
            &&& t1 == (Target { cpu: t1.cpu, peripheral_manager: t1.peripheral_manager, mouse: t1.mouse, ..t0 })
        },
        Some(PeripheralKind::Smartport) => {
            &&& t1.smartport@ == smartport_write_spec(t0.smartport@, c, offset, value)
            &&& t1.cpu@ == c
            &&& t1 == (Target {
                cpu: t1.cpu,
                peripheral_manager: t1.peripheral_manager,
                smartport: t1.smartport,
                ..t0
            })
        },
        Some(PeripheralKind::DiskII) => {
            &&& t1.diskii@ == diskii_write_spec(t0.diskii@, offset, value, disk_now_of(c, t0), apple_disk_timing())
            &&& t1.cpu@ == c
            &&& t1 == (Target { cpu: t1.cpu, peripheral_manager: t1.peripheral_manager, diskii: t1.diskii, ..t0 })
        },
    }
}

/// A write to the auxiliary memory that it takes: `x1` is `x0` with the byte written,
/// or unchanged with the fault of an address past 64K.
pub open spec fn aux_write_rel(x0: Extended80ColumnText, x1: Extended80ColumnText, aux: AuxTarget, data: u8, r: Result<(), Error>) -> bool {
    match aux {
        AuxTarget::Memory(a) => if a < 0x10000 {
            &&& r == Ok::<(), Error>(())
            &&& x1.memory_spec() == x0.memory_spec().update(a as int, data)
            &&& x1.bank1_spec() == x0.bank1_spec() && x1.bank2_spec() == x0.bank2_spec()
        } else {
            &&& r == Err::<(), Error>(Error::MemoryFault { address: a, size: 0x10000 })
            &&& x1.memory_spec() == x0.memory_spec()
            &&& x1.bank1_spec() == x0.bank1_spec() && x1.bank2_spec() == x0.bank2_spec()
        },
        AuxTarget::Bank1(o) => {
            &&& r == Ok::<(), Error>(())
            &&& x1.bank1_spec() == x0.bank1_spec().update(o as int, data)
            &&& x1.memory_spec() == x0.memory_spec() && x1.bank2_spec() == x0.bank2_spec()
        },
        AuxTarget::Bank2(o) => {
            &&& r == Ok::<(), Error>(())
            &&& x1.bank2_spec() == x0.bank2_spec().update(o as int, data)
            &&& x1.memory_spec() == x0.memory_spec() && x1.bank1_spec() == x0.bank1_spec()
        },
        AuxTarget::Pass => false,
    }
}

/// A write to the IIc ROM through the half that shows: a read-only ROM ignores it; an
/// offset past the ROM's end faults.
pub open spec fn iic_write_rel(s0: AppleIICBankSwitcher, s1: AppleIICBankSwitcher, offset: usize, data: u8, r: Result<(), Error>) -> bool {
    let a = if s0.main_spec() { offset } else { (offset + 0x4000) as usize };
    &&& s1.main_spec() == s0.main_spec()
    &&& s1.rom_read_only() == s0.rom_read_only()
    &&& s0.rom_read_only() ==> r is Ok && s1.rom_spec() == s0.rom_spec()
    &&& !s0.rom_read_only() && a < s0.rom_spec().len() ==> r is Ok && s1.rom_spec() == s0.rom_spec().update(a as int, data)
    &&& !s0.rom_read_only() && a >= s0.rom_spec().len() ==> s1.rom_spec() == s0.rom_spec()
        && r == Err::<(), Error>(Error::MemoryFault { address: a, size: s0.rom_spec().len() as usize })
}

/// A write of `data` to `address` through the machine's bus, from machine `t0`: the
/// outcome `r` and the machine `t1` after it. A memory breakpoint halts the processor; the
/// auxiliary memory, then the language card may take the write; else the part that
/// answers the address does: the processor's memory, the keyboard, the speaker, a soft
/// switch (whose change the video and the IIc ROM bank follow), the IIc ROM, or the slot
/// area (a card's registers).
pub open spec fn bus_write_rel(t0: Target, t1: Target, address: u16, data: u8, r: Result<(), Error>) -> bool {
    let c = break_cpu(t0, address, true);
    let sw = t0.soft_switches@;
    let config = t0.language_card.config_spec();
    let aux = match t0.extended_text {
        Some(x) => aux_route(address as usize, sw, config, true),
        None => AuxTarget::Pass,
    };
    if aux != AuxTarget::Pass {
        &&& (t0.extended_text matches Some(x0) && t1.extended_text matches Some(x1) && aux_write_rel(x0, x1, aux, data, r))
        &&& t1.cpu@ == c
        &&& t1 == (Target { cpu: t1.cpu, extended_text: t1.extended_text, ..t0 })
    } else if config.mode.write == Location::Ram && 0xd000 <= address <= 0xffff {
        let lc0 = t0.language_card;
        let lc1 = t1.language_card;
        &&& r == Ok::<(), Error>(())
        &&& lc1.config_spec() == lc0.config_spec() && lc1.rom_spec() == lc0.rom_spec()
        &&& if address <= 0xdfff {
            &&& lc1.ram_spec() == lc0.ram_spec()
            &&& if config.bank == Bank::One {
                lc1.bank1_spec() == lc0.bank1_spec().update(address - 0xd000, data) && lc1.bank2_spec() == lc0.bank2_spec()
            } else {
                lc1.bank2_spec() == lc0.bank2_spec().update(address - 0xd000, data) && lc1.bank1_spec() == lc0.bank1_spec()
            }
        } else {
            lc1.ram_spec() == lc0.ram_spec().update(address - 0xe000, data) && lc1.bank1_spec() == lc0.bank1_spec()
                && lc1.bank2_spec() == lc0.bank2_spec()
        }
        &&& t1.cpu@ == c
        &&& t1 == (Target { cpu: t1.cpu, language_card: t1.language_card, ..t0 })
    } else {
        match bus_target(t0.iic_bank_switcher is Some, address) {
            BusTarget::Memory => r == Ok::<(), Error>(()) && t1.cpu@ == with_write(c, address, data) && t1 == (Target {
                cpu: t1.cpu,
                ..t0
            }),
            BusTarget::Keyboard(o) => {
                &&& r == Ok::<(), Error>(())
                &&& t1.keyboard@ == (if o == 0x10 { clear_strobe_spec(t0.keyboard@) } else { t0.keyboard@ })
                &&& t1.soft_switches@ == (if o == 0 { sw.update(switch_index(Switch::Eightystore), false) } else { sw })
                &&& t1.cpu@ == c
                &&& t1 == (Target { cpu: t1.cpu, keyboard: t1.keyboard, soft_switches: t1.soft_switches, ..t0 })
            },
            BusTarget::Speaker => {
                &&& r == Ok::<(), Error>(())
                &&& t1.speaker_toggles == t0.speaker_toggles.wrapping_add(1)
                &&& t1.cpu@ == c
                &&& t1 == (Target { cpu: t1.cpu, speaker_toggles: t1.speaker_toggles, ..t0 })
            },
            BusTarget::SoftSwitches(a) => {
                let (sw1, v, update) = update_switches_spec(sw, a, true);
                &&& r == Ok::<(), Error>(())
                &&& t1.soft_switches@ == sw1
                &&& t1.cpu@ == c
                &&& match update {
                    None => t1 == (Target { cpu: t1.cpu, soft_switches: t1.soft_switches, ..t0 }),
                    Some(u) => switch_update_rel(t0, t1, u),
                }
            },
            BusTarget::MiscIo(_) => r == Ok::<(), Error>(()) && t1.cpu@ == c && t1 == (Target { cpu: t1.cpu, ..t0 }),
            BusTarget::IicRom(o) => {
                &&& match (t0.iic_bank_switcher, t1.iic_bank_switcher) {
                    (Some(s0), Some(s1)) => iic_write_rel(s0, s1, o, data, r),
                    (None, None) => r == Ok::<(), Error>(()),
                    _ => false,
                }
                &&& t1.cpu@ == c
                &&& t1 == (Target { cpu: t1.cpu, iic_bank_switcher: t1.iic_bank_switcher, ..t0 })
            },
            BusTarget::Peripheral(o) => {
                let (pm1, pw) = peripheral_write_spec(t0.peripheral_manager@, o);
                &&& r is Ok
                &&& t1.peripheral_manager@ == pm1
                &&& match pw {
                    PeripheralWrite::Device { slot, offset } => card_write_rel(t0, c, t1, slot, offset, data),
                    PeripheralWrite::Ignored => t1.cpu@ == c && t1 == (Target {
                        cpu: t1.cpu,
                        peripheral_manager: t1.peripheral_manager,
                        ..t0
                    }),
                }
            },
        }
    }
}

impl Target {
    /// A write of `data` to `address` as the machine's bus does it: a memory breakpoint
    /// there halts the processor; the auxiliary memory, then the language card may take
    /// the write; else the part that answers the address does.
    pub fn bus_write(&mut self, address: u16, data: u8) -> (r: Result<(), Error>)
        requires
            target_wf(*old(self)),
        ensures
            target_wf(*final(self)),
            bus_write_rel(*old(self), *final(self), address, data, r),
            write_reaches_memory(*old(self), address) ==> r is Ok && final(self).cpu@.bus
                == crate::cpu::mos6502::bus::bus_write(old(self).cpu@.bus, address, data),
            write_reaches_device(*old(self), address) ==> ({
                let target = bus_target(old(self).iic_bank_switcher is Some, address);
                &&& target matches BusTarget::SoftSwitches(a) ==> final(self).soft_switches@ == update_switches_spec(
                    old(self).soft_switches@,
                    a,
                    true,
                ).0
                &&& target == BusTarget::Keyboard(0x10) ==> final(self).keyboard@ == clear_strobe_spec(old(self).keyboard@)
                &&& target == BusTarget::Keyboard(0) ==> final(self).soft_switches@ == old(self).soft_switches@.update(
                    switch_index(Switch::Eightystore),
                    false,
                )
                &&& target == BusTarget::Speaker ==> final(self).speaker_toggles == old(self).speaker_toggles.wrapping_add(1)
            }),
    {
        if self.memory_breakpoint_listener.contains(address as usize) {
            let _ = self.cpu.halt();
        }
        let config = self.language_card.config();
        match &mut self.extended_text {
            Some(t) => match t.intercept_write(address as usize, data, &self.soft_switches, config) {
                Ok(Some(())) => return Ok(()),
                Ok(None) => {},
                Err(e) => return Err(e),
            },
            None => {},
        }
        match self.language_card.intercept_write(address as usize, data) {
            Some(()) => return Ok(()),
            None => {},
        }
        match decode_address(self.iic_bank_switcher.is_some(), address) {
            BusTarget::Memory => {
                self.cpu.write_bus(address, data);
                Ok(())
            },
            BusTarget::Keyboard(o) => {
                self.keyboard.write(o, data, &mut self.soft_switches);
                Ok(())
            },
            BusTarget::Speaker => {
                self.speaker_toggles = self.speaker_toggles.wrapping_add(1);
                Ok(())
            },
            BusTarget::SoftSwitches(a) => {
                match self.soft_switches.write(a, data) {
                    Some(u) => self.switch_updated(u),
                    None => {},
                }
                Ok(())
            },
            BusTarget::MiscIo(_) => Ok(()),
            BusTarget::IicRom(o) => match &mut self.iic_bank_switcher {
                Some(s) => s.write(o, data),
                None => Ok(()),
            },
            BusTarget::Peripheral(o) => match self.peripheral_manager.write(o, data) {
                PeripheralWrite::Device { slot, offset } => self.card_device_write(slot, offset, data),
                PeripheralWrite::Ignored => Ok(()),
            },
        }
    }

    /// A cold reset (main memory cleared, cards and switches reset) or a warm one (the
    /// processor only), made once the processor has been halted and has stopped; the
    /// processor then resumes.
    pub fn reset(&mut self, reset_type: ResetType)
        requires
            target_wf(*old(self)),
        ensures
            target_wf(*final(self)),
            final(self).cpu@ == (CpuView {
                request: ExecutionRequest::Resume,
                ..reset_spec(if reset_type == ResetType::Cold {
                    ram_cleared(reset_spec(old(self).cpu@), old(self).ram_index)
                } else {
                    reset_spec(old(self).cpu@)
                })
            }),
            reset_type != ResetType::Cold ==> *final(self) == (Target { cpu: final(self).cpu, ..*old(self) }),
            reset_type == ResetType::Cold ==> {
                &&& final(self).soft_switches@ == reset_switch_values()
                &&& final(self).language_card.config_spec() == default_bank_config()
                &&& final(self).language_card.bank1_spec() == Seq::new(4096, |i: int| 0u8)
                &&& final(self).language_card.bank2_spec() == Seq::new(4096, |i: int| 0u8)
                &&& final(self).language_card.ram_spec() == old(self).language_card.ram_spec()
                &&& final(self).language_card.rom_spec() == old(self).language_card.rom_spec()
                &&& final(self).peripheral_manager@ == (PeripheralManagerView { intc8rom: false, ..old(self).peripheral_manager@ })
                &&& final(self).diskii@ == initial_spec(0, match old(self).diskii@.disk {
                    Some(d) => Some(DriveDisk { reader: ReaderState { bit_index: 0, ..d.reader }, ..d }),
                    None => None,
                })
                &&& final(self).diskii.rom_spec() == old(self).diskii.rom_spec()
                &&& final(self).smartport@ == (SmartportView {
                    dispatch_x: 0,
                    dispatch_y: 0,
                    smartport_args: SmartportArgs { command: 0, param_list: 0 },
                    ..old(self).smartport@
                })
                &&& mouse_default(final(self).mouse@)
                &&& final(self).mouse.slot_spec() == old(self).mouse.slot_spec()
                &&& serial_default(final(self).super_serial@)
                &&& (final(self).extended_text matches Some(x) ==> {
                    &&& x.memory_spec() == Seq::new(0x10000, |i: int| 0u8)
                    &&& x.bank1_spec() == Seq::new(0x1000, |i: int| 0u8)
                    &&& x.bank2_spec() == Seq::new(0x1000, |i: int| 0u8)
                })
                &&& *final(self) == (Target {
                    cpu: final(self).cpu,
                    soft_switches: final(self).soft_switches,
                    language_card: final(self).language_card,
                    peripheral_manager: final(self).peripheral_manager,
                    diskii: final(self).diskii,
                    smartport: final(self).smartport,
                    mouse: final(self).mouse,
                    super_serial: final(self).super_serial,
                    extended_text: final(self).extended_text,
                    ..*old(self)
                })
            },
    {
        self.cpu.reset();
        if reset_type == ResetType::Cold {
            self.language_card.reset(&mut self.soft_switches);
            self.video.reset();
            self.cpu.clear_bank(self.ram_index);
            self.soft_switches.reset();
            self.peripheral_manager.reset();
            self.diskii.reset(self.cpu.get_cycle_count());
            self.smartport.reset();
            self.mouse.reset();
            self.super_serial.reset();
            match &mut self.extended_text {
                Some(t) => t.reset(),
                None => {},
            }
        }
        self.cpu.reset();
        let _ = self.cpu.run();
    }

    /// Loads a program: a hard disk image (".hdv") goes to the Smartport card, which is put
    /// in slot 5 if it is not there; a floppy image goes into the Disk II.
    pub fn load_program(&mut self, file_name: &str, data: Vec<u8>) -> (r: Result<(), Error>)
        requires
            target_wf(*old(self)),
            program_kind_spec(file_name@) == Ok::<ProgramKind, Error>(ProgramKind::Woz) ==> data@.len() >= 12,
        ensures
            target_wf(*final(self)),
            program_kind_spec(file_name@) == Ok::<ProgramKind, Error>(ProgramKind::HardDisk) ==> {
                &&& r is Ok
                &&& final(self).smartport@ == (SmartportView { data: old(self).smartport@.data + data@, ..old(self).smartport@ })
                &&& final(self).peripheral_manager@ == (PeripheralManagerView {
                    peripherals: if old(self).peripheral_manager@.peripherals[SMARTPORT_SLOT as int] is Some {
                        old(self).peripheral_manager@.peripherals
                    } else {
                        old(self).peripheral_manager@.peripherals.update(SMARTPORT_SLOT as int, Some(PeripheralKind::Smartport))
                    },
                    ..old(self).peripheral_manager@
                })
                &&& *final(self) == (Target {
                    smartport: final(self).smartport,
                    peripheral_manager: final(self).peripheral_manager,
                    ..*old(self)
                })
            },
            program_kind_spec(file_name@) is Err ==> r == Err::<(), Error>(Error::UnsupportedProgramType),
            program_kind_spec(file_name@) == Ok::<ProgramKind, Error>(ProgramKind::Woz) ==> {
                &&& forall|e: Error| #[trigger] woz_parsed(Err(e), data@) ==> r == Err::<(), Error>(e)
                &&& forall|d: WozDisk| #[trigger] woz_parsed(Ok(d), data@) ==> (if d.tracks_wf() {
                    r is Ok
                } else {
                    r == Err::<(), Error>(Error::InvalidTrackBlock)
                })
            },
            program_kind_spec(file_name@) matches Ok(ProgramKind::Dsk(_)) ==> if data@.len() < 143360 {
                r == Err::<(), Error>(Error::UnexpectedEof)
            } else {
                r is Ok
            },
            program_kind_spec(file_name@) != Ok::<ProgramKind, Error>(ProgramKind::HardDisk) ==> {
                &&& r is Err ==> *final(self) == *old(self)
                &&& r is Ok ==> exists|reader: WozDiskReader| #[trigger] floppy_loaded(file_name@, data@, reader)
                    && final(self).diskii@ == (DiskIIView { disk: Some(drive_disk_of(reader)), ..old(self).diskii@ })
                    && final(self).diskii.rom_spec() == old(self).diskii.rom_spec()
                    && *final(self) == (Target { diskii: final(self).diskii, ..*old(self) })
            },
    {
        match program_kind(file_name) {
            Ok(ProgramKind::HardDisk) => {
                let _ = self.smartport.attach(data.as_slice());
                if !self.peripheral_manager.is_assigned(SMARTPORT_SLOT) {
                    let _ = self.peripheral_manager.assign(SMARTPORT_SLOT, PeripheralKind::Smartport);
                }
                Ok(())
            },
            _ => {
                let ghost image = data@;
                let disk = match load_disk_file(file_name, data) {
                    Ok(d) => d,
                    Err(e) => return Err(e),
                };
                proof {
                    if program_kind_spec(file_name@) == Ok::<ProgramKind, Error>(ProgramKind::Woz) {
                        assert forall|d: WozDisk| #[trigger] woz_parsed(Ok(d), image) implies d.tracks_wf() == disk.disk.tracks_wf() by {
                            lemma_woz_tracks_wf_unique(d, disk.disk, image);
                        }
                    }
                }
                if !disk.disk.tracks_valid() {
                    return Err(Error::InvalidTrackBlock);
                }
                assert(floppy_loaded(file_name@, image, disk));
                self.diskii.attach(disk);
                Ok(())
            },
        }
    }

    /// Takes the disks out of the Disk II and the Smartport card.
    pub fn unload_program(&mut self) -> (r: Result<(), Error>)
        requires
            target_wf(*old(self)),
        ensures
            target_wf(*final(self)),
            r is Ok,
            final(self).diskii@.disk is None,
            final(self).smartport@.data.len() == 0,
    {
        self.diskii.detach();
        self.smartport.detach();
        Ok(())
    }

    /// The machine's id.
    pub fn target_type_id(&self) -> (r: &str)
        ensures
            r@ == self.target_type_id@,
    {
        self.target_type_id.as_str()
    }

    /// The vertical blank at the processor's current cycle: entering it draws the frame and
    /// tells the mouse card.
    pub fn tick(&mut self)
        requires
            target_wf(*old(self)),
        ensures
            target_wf(*final(self)),
            tick_rel(*old(self), *final(self)),
    {
        let now = self.cpu.get_cycle_count();
        if self.vbl.tick_updated(now, &mut self.soft_switches) {
            if self.ram_index < self.cpu.bus().len() {
                let ram = self.cpu.bus().bank(self.ram_index);
                let aux = match &self.extended_text {
                    Some(t) => Some(t),
                    None => None,
                };
                assert(aux_view(aux) == extended_view(*self));
                self.video.update_frame(&self.soft_switches, ram, aux);
            }
            self.mouse.signal_vbl(&mut self.cpu);
        }
    }
}

} // verus!

verus! {

/// The device register that an operand names, if it names one (0xc000-0xc0ff).
pub open spec fn io_operand(arg: Operand) -> Option<u16> {
    match arg {
        Operand::Address(a) => if 0xc000 <= a <= 0xc0ff {
            Some(a)
        } else {
            None
        },
        _ => None,
    }
}

/// Before an instruction that reads the memory its operand `arg` names: a device register
/// (0xc000-0xc0ff) is read through the machine's bus from `t0`, and its value put in the
/// processor's memory at the register's address, a failed read ending the step with its
/// error; at any other address a memory breakpoint breaks into the debugger.
pub open spec fn operand_read_rel(t0: Target, t1: Target, instruction: Instruction, arg: Operand, r: Result<(), Error>) -> bool {
    if !reads_operand(instruction) || !(arg is Address) {
        r is Ok && t1 == t0
    } else {
        let a = arg->Address_0;
        match io_operand(arg) {
            Some(a) => exists|tm: Target, v: Result<u8, Error>| #[trigger] bus_read_rel(t0, tm, a, v) && match v {
                Ok(x) => r is Ok && t1.cpu@ == with_write(tm.cpu@, a, x) && t1 == (Target { cpu: t1.cpu, ..tm }),
                Err(e) => r == Err::<(), Error>(e) && t1 == tm,
            },
            None => r is Ok && t1.cpu@ == break_cpu(t0, a, false) && t1 == (Target { cpu: t1.cpu, ..t0 }),
        }
    }
}

/// After an instruction that writes the memory its operand `arg` names: the byte the
/// processor wrote at a device register's address (0xc000-0xc0ff) is written through the
/// machine's bus; at any other address a memory breakpoint halts the processor.
pub open spec fn operand_write_rel(t0: Target, t1: Target, instruction: Instruction, arg: Operand, r: Result<(), Error>) -> bool {
    if !writes_operand(instruction) || !(arg is Address) {
        r is Ok && t1 == t0
    } else {
        let a = arg->Address_0;
        match io_operand(arg) {
            Some(a) => bus_write_rel(t0, t1, a, crate::cpu::mos6502::bus::bus_read(t0.cpu@.bus, a), r),
            None => r is Ok && t1.cpu@ == break_cpu(t0, a, true) && t1 == (Target { cpu: t1.cpu, ..t0 }),
        }
    }
}

/// The stages of one machine step from `t0` to `t1`: `ti` after the interrupt check, `tb`
/// after the device operand was read (outcome `rr`), `tc` after the instruction, `td`
/// after the device operand was written (outcome `rw`), then the vertical blank check.
pub open spec fn step_stages(
    t0: Target,
    ti: Target,
    tb: Target,
    tc: Target,
    td: Target,
    t1: Target,
    rr: Result<(), Error>,
    rw: Result<(), Error>,
    r: Result<(), Error>,
) -> bool {
    let c1 = interrupt_spec(t0.cpu@);
    let instruction = next_access_spec(c1).0;
    let arg = next_access_spec(c1).1;
    &&& ti.cpu@ == c1
    &&& ti == (Target { cpu: ti.cpu, ..t0 })
    &&& operand_read_rel(ti, tb, instruction, arg, rr)
    &&& match rr {
        Err(e) => r == Err::<(), Error>(e) && t1 == tb,
        Ok(_) => {
            &&& tc.cpu@ == instruction_spec(tb.cpu@).0
            &&& tc == (Target { cpu: tc.cpu, ..tb })
            &&& operand_write_rel(tc, td, instruction, arg, rw)
            &&& match rw {
                Err(e) => r == Err::<(), Error>(e) && t1 == td,
                Ok(_) => r == instruction_spec(tb.cpu@).1 && tick_rel(td, t1),
            }
        },
    }
}

/// One step of the machine from `t0` to `t1` with outcome `r`: a pending interrupt is
/// taken, a device register named by the next instruction's operand is read through the
/// machine's bus (a memory breakpoint at any other operand address breaks), the instruction
/// runs, the register is written back through the machine's bus (a memory breakpoint at
/// any other operand address halts), and the vertical blank is checked.
pub open spec fn step_rel(t0: Target, t1: Target, r: Result<(), Error>) -> bool {
    exists|ti: Target, tb: Target, tc: Target, td: Target, rr: Result<(), Error>, rw: Result<(), Error>|
        #[trigger] step_stages(t0, ti, tb, tc, td, t1, rr, rw, r)
}

impl Target {
    /// Copies the ROM of each card in slots 1 to 7 into its page (0xc100-0xc7ff) of the
    /// processor's view of the slot area, where the processor fetches the cards' code.
    pub fn fill_slot_roms(&mut self)
        requires
            target_wf(*old(self)),
        ensures
            target_wf(*final(self)),
            final(self).peripheral_manager@ == old(self).peripheral_manager@,
            final(self).extended_text == old(self).extended_text,
            final(self).iic_bank_switcher == old(self).iic_bank_switcher,
            final(self).cpu@.variant == old(self).cpu@.variant,
            final(self).cpu.clock_rate() == old(self).cpu.clock_rate(),
            final(self).cpu@ == with_writes(old(self).cpu@, slot_rom_writes(*old(self), 8)),
            *final(self) == (Target { cpu: final(self).cpu, ..*old(self) }),
    {
        let ghost t0 = *self;
        let mut slot: usize = 1;
        while slot < 8
            invariant
                1 <= slot <= 8,
                target_wf(*self),
                *self == (Target { cpu: self.cpu, ..t0 }),
                target_wf(t0),
                self.cpu@.variant == t0.cpu@.variant,
                self.cpu.clock_rate() == t0.cpu.clock_rate(),
                self.cpu@ == with_writes(t0.cpu@, slot_rom_writes(t0, slot as nat)),
            decreases 8 - slot,
        {
            let ghost before = slot_rom_writes(t0, slot as nat);
            if self.peripheral_manager.kind_at(slot).is_some() {
                let mut off: usize = 0;
                while off < 0x100
                    invariant
                        off <= 0x100,
                        1 <= slot < 8,
                        target_wf(*self),
                        *self == (Target { cpu: self.cpu, ..t0 }),
                        t0.peripheral_manager@.peripherals[slot as int] is Some,
                        self.cpu@.variant == t0.cpu@.variant,
                        self.cpu.clock_rate() == t0.cpu.clock_rate(),
                        before == slot_rom_writes(t0, slot as nat),
                        self.cpu@ == with_writes(with_writes(t0.cpu@, before), page_writes(t0, slot, off as nat)),
                    decreases 0x100 - off,
                {
                    let ghost c0 = self.cpu@;
                    let ghost page = page_writes(t0, slot, off as nat);
                    match self.card_rom(slot, off) {
                        Ok(v) => {
                            self.cpu.write_bus((0xc000 + slot * 0x100 + off) as u16, v);
                            proof {
                                assert(page_writes(t0, slot, (off + 1) as nat).drop_last() == page);
                            }
                        },
                        Err(_) => {},
                    }
                    off += 1;
                }
                proof {
                    lemma_with_writes_concat(t0.cpu@, before, page_writes(t0, slot, 256));
                }
            } else {
                proof {
                    assert(before + Seq::<(u16, u8)>::empty() =~= before);
                }
            }
            slot += 1;
        }
    }

    /// The device register named by an instruction's operand, if it names one (0xc000-0xc0ff).
    fn io_operand_of(arg: Operand) -> (r: Option<u16>)
        ensures
            r == io_operand(arg),
    {
        match arg {
            Operand::Address(a) => if a >= 0xc000 && a <= 0xc0ff {
                Some(a)
            } else {
                None
            },
            _ => None,
        }
    }

    /// Before an instruction that reads the memory its operand names: a device register is
    /// read through the machine's bus, and its value put where the processor reads it; at
    /// any other address a memory breakpoint breaks into the debugger.
    fn read_operand(&mut self, instruction: Instruction, arg: Operand) -> (r: Result<(), Error>)
        requires
            target_wf(*old(self)),
        ensures
            target_wf(*final(self)),
            operand_read_rel(*old(self), *final(self), instruction, arg, r),
    {
        if !instruction_reads_operand(instruction) {
            return Ok(());
        }
        match arg {
            Operand::Address(a) => match Self::io_operand_of(arg) {
                Some(a) => {
                    let v = self.bus_read(a);
                    let ghost tm = *self;
                    match v {
                        Ok(x) => {
                            self.cpu.write_bus(a, x);
                            assert(bus_read_rel(*old(self), tm, a, v));
                            Ok(())
                        },
                        Err(e) => {
                            assert(bus_read_rel(*old(self), tm, a, v));
                            Err(e)
                        },
                    }
                },
                None => {
                    if self.memory_breakpoint_listener.contains(a as usize) {
                        let _ = self.cpu.force_break();
                    }
                    Ok(())
                },
            },
            _ => Ok(()),
        }
    }

    /// After an instruction that writes the memory its operand names: the value the
    /// processor wrote at a device register's address is written through the machine's
    /// bus; at any other address a memory breakpoint halts the processor.
    fn write_operand(&mut self, instruction: Instruction, arg: Operand) -> (r: Result<(), Error>)
        requires
            target_wf(*old(self)),
        ensures
            target_wf(*final(self)),
            operand_write_rel(*old(self), *final(self), instruction, arg, r),
    {
        if !instruction_writes_operand(instruction) {
            return Ok(());
        }
        match arg {
            Operand::Address(a) => match Self::io_operand_of(arg) {
                Some(a) => {
                    let w = self.cpu.read_bus(a);
                    self.bus_write(a, w)
                },
                None => {
                    if self.memory_breakpoint_listener.contains(a as usize) {
                        let _ = self.cpu.halt();
                    }
                    Ok(())
                },
            },
            _ => Ok(()),
        }
    }

    /// One instruction of the machine: a pending interrupt is taken; an instruction whose
    /// operand is a device register (0xc000-0xc0ff) reads it through the machine's bus first
    /// and writes it through the machine's bus after, and a memory breakpoint at any other
    /// operand address breaks (a read) or halts (a write); then the vertical blank is
    /// checked. Every other access of the instruction (its fetch, pointers, the stack, other
    /// operands) goes to the processor's own memory.
    #[verifier::spinoff_prover]
    pub fn step(&mut self) -> (r: Result<(), Error>)
        requires
            target_wf(*old(self)),
        ensures
            target_wf(*final(self)),
            step_rel(*old(self), *final(self), r),
    {
        let ghost t0 = *self;
        self.cpu.check_interrupts();
        let (instruction, arg) = self.cpu.next_access();
        let ghost ti = *self;
        let rr = self.read_operand(instruction, arg);
        let ghost tb = *self;
        match rr {
            Err(e) => {
                assert(step_stages(t0, ti, tb, tb, tb, *self, rr, rr, Err(e)));
                return Err(e);
            },
            Ok(()) => {},
        }
        let r = self.cpu.execute_next_instruction();
        let ghost tc = *self;
        let rw = self.write_operand(instruction, arg);
        let ghost td = *self;
        match rw {
            Err(e) => {
                assert(step_stages(t0, ti, tb, tc, td, *self, rr, rw, Err(e)));
                return Err(e);
            },
            Ok(()) => {},
        }
        self.tick();
        assert(step_stages(t0, ti, tb, tc, td, *self, rr, rw, r));
        r
    }
}

} // verus!
