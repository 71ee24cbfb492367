use emu::emulator::ResetType;
use emu::errors::Error;
use emu::targets::appleii::args::{AppleIIArgs, AppleIIEArgs, RunArgs, Variant};
use emu::targets::appleii::io::peripheral::PeripheralKind;
use emu::targets::appleii::io::soft_switches::Switch;
use emu::targets::appleii::target::{Target, TargetRoms};
use emu::cpu::mos6502::ExecutionRequest;
use emu::targets::appleii::target::{lowered_kind, ProgramKind};
use emu::targets::appleii::io::disks::dsk::SystemType;

fn apple_ii_args() -> RunArgs {
    RunArgs {
        variant: Variant::AppleII(AppleIIArgs::default_args()),
        program_rom: None,
        serial_port: None,
        serial_force_zero_baud: None,
    }
}

/// ROMs of zeros, with a program at 0xf800 and the reset vector pointing at it.
fn roms(program: &[u8]) -> TargetRoms {
    let mut f8 = vec![0xeau8; 0x800];
    f8[..program.len()].copy_from_slice(program);
    f8[0x7fc] = 0x00;
    f8[0x7fd] = 0xf8;
    let mut diskii = vec![0u8; 256];
    diskii[0] = 0xa2;
    TargetRoms {
        system: vec![f8, vec![0; 0x800], vec![0; 0x800], vec![0; 0x800], vec![0; 0x800], vec![0; 0x800]],
        character: vec![0; 0x800],
        language_card: vec![0; 0x100],
        super_serial: vec![0; 0x800],
        mouse: vec![0; 0x100],
        smartport: vec![0; 0x100],
        diskii,
    }
}

#[test]
fn machine_is_built_and_reset() {
    let t = Target::new(&apple_ii_args(), &roms(&[]), None).unwrap();
    assert_eq!(0xf800, t.cpu.registers().pc);
    assert_eq!("apple-ii", t.target_type_id());
    assert_eq!(Some(PeripheralKind::DiskII), t.peripheral_manager.kind_at(6));
    assert_eq!(Some(PeripheralKind::MouseCard), t.peripheral_manager.kind_at(4));
    assert!(t.extended_text.is_none());
    // the Disk II boot ROM shows in its slot page
    assert_eq!(0xa2, t.cpu.read_bus(0xc600));
}

#[test]
fn short_system_rom_is_refused() {
    let mut r = roms(&[]);
    r.system[1] = vec![0; 0x100];
    assert!(matches!(Target::new(&apple_ii_args(), &r, None), Err(Error::UnmappedAddress { .. })));
}

#[test]
fn bus_routes_to_devices() {
    let mut t = Target::new(&apple_ii_args(), &roms(&[]), None).unwrap();
    t.keyboard.push_next_key(0xc1);
    assert_eq!(Ok(0xc1), t.bus_read(0xc000));
    assert_eq!(Ok(0), t.bus_read(0xc010));
    assert_eq!(Ok(0x41), t.bus_read(0xc000));
    assert_eq!(Ok(0x80), t.bus_read(0xc051));
    assert!(t.soft_switches.get(Switch::TextMode));
    assert_eq!(Ok(0), t.bus_read(0xc030));
    assert_eq!(1, t.speaker_toggles);
    assert_eq!(Ok(0x80), t.bus_read(0xc063));
    t.bus_write(0x300, 0x42).unwrap();
    assert_eq!(Ok(0x42), t.bus_read(0x300));
}

#[test]
fn language_card_takes_over_high_memory() {
    let mut t = Target::new(&apple_ii_args(), &roms(&[]), None).unwrap();
    assert_eq!(Ok(0xea), t.bus_read(0xf801));
    t.bus_read(0xc08b).unwrap();
    t.bus_read(0xc08b).unwrap();
    t.bus_write(0xf801, 0x11).unwrap();
    assert_eq!(Ok(0x11), t.bus_read(0xf801));
    t.bus_read(0xc082).unwrap();
    assert_eq!(Ok(0xea), t.bus_read(0xf801));
}

#[test]
fn instructions_reach_devices() {
    // LDA $C000; STA $C010
    let mut t = Target::new(&apple_ii_args(), &roms(&[0xad, 0x00, 0xc0, 0x8d, 0x10, 0xc0]), None).unwrap();
    t.keyboard.push_next_key(0xc8);
    t.step().unwrap();
    assert_eq!(0xc8, t.cpu.registers().accumulator);
    t.step().unwrap();
    assert_eq!(Ok(0x48), t.bus_read(0xc000));
}

#[test]
fn memory_breakpoints_on_the_bus() {
    let mut t = Target::new(&apple_ii_args(), &roms(&[]), None).unwrap();
    t.memory_breakpoint_listener.add_memory_breakpoint(0x400).unwrap();
    t.bus_read(0x400).unwrap();
    assert_eq!(ExecutionRequest::ForceBreak, t.cpu.execution_request());
    t.bus_write(0x400, 1).unwrap();
    assert_eq!(ExecutionRequest::Halt, t.cpu.execution_request());
}

#[test]
fn cold_reset_clears_memory_and_switches() {
    let mut t = Target::new(&apple_ii_args(), &roms(&[]), None).unwrap();
    t.bus_write(0x300, 0x42).unwrap();
    t.bus_read(0xc051).unwrap();
    t.reset(ResetType::Warm);
    assert_eq!(Ok(0x42), t.bus_read(0x300));
    t.reset(ResetType::Cold);
    assert_eq!(Ok(0), t.bus_read(0x300));
    assert!(!t.soft_switches.get(Switch::TextMode));
    assert_eq!(ExecutionRequest::Resume, t.cpu.execution_request());
}

#[test]
fn programs_are_loaded_by_kind() {
    let mut t = Target::new(&apple_ii_args(), &roms(&[]), None).unwrap();
    assert_eq!(Err(Error::UnsupportedProgramType), t.load_program("readme.txt", vec![]));
    assert_eq!(Ok(()), t.load_program("disk.hdv", vec![0; 1024]));
    assert_eq!(Some(PeripheralKind::Smartport), t.peripheral_manager.kind_at(5));
    assert_eq!(Err(Error::UnexpectedEof), t.load_program("game.dsk", vec![0; 100]));
    assert_eq!(Ok(()), t.load_program("game.dsk", vec![0; 143360]));
    t.unload_program().unwrap();
}

#[test]
fn apple_iie_has_aux_memory() {
    let args = RunArgs {
        variant: Variant::AppleIIE(AppleIIEArgs { rom_c0: None, rom_e0: None }),
        program_rom: None,
        serial_port: None,
        serial_force_zero_baud: None,
    };
    let mut r = roms(&[]);
    let mut e0 = vec![0u8; 0x2000];
    e0[0x1ffc] = 0x00;
    e0[0x1ffd] = 0xe0;
    r.system = vec![vec![0u8; 0x2000], e0];
    let mut t = Target::new(&args, &r, None).unwrap();
    assert!(t.extended_text.is_some());
    assert_eq!(0xe000, t.cpu.registers().pc);
    // RAMWRT on: writes to 0x300 go to auxiliary memory
    t.bus_write(0xc005, 0).unwrap();
    t.bus_write(0x300, 7).unwrap();
    assert_eq!(Ok(0), t.bus_read(0x300));
    t.bus_write(0xc003, 0).unwrap();
    assert_eq!(Ok(7), t.bus_read(0x300));
}

#[test]
fn new_machine_state_and_free_slots() {
    let t = Target::new(&apple_ii_args(), &roms(&[]), None).unwrap();
    let regs = t.cpu.registers();
    assert_eq!(0xf800, regs.pc);
    assert!(regs.status.irq_disable);
    assert_eq!(emu::targets::ExecutionState::Stopped, t.cpu.execution_state());
    for slot in [2usize, 3, 5, 7] {
        assert_eq!(None, t.peripheral_manager.kind_at(slot));
    }
    assert_eq!(Some(PeripheralKind::LanguageCard), t.peripheral_manager.kind_at(0));
    assert_eq!(Some(PeripheralKind::SuperSerialCard), t.peripheral_manager.kind_at(1));
}

#[test]
fn system_roms_sit_where_the_machine_puts_them() {
    let mut r = roms(&[]);
    for (i, rom) in r.system.iter_mut().enumerate().skip(1) {
        rom[0] = i as u8;
        rom[0x7ff] = 0x10 + i as u8;
    }
    let t = Target::new(&apple_ii_args(), &r, None).unwrap();
    for (i, base) in [(1u8, 0xd000u16), (2, 0xd800), (3, 0xe000), (4, 0xe800), (5, 0xf000)] {
        assert_eq!(i, t.cpu.read_bus(base));
        assert_eq!(0x10 + i, t.cpu.read_bus(base + 0x7ff));
    }
    let args = RunArgs {
        variant: Variant::AppleIIE(AppleIIEArgs { rom_c0: None, rom_e0: None }),
        program_rom: None,
        serial_port: None,
        serial_force_zero_baud: None,
    };
    let mut c0 = vec![0u8; 0x2000];
    c0[0x1000] = 0x5a;
    let mut e0 = vec![0u8; 0x2000];
    e0[0] = 0xa5;
    e0[0x1ffc] = 0x00;
    e0[0x1ffd] = 0xe0;
    r.system = vec![c0, e0];
    let t = Target::new(&args, &r, None).unwrap();
    assert_eq!(0x5a, t.cpu.read_bus(0xd000));
    assert_eq!(0xa5, t.cpu.read_bus(0xe000));
}

#[test]
fn short_language_card_rom_is_refused() {
    let mut r = roms(&[]);
    r.language_card = vec![0; 0x10];
    assert!(matches!(Target::new(&apple_ii_args(), &r, None), Err(Error::InvalidSize)));
}

#[test]
fn program_kinds_by_lowered_name() {
    assert!(matches!(lowered_kind("game.woz"), Ok(ProgramKind::Woz)));
    assert!(matches!(lowered_kind("disk.hdv"), Ok(ProgramKind::HardDisk)));
    assert!(matches!(lowered_kind("a.dsk"), Ok(ProgramKind::Dsk(SystemType::Dos))));
    assert!(matches!(lowered_kind("a.po"), Ok(ProgramKind::Dsk(SystemType::ProDos))));
    assert!(matches!(lowered_kind("GAME.WOZ"), Err(Error::UnsupportedProgramType)));
}

#[test]
fn hard_disk_image_goes_to_the_smartport_card() {
    let mut t = Target::new(&apple_ii_args(), &roms(&[]), None).unwrap();
    assert_eq!(None, t.peripheral_manager.kind_at(5));
    t.load_program("disk.hdv", vec![7; 1024]).unwrap();
    assert_eq!(Some(PeripheralKind::Smartport), t.peripheral_manager.kind_at(5));
    // the Smartport ROM marks an attached disk at 0xfe of its slot page
    assert_eq!(Ok(0xd3), t.bus_read(0xc5fe));
}

#[test]
fn cold_reset_puts_the_processor_at_the_reset_vector() {
    let mut t = Target::new(&apple_ii_args(), &roms(&[0xea, 0xea]), None).unwrap();
    t.step().unwrap();
    assert_eq!(0xf801, t.cpu.registers().pc);
    t.reset(ResetType::Cold);
    assert_eq!(0xf800, t.cpu.registers().pc);
    assert!(t.cpu.registers().status.irq_disable);
}

#[test]
fn step_writes_device_operand_through_the_bus() {
    // STA $C051: text mode on
    let mut t = Target::new(&apple_ii_args(), &roms(&[0x8d, 0x51, 0xc0]), None).unwrap();
    t.step().unwrap();
    assert!(t.soft_switches.get(Switch::TextMode));
    assert_eq!(0xf803, t.cpu.registers().pc);
}

#[test]
fn memory_breakpoints_on_instruction_operands() {
    // LDA $0400; STA $0400
    let mut t = Target::new(&apple_ii_args(), &roms(&[0xad, 0x00, 0x04, 0x8d, 0x00, 0x04]), None).unwrap();
    t.memory_breakpoint_listener.add_memory_breakpoint(0x400).unwrap();
    t.step().unwrap();
    assert_eq!(ExecutionRequest::ForceBreak, t.cpu.execution_request());
    t.step().unwrap();
    assert_eq!(ExecutionRequest::Halt, t.cpu.execution_request());
}
