use emu::cpu::mos6502::bus::memory::MemoryBank;
use emu::cpu::mos6502::bus::Bus;
use emu::cpu::mos6502::{ExecutionRequest, Mos6502, Variant};
use emu::cpu::InterruptConnection;
use emu::errors::Error;
use emu::peripherals::serial::modem::{parse_command, ModemCommand, ModemLine};
use emu::peripherals::serial::{SerialDeviceOptions, SerialParity};
use emu::targets::appleii::args::Variant as MachineVariant;
use emu::targets::appleii::io::keyboard::{Key, KeyInput, Keyboard};
use emu::targets::appleii::io::memory::iic_bank::AppleIICBankSwitcher;
use emu::targets::appleii::io::misc::MiscIo;
use emu::targets::appleii::io::peripheral::{PeripheralKind, PeripheralManager, PeripheralRead, PeripheralWrite};
use emu::targets::appleii::io::peripherals::diskii::{DiskIIPeripheral, DiskTiming};
use emu::targets::appleii::io::peripherals::extended_text::Extended80ColumnText;
use emu::targets::appleii::io::peripherals::language::{Bank, LanguageCard, Location};
use emu::targets::appleii::io::peripherals::mouse::MouseCard;
use emu::targets::appleii::io::peripherals::smartport::Smartport;
use emu::targets::appleii::io::peripherals::superserial::{SerialAction, SuperSerialCard};
use emu::targets::appleii::io::soft_switches::{SoftSwitches, Switch};
use emu::targets::appleii::io::video::character_rom::{glyph_row_text, reverse_bits, CharacterROM};
use emu::targets::appleii::io::video::vbl::VblTickListener;
use emu::targets::appleii::io::video::video7::Video7Listener;
use emu::targets::appleii::io::video::{MonitorType, Rgb, Video, VideoMode};
use emu::targets::appleii::target::{
    cpu_variant, mouse_slot, program_kind, target_type_id, IICBankSwitchListener, MemoryBreakpointListener, ProgramKind,
    TargetFactory,
};
use emu::targets::appleii::args::AppleIICArgs;
use emu::targets::appleii::io::disks::dsk::SystemType;
use emu::peripherals::serial::modem::{command_reply, dial_command, DialOutcome};

fn ram_cpu() -> Mos6502 {
    let mut bus = Bus::new();
    bus.connect(0, 0x10000, MemoryBank::new(0x10000, false));
    Mos6502::new(bus, 1022727, Variant::Original)
}

#[test]
fn soft_switches_start_with_ioudis_on() {
    let s = SoftSwitches::new();
    assert!(s.get(Switch::Ioudis));
    assert!(!s.get(Switch::TextMode));
}

#[test]
fn soft_switch_on_off_and_read_back() {
    let mut s = SoftSwitches::new();
    let (v, u) = s.read(0xc051);
    assert_eq!(0x80, v);
    let u = u.unwrap();
    assert_eq!(Switch::TextMode, u.switch);
    assert!(!u.previous);
    assert!(u.value);
    assert_eq!((0x80, None), s.read(0xc01a));
    assert!(s.write(0xc050, 0).is_some());
    assert_eq!((0, None), s.read(0xc01a));
}

#[test]
fn write_only_switch_ignores_reads() {
    let mut s = SoftSwitches::new();
    assert_eq!((0, None), s.read(0xc001));
    assert!(!s.get(Switch::Eightystore));
    assert!(s.write(0xc001, 0).is_some());
    assert!(s.get(Switch::Eightystore));
    assert_eq!((0, None), s.read(0xc0ff));
}

#[test]
fn keyboard_latches_and_queues_keys() {
    let mut k = Keyboard::new();
    k.push_next_key(0xc1);
    k.push_next_key(0xc2);
    assert_eq!(0xc1, k.read(0));
    assert_eq!(0, k.read(0x10));
    assert_eq!(0xc2, k.read(0));
    k.clear_strobe();
    assert_eq!(0x42, k.read(0));
}

#[test]
fn keyboard_maps_keys_with_modifiers() {
    let mut k = Keyboard::new();
    let mut misc = MiscIo::new();
    let input = KeyInput { paste: None, alt: true, ctrl: true, shift: false, keys: vec![Key::C] };
    k.process_keys(&input, &mut misc);
    assert_eq!(0x83, k.read(0));
    assert_eq!(0x80, misc.read(1));
    assert_eq!((0xe1, 0x81, 0xc1, 0x81), Keyboard::key_codes(Key::A, false, false));
    assert_eq!((0xad, 0xad, 0xdf, 0xad), Keyboard::key_codes(Key::Minus, true, false));
    assert_eq!((0, 0, 0, 0), Keyboard::key_codes(Key::Other, true, false));
}

#[test]
fn keyboard_pastes_text() {
    let mut k = Keyboard::new();
    let mut misc = MiscIo::new();
    let input = KeyInput { paste: Some(vec!['h', '\n', 'é']), alt: false, ctrl: false, shift: false, keys: vec![] };
    k.process_keys(&input, &mut misc);
    assert_eq!(0xe8, k.read(0));
    k.clear_strobe();
    assert_eq!(0x8d, k.read(0));
    k.clear_strobe();
    assert_eq!(0x0d, k.read(0));
}

#[test]
fn keyboard_write_clears_80store() {
    let mut k = Keyboard::new();
    let mut s = SoftSwitches::new();
    s.set(Switch::Eightystore, true);
    k.write(0, 0, &mut s);
    assert!(!s.get(Switch::Eightystore));
}

#[test]
fn misc_io_game_switches() {
    let mut m = MiscIo::new();
    assert_eq!(0x80, m.read(3));
    m.update_game_switch(1, true);
    assert_eq!(0x80, m.read(2));
    m.update_game_switch(5, true);
    assert_eq!(0, m.read(0));
}

#[test]
fn language_card_write_enable_takes_two_reads() {
    let mut lc = LanguageCard::new(&[0u8; 256]);
    let mut s = SoftSwitches::new();
    lc.device_read(0x0b, &mut s).unwrap();
    assert_eq!(Location::Rom, lc.config().mode.write);
    lc.device_read(0x0b, &mut s).unwrap();
    assert_eq!(Location::Ram, lc.config().mode.write);
    assert_eq!(Location::Ram, lc.config().mode.read);
    assert_eq!(Bank::One, lc.config().bank);
    assert!(s.get(Switch::Rdlcram));
    assert!(!s.get(Switch::Rdlbnk2));
    assert_eq!(Some(()), lc.intercept_write(0xd010, 0x42));
    assert_eq!(Some(0x42), lc.intercept_read(0xd010));
    assert_eq!(None, lc.intercept_read(0xc000));
}

#[test]
fn language_card_writes_do_not_enable() {
    let mut lc = LanguageCard::new(&[0u8; 256]);
    let mut s = SoftSwitches::new();
    lc.device_write(0x03, 0, &mut s).unwrap();
    lc.device_write(0x03, 0, &mut s).unwrap();
    assert_eq!(Location::Rom, lc.config().mode.write);
    assert_eq!(Bank::Two, lc.config().bank);
    lc.reset(&mut s);
    assert_eq!(Location::Rom, lc.config().mode.read);
}

#[test]
fn aux_memory_routing() {
    let mut t = Extended80ColumnText::new();
    let mut s = SoftSwitches::new();
    let lc = LanguageCard::new(&[0u8; 256]);
    assert_eq!(Ok(None), t.intercept_read(0x300, &s, lc.config()));
    s.set(Switch::Ramwrt, true);
    assert_eq!(Ok(Some(())), t.intercept_write(0x300, 7, &s, lc.config()));
    s.set(Switch::Ramrd, true);
    assert_eq!(Ok(Some(7)), t.intercept_read(0x300, &s, lc.config()));
    s.set(Switch::Eightystore, true);
    assert_eq!(Ok(None), t.intercept_read(0x400, &s, lc.config()));
    assert_eq!(Ok(7), t.read(0x300));
    assert!(matches!(t.read(0x10000), Err(Error::MemoryFault { .. })));
}

#[test]
fn iic_bank_toggles() {
    let mut rom = vec![0u8; 0x8000];
    rom[0x10] = 1;
    rom[0x4010] = 2;
    let mut sw = AppleIICBankSwitcher::new(MemoryBank::new_with_data(&rom, true));
    assert!(sw.is_main_bank());
    assert_eq!(Ok(1), sw.read(0x10));
    sw.toggle_bank();
    assert_eq!(Ok(2), sw.read(0x10));
    let mut s = SoftSwitches::new();
    let listener = IICBankSwitchListener::new();
    let update = s.write(0xc028, 0).unwrap();
    listener.on_updated(update, &mut sw);
    assert!(sw.is_main_bank());
}

#[test]
fn peripheral_slots() {
    let mut pm = PeripheralManager::new(false);
    assert_eq!(Err(Error::InvalidSlot), pm.assign(8, PeripheralKind::DiskII));
    assert_eq!(Ok(()), pm.assign(6, PeripheralKind::DiskII));
    assert_eq!(Err(Error::SlotOccupied { slot: 6 }), pm.assign(6, PeripheralKind::MouseCard));
    assert!(pm.is_assigned(6));
    assert!(pm.is_assigned(9));
    let s = SoftSwitches::new();
    assert_eq!(PeripheralRead::Device { slot: 6, offset: 0xc }, pm.read(0xec, &s));
    assert_eq!(PeripheralRead::SlotRom { slot: 6, offset: 0x5c }, pm.read(0x65c, &s));
    assert_eq!(PeripheralRead::ExpansionRom { slot: 6, offset: 0x10, fallback: false }, pm.read(0x810, &s));
    assert_eq!(PeripheralRead::Value(0), pm.read(0xfff, &s));
    assert_eq!(PeripheralRead::Value(0), pm.read(0x810, &s));
    assert_eq!(PeripheralWrite::Device { slot: 6, offset: 0 }, pm.write(0xe0, 1));
    assert_eq!(PeripheralWrite::Ignored, pm.write(0x90, 1));
    pm.unassign(6);
    assert!(!pm.is_assigned(6));
}

#[test]
fn internal_rom_answers_slot_3() {
    let mut pm = PeripheralManager::new(true);
    let s = SoftSwitches::new();
    assert_eq!(PeripheralRead::InternalRom(0x310), pm.read(0x310, &s));
    assert_eq!(PeripheralRead::InternalRom(0x810), pm.read(0x810, &s));
}

#[test]
fn smartport_boots_and_reports_status() {
    let mut sp = Smartport::new(&[0u8; 256]);
    let mut cpu = ram_cpu();
    assert_eq!(Ok(0), sp.read_rom(0xfe));
    let mut image = vec![0u8; 1024];
    image[0] = 0x01;
    image[511] = 0x99;
    sp.attach(&image).unwrap();
    assert_eq!(Ok(0xd3), sp.read_rom(0xfe));
    assert_eq!(Ok(0x80), sp.device_read(0, &mut cpu));
    assert_eq!(0x01, cpu.read_bus(0x800));
    assert_eq!(0x99, cpu.read_bus(0x9ff));
    // ProDOS status call: 2 blocks
    cpu.write_bus(0x42, 0);
    assert_eq!(Ok(0), sp.device_read(1, &mut cpu));
    assert_eq!(Ok(2), sp.device_read(2, &mut cpu));
    assert_eq!(Ok(0), sp.device_read(3, &mut cpu));
    // unknown command
    cpu.write_bus(0x42, 9);
    assert_eq!(Ok(0x27), sp.device_read(1, &mut cpu));
    sp.detach();
    assert_eq!(Ok(0), sp.read_rom(0xfe));
}

#[test]
fn smartport_reads_a_block_into_memory() {
    let mut sp = Smartport::new(&[0u8; 256]);
    let mut cpu = ram_cpu();
    let mut image = vec![0u8; 1024];
    image[512] = 0x5a;
    sp.attach(&image).unwrap();
    cpu.write_bus(0x42, 1);
    cpu.write_bus(0x44, 0x00);
    cpu.write_bus(0x45, 0x20);
    cpu.write_bus(0x46, 1);
    cpu.write_bus(0x47, 0);
    assert_eq!(Ok(0), sp.device_read(1, &mut cpu));
    assert_eq!(0x5a, cpu.read_bus(0x2000));
}

#[test]
fn mouse_reports_position_to_basic() {
    let mut m = MouseCard::new(&[0u8; 256], 4);
    let mut cpu = ram_cpu();
    m.process_mouse(12, -3, true);
    assert_eq!(Ok(0x8d), m.device_read(10, &mut cpu));
    let mut line = vec![];
    for _ in 0..7 {
        line.push(m.device_read(10, &mut cpu).unwrap() & 0x7f);
    }
    assert_eq!(b"12,-3,-".to_vec(), line);
    // ServeMouse: the button event is flagged
    assert_eq!(Ok(1), m.device_read(4, &mut cpu));
}

#[test]
fn mouse_read_writes_scratchpad() {
    let mut m = MouseCard::new(&[0u8; 256], 4);
    let mut cpu = ram_cpu();
    m.process_mouse(0x123, 5, false);
    m.device_write(2, 0, &mut cpu).unwrap();
    assert_eq!(0x23, cpu.read_bus(0x478 + 4));
    assert_eq!(0x01, cpu.read_bus(0x478 + 0x100 + 4));
    assert_eq!(5, cpu.read_bus(0x478 + 0x80 + 4));
    // after ReadMouse the events are clear
    assert_eq!(Ok(0), m.device_read(4, &mut cpu));
}

#[test]
fn mouse_vbl_interrupt() {
    let mut m = MouseCard::new(&[0u8; 256], 4);
    let mut cpu = ram_cpu();
    m.device_write(1, 0x08, &mut cpu).unwrap();
    m.signal_vbl(&mut cpu);
    assert_eq!(Ok(1), m.device_read(4, &mut cpu));
}

#[test]
fn serial_card_baud_and_parity() {
    let mut card = SuperSerialCard::new(&[0u8; 0x800]);
    let mut cpu = ram_cpu();
    assert_eq!(9600, card.get_baud_rate());
    assert_eq!(SerialParity::NoParity, card.get_parity());
    card.device_write(0x0b, 0x1e, &mut cpu).unwrap();
    assert_eq!(9600, card.get_baud_rate());
    card.device_write(0x0b, 0x1f, &mut cpu).unwrap();
    assert_eq!(19200, card.get_baud_rate());
    let action = card.device_write(0x0a, 0x61, &mut cpu).unwrap();
    assert_eq!(
        Some(SerialAction::Open(SerialDeviceOptions { parity: SerialParity::Even, baud: 19200 })),
        action
    );
    assert_eq!(Ok(Some(SerialAction::Send(0x41))), card.device_write(8, 0xc1, &mut cpu));
    assert_eq!(Ok(Some(SerialAction::Close)), card.device_write(0x0a, 0x00, &mut cpu));
}

#[test]
fn serial_card_receives_bytes() {
    let mut card = SuperSerialCard::new(&[0u8; 0x800]);
    let mut cpu = ram_cpu();
    assert_eq!(Ok(0x70), card.device_read(9, &mut cpu));
    card.receive_byte(0x41, &mut cpu);
    card.receive_byte(0x42, &mut cpu);
    assert_eq!(Ok(0x41), card.device_read(8, &mut cpu));
    assert_eq!(Ok(0x42), card.device_read(8, &mut cpu));
    assert_eq!(Ok(0), card.device_read(8, &mut cpu));
}

#[test]
fn diskii_status_and_motor() {
    let mut d = DiskIIPeripheral::new(MemoryBank::new_with_data(&[0xa2u8; 256], true), 0);
    let t = DiskTiming { bit_step: 4, bit_threshold: 5, data_valid: 7, motor_off: 1_000_000, write_bit: 4 };
    assert_eq!(Ok(0xa2), d.read_rom(0));
    d.device_write(0x0f, 0, 10, t).unwrap();
    d.device_write(0x0d, 0x1f, 10, t).unwrap();
    assert_eq!(Ok(0x1f), d.device_read(0x0e, 20, t));
    assert_eq!(Ok(0x1f), d.device_read(0x0e, 20, t));
    assert_eq!(Ok(0), d.device_read(0x09, 30, t));
    assert_eq!(Ok(0), d.device_read(0x01, 40, t));
}

#[test]
fn video7_sequence_selects_mode() {
    let mut l = Video7Listener::new();
    let mut s = SoftSwitches::new();
    let mut mode = None;
    for addr in [0xc057usize, 0xc052, 0xc00c, 0xc05e, 0xc05f, 0xc05e, 0xc05f, 0xc05e] {
        let update = if addr == 0xc00c { s.write(addr, 0) } else { s.read(addr).1 };
        if let Some(u) = update {
            if let Some(m) = l.on_updated(u) {
                mode = Some(m);
            }
        }
    }
    assert_eq!(Some(VideoMode::Video7BlackWhite), mode);
}

#[test]
fn vbl_enters_and_leaves() {
    let mut l = VblTickListener::new(0);
    let mut s = SoftSwitches::new();
    assert!(!l.tick_updated(100, &mut s));
    assert!(l.tick_updated(15360, &mut s));
    assert!(s.get(Switch::Vbl));
    assert!(!l.tick_updated(16800, &mut s));
    assert!(!s.get(Switch::Vbl));
    assert_eq!(16800, l.last_vbl);
}

#[test]
fn character_rom_bits() {
    assert_eq!(0b1000_0000, reverse_bits(1));
    assert_eq!(0b0000_0110, reverse_bits(0b0110_0000));
    let data = vec![0x0fu8; 0x800];
    let rom = CharacterROM::new(&data, false, false, false);
    assert_eq!(&[0xf0u8; 8][..], rom.get_character(0, false));
    assert_eq!(&[0x0fu8; 8][..], rom.get_character(0x80, true));
}

#[test]
fn video_draws_lores_and_text() {
    let mut data = vec![0u8; 0x800];
    for b in data.iter_mut() {
        *b = 0x7f;
    }
    let mut video = Video::new(CharacterROM::new(&data, false, false, false));
    let mut s = SoftSwitches::new();
    let mut ram = vec![0u8; 0xc000];
    ram[0x400] = 0x9f;
    let main = MemoryBank::new_with_data(&ram, false);
    // low resolution: text and hires off
    let frame = video.draw_frame(&s, &main, None);
    assert_eq!(560 * 384, frame.len());
    assert_eq!(Rgb { r: 255, g: 255, b: 255 }, frame[0]);
    assert_eq!(Rgb { r: 0xc7, g: 0x70, b: 0x28 }, frame[4 * 1120]);
    s.set(Switch::TextMode, true);
    video.set_monitor_type(MonitorType::Green);
    video.update_frame(&s, &main, None);
    assert_eq!(Rgb { r: 51, g: 255, b: 51 }, video.frame()[2]);
    assert_eq!(MonitorType::Green, video.get_monitor_type());
}

#[test]
fn modem_dials() {
    match parse_command(b"  ATDT example.com:23 ".to_vec()) {
        ModemCommand::Dial(host) => assert_eq!("example.com:23", host),
        ModemCommand::Unknown => panic!("expected a dial command"),
    }
    assert!(matches!(parse_command(b"ath".to_vec()), ModemCommand::Unknown));
    let mut line = ModemLine::new();
    assert_eq!((vec![b'a'], None), line.input_byte(b'a'));
    assert_eq!((vec![13u8, 10], Some(vec![b'a'])), line.input_byte(13));
    assert_eq!((vec![], Some(vec![])), line.input_byte(10));
}

#[test]
fn targets_and_programs() {
    let f = TargetFactory::new();
    assert_eq!("Apple II", f.name());
    assert_eq!(3, f.get_types().len());
    assert!(f.create("apple-iic").is_some());
    assert!(f.create("c64").is_none());
    let iic = MachineVariant::AppleIIC(AppleIICArgs { rom_c0: None });
    assert_eq!(Variant::Wdc65c02, cpu_variant(&iic));
    assert_eq!(7, mouse_slot(&iic));
    assert_eq!("apple-iic", target_type_id(&iic));
    assert_eq!(Ok(ProgramKind::Woz), program_kind("GAME.WOZ"));
    assert_eq!(Ok(ProgramKind::Dsk(SystemType::ProDos)), program_kind("disk.po"));
    assert_eq!(Ok(ProgramKind::HardDisk), program_kind("hd.hdv"));
    assert_eq!(Err(Error::UnsupportedProgramType), program_kind("notes.txt"));
}

#[test]
fn memory_breakpoints_stop_the_processor() {
    let mut l = MemoryBreakpointListener::new();
    let mut cpu = ram_cpu();
    l.add_memory_breakpoint(0x300).unwrap();
    l.add_memory_breakpoint(0x300).unwrap();
    assert_eq!(vec![0x300usize], l.list_memory_breakpoints().unwrap());
    l.read(0x300, &mut cpu).unwrap();
    assert_eq!(ExecutionRequest::ForceBreak, cpu.execution_request());
    l.write(0x300, 1, &mut cpu).unwrap();
    assert_eq!(ExecutionRequest::Halt, cpu.execution_request());
    l.delete_memory_breakpoint(0x300).unwrap();
    assert!(l.list_memory_breakpoints().unwrap().is_empty());
}

#[test]
fn interrupt_connection_raises_and_releases() {
    let mut cpu = ram_cpu();
    let c = InterruptConnection::new(9);
    c.trigger(&mut cpu, false);
    c.release(&mut cpu, false);
    let mut regs = cpu.registers();
    regs.status.irq_disable = false;
    cpu.set_registers(regs);
    cpu.set_pc(0x400).unwrap();
    cpu.write_bus(0x400, 0xea);
    cpu.execute_single().unwrap();
    assert_eq!(0x401, cpu.registers().pc);
}

#[test]
fn glyph_rows_as_text() {
    assert_eq!("*  *   *", glyph_row_text(0b1001_0001, false));
    assert_eq!("*   *  *", glyph_row_text(0b1001_0001, true));
}

#[test]
fn modem_replies() {
    assert_eq!("ERR: unknown command\r\n", command_reply(&ModemCommand::Unknown, None));
    let dial = ModemCommand::Dial("bbs:23".to_string());
    assert_eq!(
        "Connecting to bbs:23...\r\nOK: Connected to bbs:23\r\n",
        command_reply(&dial, Some(&DialOutcome::Connected))
    );
    assert_eq!("Connecting to bbs:23...\r\nERR: Connect timed out.\r\n", command_reply(&dial, Some(&DialOutcome::TimedOut)));
    assert_eq!(
        "Connecting to bbs:23...\r\nERR: Failed to connect: refused\r\n",
        command_reply(&dial, Some(&DialOutcome::Failed("refused".to_string())))
    );
    assert_eq!(Some("host:80".to_string()), dial_command("atdt host:80 "));
    assert_eq!(None, dial_command("ath"));
}

#[test]
fn breakpoint_holds_until_resume() {
    let mut data = vec![0xeau8; 0x10000];
    data[0xfffc] = 0x00;
    data[0xfffd] = 0x02;
    let mut bus = Bus::new();
    bus.connect(0, 0x10000, MemoryBank::new_with_data(&data, false));
    let mut cpu = Mos6502::new(bus, 1_000_000, Variant::Original);
    cpu.set_pc(0x200).unwrap();
    cpu.add_breakpoint(0x200).unwrap();
    assert_eq!(emu::cpu::mos6502::host::RunDecision::Wait, cpu.check_breakpoint());
    assert_eq!(emu::cpu::mos6502::host::RunDecision::Wait, cpu.check_breakpoint());
    cpu.set_execution_request(ExecutionRequest::Resume);
    assert_eq!(emu::cpu::mos6502::host::RunDecision::Run, cpu.check_breakpoint());
    assert_eq!(ExecutionRequest::Idle, cpu.execution_request());
}
