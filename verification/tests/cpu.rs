use emu::cpu::mos6502::bus::memory::MemoryBank;
use emu::cpu::mos6502::bus::Bus;
use emu::cpu::mos6502::{Mos6502, Variant};
use emu::debug::RegisterSize;
use emu::errors::Error;
use emu::targets::ExecutionState;

fn test_instruction(opcode: &[u8]) -> Mos6502 {
    let mut data = vec![0u8; 0xffff];
    data[0xff00..0xff00 + opcode.len()].copy_from_slice(opcode);
    let mem = MemoryBank::new_with_data(&data, false);
    let mut bus = Bus::new();
    bus.connect(0x0, 0xffff, mem);
    let mut cpu = Mos6502::new(bus, u64::MAX, Variant::Original);
    cpu.set_pc(0xff00).unwrap();
    cpu
}

fn full_memory_cpu(program: &[u8], at: usize, variant: Variant) -> Mos6502 {
    let mut data = vec![0u8; 0x10000];
    data[at..at + program.len()].copy_from_slice(program);
    let mut bus = Bus::new();
    bus.connect(0x0, 0x10000, MemoryBank::new_with_data(&data, false));
    let mut cpu = Mos6502::new(bus, 1022727, variant);
    cpu.set_pc(at as u16).unwrap();
    cpu
}

#[test]
fn test_ldy_zp_x() {
    let mut cpu = test_instruction(&[0xb4, 0x10]);
    let mut regs = cpu.registers();
    regs.index_x = 0x10;
    cpu.set_registers(regs);
    cpu.write_bus(0x20, 0xff);
    cpu.execute_single().unwrap();
    let s = cpu.registers();
    assert_eq!(0xff, s.index_y);
    assert_eq!(false, s.status.zero);
    assert_eq!(true, s.status.negative);
}

#[test]
fn test_ldy() {
    let mut cpu = test_instruction(&[0xa0, 0]);
    cpu.execute_single().unwrap();
    let s = cpu.registers();
    assert_eq!(0, s.index_y);
    assert_eq!(true, s.status.zero);
    assert_eq!(false, s.status.negative);
}

#[test]
fn test_ldy_negative() {
    let mut cpu = test_instruction(&[0xa0, 0xff]);
    cpu.execute_single().unwrap();
    let s = cpu.registers();
    assert_eq!(0xff, s.index_y);
    assert_eq!(false, s.status.zero);
    assert_eq!(true, s.status.negative);
}

#[test]
fn test_adc_carry() {
    let mut cpu = test_instruction(&[0x69, 6]);
    let mut regs = cpu.registers();
    regs.accumulator = 254;
    regs.status.carry = true;
    cpu.set_registers(regs);
    cpu.execute_single().unwrap();
    let s = cpu.registers();
    assert_eq!(5, s.accumulator);
    assert_eq!(false, s.status.zero);
    assert_eq!(true, s.status.carry);
    assert_eq!(false, s.status.negative);
    assert_eq!(false, s.status.overflow);
}

#[test]
fn test_adc_overflow_positive() {
    let mut cpu = test_instruction(&[0x69, 100]);
    let mut regs = cpu.registers();
    regs.accumulator = 100;
    regs.status.carry = false;
    cpu.set_registers(regs);
    cpu.execute_single().unwrap();
    let s = cpu.registers();
    assert_eq!(200, s.accumulator);
    assert_eq!(false, s.status.zero);
    assert_eq!(false, s.status.carry);
    assert_eq!(true, s.status.negative);
    assert_eq!(true, s.status.overflow);
}

#[test]
fn adc_decimal_adds_bcd_digits() {
    // SED; CLC; LDA #$19; ADC #$28 -> $47
    let mut cpu = full_memory_cpu(&[0xf8, 0x18, 0xa9, 0x19, 0x69, 0x28], 0x400, Variant::Original);
    for _ in 0..4 {
        cpu.execute_single().unwrap();
    }
    let s = cpu.registers();
    assert_eq!(0x47, s.accumulator);
    assert_eq!(false, s.status.carry);
}

#[test]
fn sbc_decimal_subtracts_bcd_digits() {
    // SED; SEC; LDA #$42; SBC #$13 -> $29
    let mut cpu = full_memory_cpu(&[0xf8, 0x38, 0xa9, 0x42, 0xe9, 0x13], 0x400, Variant::Original);
    for _ in 0..4 {
        cpu.execute_single().unwrap();
    }
    assert_eq!(0x29, cpu.registers().accumulator);
    assert_eq!(true, cpu.registers().status.carry);
}

#[test]
fn pha_pla_gives_back_the_accumulator() {
    // LDA #$5a; PHA; LDA #0; PLA
    let mut cpu = full_memory_cpu(&[0xa9, 0x5a, 0x48, 0xa9, 0x00, 0x68], 0x400, Variant::Original);
    let mut regs = cpu.registers();
    regs.sp = 0xff;
    cpu.set_registers(regs);
    for _ in 0..4 {
        cpu.execute_single().unwrap();
    }
    assert_eq!(0x5a, cpu.registers().accumulator);
    assert_eq!(0xff, cpu.registers().sp);
}

#[test]
fn jsr_rts_returns_after_the_call() {
    // 0x400: JSR $0410; 0x403: NOP ... 0x410: RTS
    let mut data = vec![0u8; 0x20];
    data[0] = 0x20;
    data[1] = 0x10;
    data[2] = 0x04;
    data[3] = 0xea;
    data[0x10] = 0x60;
    let mut cpu = full_memory_cpu(&data, 0x400, Variant::Original);
    let mut regs = cpu.registers();
    regs.sp = 0xff;
    cpu.set_registers(regs);
    cpu.execute_single().unwrap();
    assert_eq!(0x410, cpu.registers().pc);
    assert_eq!(vec![0x400usize], cpu.backtrace().unwrap());
    cpu.execute_single().unwrap();
    assert_eq!(0x403, cpu.registers().pc);
    assert_eq!(0xff, cpu.registers().sp);
    assert!(cpu.backtrace().unwrap().is_empty());
}

#[test]
fn php_plp_restores_the_flags() {
    // SEC; SED; PHP; CLC; CLD; PLP
    let mut cpu = full_memory_cpu(&[0x38, 0xf8, 0x08, 0x18, 0xd8, 0x28], 0x400, Variant::Original);
    let mut regs = cpu.registers();
    regs.sp = 0xff;
    cpu.set_registers(regs);
    for _ in 0..6 {
        cpu.execute_single().unwrap();
    }
    assert!(cpu.registers().status.carry);
    assert!(cpu.registers().status.decimal_mode);
}

#[test]
fn wai_is_refused_on_the_65c02() {
    let mut cpu = full_memory_cpu(&[0xcb], 0x400, Variant::Wdc65c02);
    assert_eq!(Err(Error::WaiUnsupported), cpu.execute_single());
}

#[test]
fn reset_loads_the_reset_vector() {
    let mut data = vec![0u8; 0x10000];
    data[0xfffc] = 0x00;
    data[0xfffd] = 0xc6;
    let mut bus = Bus::new();
    bus.connect(0x0, 0x10000, MemoryBank::new_with_data(&data, false));
    let mut cpu = Mos6502::new(bus, 1022727, Variant::Original);
    cpu.reset();
    assert_eq!(0xc600, cpu.registers().pc);
    assert!(cpu.registers().status.irq_disable);
    assert_eq!(0, cpu.get_cycle_count());
}

#[test]
fn breakpoints_are_listed_and_deleted() {
    let mut cpu = full_memory_cpu(&[0xea], 0x400, Variant::Original);
    cpu.add_breakpoint(0x400).unwrap();
    cpu.add_breakpoint(0x500).unwrap();
    assert!(cpu.at_breakpoint());
    assert_eq!(vec![0x400usize, 0x500], cpu.list_breakpoints().unwrap());
    cpu.delete_breakpoints(0x400).unwrap();
    assert_eq!(vec![0x500usize], cpu.list_breakpoints().unwrap());
    assert!(!cpu.at_breakpoint());
}

#[test]
fn read_memory_wraps_past_the_top() {
    let mut data = vec![0u8; 0x10000];
    data[0xffff] = 7;
    data[0] = 9;
    let mut bus = Bus::new();
    bus.connect(0x0, 0x10000, MemoryBank::new_with_data(&data, false));
    let cpu = Mos6502::new(bus, 1022727, Variant::Original);
    assert_eq!(vec![7u8, 9], cpu.read_memory(0xffff, 2).unwrap());
}

#[test]
fn disassembly_writes_operands() {
    // LDA #$05; STA $0400; BNE -2
    let cpu = full_memory_cpu(&[0xa9, 0x05, 0x8d, 0x00, 0x04, 0xd0, 0xfe], 0x300, Variant::Original);
    let instrs = cpu.get_instructions(0x300, 3).unwrap();
    assert_eq!(3, instrs.len());
    assert_eq!("lda #$5", instrs[0].instruction);
    assert_eq!(vec![0xa9u8, 0x05], instrs[0].opcode);
    assert_eq!("sta $0400", instrs[1].instruction);
    assert_eq!(0x302, instrs[1].address);
    assert_eq!("bne 305", instrs[2].instruction);
    assert_eq!("00000300: a9 05           lda #$5", instrs[0].display());
}

#[test]
fn debug_state_names_registers() {
    let mut cpu = full_memory_cpu(&[0xea], 0x400, Variant::Original);
    let mut regs = cpu.registers();
    regs.accumulator = 0x12;
    cpu.set_registers(regs);
    let state = cpu.get_state().unwrap();
    assert_eq!("A", state.registers[0].name);
    assert_eq!(0x12, state.registers[0].value);
    assert_eq!(RegisterSize::Size8, state.registers[0].size);
    assert_eq!("PC", state.pc.name);
    assert_eq!(0x400, state.pc.value);
    assert_eq!("PC: 0x400", state.pc.display());
    assert_eq!("A: 0x12", state.registers[0].display());
    assert_eq!(ExecutionState::Stopped, state.execution_state);
    assert_eq!(7, state.flags.len());
}

#[test]
fn irq_sources_are_released_by_source() {
    let mut cpu = full_memory_cpu(&[0xea], 0x400, Variant::Original);
    cpu.irq_trigger(false, 3);
    cpu.irq_trigger(false, 4);
    cpu.irq_release(false, 3);
    let mut regs = cpu.registers();
    regs.status.irq_disable = false;
    regs.sp = 0xff;
    cpu.set_registers(regs);
    let mut data_cpu = cpu;
    data_cpu.write_bus(0xfffe, 0x00);
    data_cpu.write_bus(0xffff, 0x08);
    data_cpu.execute_single().unwrap();
    // the remaining source still interrupts: the handler at 0x0800 runs
    assert!(data_cpu.registers().pc >= 0x0800 && data_cpu.registers().pc <= 0x0801);
}

#[test]
fn bus_describes_its_memory_map() {
    let mut bus = Bus::new();
    bus.connect(0, 0xc000, MemoryBank::new(0xc000, false));
    bus.connect(0xd000, 0x800, MemoryBank::new(0x800, true));
    let text = String::from_utf8(bus.describe()).unwrap();
    assert_eq!("\nMemory Map:\n0x0000-0xbfff - RAM\n0xd000-0xd7ff - ROM\n\nInterceptors:\n\n", text);
}

#[test]
fn bus_reads_back_what_was_written() {
    let mut bus = Bus::new();
    bus.connect(0, 0x100, MemoryBank::new(0x100, false));
    bus.connect(0x100, 0x100, MemoryBank::new(0x100, true));
    bus.write(0x10, 0x99);
    assert_eq!(0x99, bus.read(0x10));
    bus.write(0x110, 0x99);
    assert_eq!(0, bus.read(0x110));
    bus.write_u16(0x20, 0xbeef);
    assert_eq!(0xbeef, bus.read_u16(0x20));
    assert!(bus.maps(0x1ff));
    assert!(!bus.maps(0x200));
}

#[test]
fn nmi_held_raised_is_taken_once() {
    let mut cpu = full_memory_cpu(&[0xea; 8], 0x400, Variant::Original);
    let mut regs = cpu.registers();
    regs.sp = 0xff;
    cpu.set_registers(regs);
    cpu.write_bus(0xfffa, 0x00);
    cpu.write_bus(0xfffb, 0x08);
    for a in 0x800u16..0x810 {
        cpu.write_bus(a, 0xea);
    }
    cpu.irq_trigger(true, 1);
    // taken: the handler's first NOP runs
    cpu.execute_single().unwrap();
    assert_eq!(0x801, cpu.registers().pc);
    assert!(cpu.registers().status.irq_disable);
    // the line stays raised: not taken again, on any later step
    cpu.execute_single().unwrap();
    assert_eq!(0x802, cpu.registers().pc);
    cpu.execute_single().unwrap();
    assert_eq!(0x803, cpu.registers().pc);
    // released, then raised again: taken again
    cpu.irq_release(true, 1);
    cpu.execute_single().unwrap();
    assert_eq!(0x804, cpu.registers().pc);
    cpu.irq_trigger(true, 1);
    cpu.execute_single().unwrap();
    assert_eq!(0x801, cpu.registers().pc);
}
