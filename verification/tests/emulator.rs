use emu::debug::{address_text, memory_text};
use emu::emulator::{parse_command, parse_integer_literal, DebugCommand};
use emu::errors::Error;
use emu::emulator::parse_lowered_integer;

#[test]
fn integer_literals() {
    assert_eq!(Ok(16), parse_integer_literal("0x10"));
    assert_eq!(Ok(31), parse_integer_literal("0X1F"));
    assert_eq!(Ok(31), parse_integer_literal("0x0x1f"));
    assert_eq!(Ok(12), parse_integer_literal("+12"));
    assert_eq!(Ok(1234), parse_integer_literal("1234"));
    assert_eq!(Err(Error::InvalidInteger), parse_integer_literal("12a"));
    assert_eq!(Err(Error::InvalidInteger), parse_integer_literal(""));
    assert_eq!(Err(Error::InvalidInteger), parse_integer_literal("-1"));
    assert_eq!(Err(Error::InvalidInteger), parse_integer_literal("0x"));
    assert_eq!(Err(Error::InvalidInteger), parse_integer_literal("999999999999999999999999"));
}

#[test]
fn debugger_commands() {
    assert_eq!(Ok(DebugCommand::Quit), parse_command("q"));
    assert_eq!(Ok(DebugCommand::Info), parse_command("info"));
    assert_eq!(Ok(DebugCommand::Halt), parse_command("h"));
    assert_eq!(Ok(DebugCommand::Backtrace), parse_command("bt"));
    assert_eq!(Ok(DebugCommand::Disas(None)), parse_command("disas"));
    assert_eq!(Ok(DebugCommand::Disas(Some(0x300))), parse_command("d 0x300"));
    assert_eq!(Ok(DebugCommand::Memory { address: 0x400, count: 32 }), parse_command("m 0x400"));
    assert_eq!(Ok(DebugCommand::Memory { address: 10, count: 4 }), parse_command("mem 10 4"));
    assert_eq!(Err(Error::InvalidInteger), parse_command("mem 10 x"));
    assert_eq!(Err(Error::InvalidInteger), parse_command("m "));
    assert_eq!(Ok(DebugCommand::Unknown), parse_command("b"));
}

#[test]
fn debugger_breakpoints_and_steps() {
    assert_eq!(Ok(DebugCommand::Break(0xc600)), parse_command("break 0xc600"));
    assert_eq!(Ok(DebugCommand::MemoryBreak(0x20)), parse_command("mb 32"));
    assert_eq!(Ok(DebugCommand::Continue), parse_command("c"));
    assert_eq!(Ok(DebugCommand::Step), parse_command("step"));
    assert_eq!(Err(Error::InvalidInteger), parse_command("b zz"));
    assert_eq!(Err(Error::InvalidInteger), parse_command("b  1"));
}

#[test]
fn memory_and_address_text() {
    assert_eq!("01 ab ff", memory_text(&[1, 0xab, 0xff]));
    assert_eq!("", memory_text(&[]));
    assert_eq!("0000c600", address_text(0xc600));
}

#[test]
fn lowered_integer_literals() {
    assert_eq!(Ok(0x1f), parse_lowered_integer("0x1f"));
    assert_eq!(Ok(42), parse_lowered_integer("42"));
    assert_eq!(Err(Error::InvalidInteger), parse_lowered_integer("0X1F"));
}
