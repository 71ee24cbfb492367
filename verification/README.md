# emu

An Apple II emulator whose core is written in Verus and proved against its contracts.

- `src/cpu/mos6502`: the 6502 and 65C02 processor: the opcode table, the instruction
  semantics as spec functions, the memory bus, the debugger's view (disassembly, state)
  and the run loop's decisions.
- `src/targets/appleii`: the machine: soft switches, keyboard, game switches, language
  card, auxiliary memory, the slot manager and the cards (Disk II, Smartport, mouse,
  serial), the video, the WOZ and DSK disk formats, and `Target`, which puts them
  together. Its bus read and write send an access through the auxiliary memory, the
  language card and the devices; a machine step sends an instruction's device-register
  operand (0xc000-0xc0ff) that way and checks the memory breakpoints at any other operand
  address, while the processor's other accesses go to its own memory.
- `src/emulator`, `src/debug`: the debugger's commands and output.
- `src/peripherals/serial`: serial line settings and the modem's command handling.
- `app/`: the command line program: it reads the ROM images and disks, paces the processor
  to the machine's clock and runs the debugger on standard input.
