# rust_6502

A MOS 6502 emulator with a built-in disassembler, verified with Verus.

- `src/cpu/status_flags.rs`: the status register, packed to and from a byte.
- `src/cpu/registers.rs`: the register file and its text display.
- `src/cpu/memory.rs`: 64 KiB of memory with read-only regions, 8- and 16-bit
  access, loading a program image, and page dumps.
- `src/cpu/instruction.rs`: addressing modes and the instruction set.
- `src/cpu/semantics.rs`: the meaning of each instruction as a function on
  machine states; `src/cpu.rs` implements the instructions against it.
- `src/cpu/disassembly.rs`: the text of a disassembled instruction.
- `src/cpu/laws.rs`: decimal and binary arithmetic, the instruction-set table,
  and what every step keeps.
- `app/main.rs`: a small driver that loads a file, dumps memory, disassembles
  it and runs one instruction.

`Cpu::can_execute_opcode` and `Cpu::can_disassemble_opcode` tell a caller
outside Verus whether `execute_opcode` and `disassemble_opcode` can run on the
current state: they are false where a 16-bit address, the program counter, a
clock count or the stack would run past its limit.
