//! The meaning of every instruction, as functions from machine state to
//! machine state.
use vstd::prelude::*;
use crate::cpu::instruction::{AddressingMode, ExecutionReturnValues, Instruction, Operation, instruction_for, return_values};
use crate::cpu::memory::{RomRegion, byte_written, word_at, word_written};
use crate::cpu::registers::Registers;
use crate::cpu::status_flags::{StatusFlags, flags_byte};

verus! {

/// Where the CPU reads its start address at reset.
pub const RESET_VECTOR: usize = 0xfffc;

/// Where `BRK` reads the address of its handler.
pub const IRQ_BRK_VECTOR: usize = 0xfffe;

/// The stack lives in page 1, `0x0100 + sp`.
pub const STACK_BASE_ADDRESS: usize = 0x0100;

/// The machine: registers, the 64 KiB of memory and its read-only regions.
pub struct CpuState {
    pub registers: Registers,
    pub memory: Seq<u8>,
    pub rom: Seq<RomRegion>,
}

/// The memory of a new processor: zero, with `reset_address` stored
/// little-endian in the reset vector.
pub open spec fn reset_memory(reset_address: u16) -> Seq<u8> {
    Seq::new(65536, |i: int| 0u8).update(RESET_VECTOR as int, (reset_address % 256) as u8).update(
        RESET_VECTOR + 1,
        (reset_address / 256) as u8,
    )
}

/// The state after power-up: interrupts disabled, break flag clear, stack
/// pointer 0xFF, program counter loaded from the reset vector.
pub open spec fn powered_up(s: CpuState) -> CpuState {
    CpuState {
        registers: Registers {
            p: StatusFlags { interrupt_disable_flag: true, break_flag: false, ..s.registers.p },
            sp: 0xff,
            pc: word_at(s.memory, RESET_VECTOR as int) as u16,
            ..s.registers
        },
        ..s
    }
}

/// `s` with the status register replaced.
pub open spec fn with_flags(s: CpuState, p: StatusFlags) -> CpuState {
    CpuState { registers: Registers { p, ..s.registers }, ..s }
}

/// The value of a relative offset: bytes from 0x80 up are negative.
pub open spec fn signed_offset(offset: u8) -> int {
    if offset >= 128 {
        offset - 256
    } else {
        offset as int
    }
}

/// The branch target for a relative offset from `base`.
pub open spec fn relative_target(base: int, offset: u8) -> int {
    base + signed_offset(offset)
}

/// Two addresses in the same 256-byte page.
pub open spec fn same_page(a: int, b: int) -> bool {
    a / 256 == b / 256
}

/// Signed overflow of an addition `a + b` that gave `r`: the operands have the
/// same sign and the result has the other one.
pub open spec fn signed_overflow(a: u8, b: u8, r: u8) -> bool {
    (a >= 128) == (b >= 128) && (r >= 128) != (a >= 128)
}

/// The flags after a result `r`: zero and negative follow it.
pub open spec fn with_zero_negative(p: StatusFlags, r: u8) -> StatusFlags {
    StatusFlags { zero_flag: r == 0, negative_flag: r >= 128, ..p }
}

/// The flags after comparing a register with a value: carry when the register
/// is not below the value, zero when they are equal, negative from bit 7 of
/// their difference.
pub open spec fn compare_flags(p: StatusFlags, register_value: u8, value: u8) -> StatusFlags {
    StatusFlags {
        carry_flag: register_value >= value,
        zero_flag: register_value == value,
        negative_flag: (register_value - value + 256) % 256 >= 128,
        ..p
    }
}

/// The effective address of an operand in addressing mode `mode`. Indexing by
/// X or Y does not wrap within page zero or at the end of memory.
pub open spec fn operand_address(s: CpuState, mode: AddressingMode) -> int {
    let pc = s.registers.pc as int;
    let m = s.memory;
    match mode {
        AddressingMode::Immediate => pc + 1,
        AddressingMode::ZeroPage => m[pc + 1] as int,
        AddressingMode::ZeroPageX => m[pc + 1] + s.registers.x,
        AddressingMode::Absolute => word_at(m, pc + 1),
        AddressingMode::AbsoluteX => word_at(m, pc + 1) + s.registers.x,
        AddressingMode::AbsoluteY => word_at(m, pc + 1) + s.registers.y,
        AddressingMode::IndirectX => word_at(m, m[pc + 1] + s.registers.x),
        AddressingMode::IndirectY => word_at(m, m[pc + 1] as int) + s.registers.y,
        _ => 0,
    }
}

/// True when indexing the operand's base address crosses into the next page.
pub open spec fn operand_crosses_page(s: CpuState, mode: AddressingMode) -> bool {
    let pc = s.registers.pc as int;
    let m = s.memory;
    match mode {
        AddressingMode::AbsoluteX => !same_page(word_at(m, pc + 1), word_at(m, pc + 1) + s.registers.x),
        AddressingMode::AbsoluteY => !same_page(word_at(m, pc + 1), word_at(m, pc + 1) + s.registers.y),
        AddressingMode::IndirectY => !same_page(
            word_at(m, m[pc + 1] as int),
            word_at(m, m[pc + 1] as int) + s.registers.y,
        ),
        _ => false,
    }
}

/// The operand of `mode` can be located: its bytes follow the opcode within
/// memory, and an indexed 16-bit address does not pass 0xFFFF. Accumulator,
/// implied and relative modes have no operand address.
pub open spec fn operand_defined(s: CpuState, mode: AddressingMode) -> bool {
    let pc = s.registers.pc as int;
    let m = s.memory;
    match mode {
        AddressingMode::Immediate => pc + 1 <= 0xffff,
        AddressingMode::ZeroPage => pc + 1 <= 0xffff,
        AddressingMode::ZeroPageX => pc + 1 <= 0xffff,
        AddressingMode::IndirectX => pc + 1 <= 0xffff,
        AddressingMode::Absolute => pc + 2 <= 0xffff,
        AddressingMode::AbsoluteX => pc + 2 <= 0xffff && word_at(m, pc + 1) + s.registers.x <= 0xffff,
        AddressingMode::AbsoluteY => pc + 2 <= 0xffff && word_at(m, pc + 1) + s.registers.y <= 0xffff,
        AddressingMode::IndirectY => pc + 1 <= 0xffff && word_at(m, m[pc + 1] as int) + s.registers.y
            <= 0xffff,
        _ => false,
    }
}

/// The operand can be located and, when reaching it crosses a page, the extra
/// clock period still fits in a byte.
pub open spec fn operand_ok(s: CpuState, instruction: Instruction) -> bool {
    &&& operand_defined(s, instruction.addressing_mode)
    &&& operand_crosses_page(s, instruction.addressing_mode) ==> instruction.clock_periods < 255
}

/// The byte that the operand designates.
pub open spec fn operand_value(s: CpuState, mode: AddressingMode) -> u8 {
    s.memory[operand_address(s, mode)]
}

/// The report for an instruction that reads its operand through `mode`.
pub open spec fn operand_return_values(s: CpuState, instruction: Instruction) -> ExecutionReturnValues {
    return_values(instruction, operand_crosses_page(s, instruction.addressing_mode))
}

/// `s` after pushing one byte: it is written at `0x0100 + sp` (unless read-only)
/// and the stack pointer goes down by one.
pub open spec fn pushed_byte(s: CpuState, value: u8) -> CpuState {
    CpuState {
        registers: Registers { sp: (s.registers.sp - 1) as u8, ..s.registers },
        memory: byte_written(s.memory, s.rom, STACK_BASE_ADDRESS + s.registers.sp, value),
        ..s
    }
}

/// `s` after pushing a 16-bit value: it is written little-endian at
/// `0x0100 + sp - 1` (unless that address is read-only) and the stack pointer
/// goes down by two.
pub open spec fn pushed_word(s: CpuState, value: u16) -> CpuState {
    CpuState {
        registers: Registers { sp: (s.registers.sp - 2) as u8, ..s.registers },
        memory: word_written(s.memory, s.rom, STACK_BASE_ADDRESS + s.registers.sp - 1, value),
        ..s
    }
}

/// The 16-bit result of `ADC` before it is cut to a byte: `a + value + carry`,
/// with the decimal-mode corrections (+6 when the low digits pass 9, +96 when
/// the sum passes 0x99).
pub open spec fn adc_result(a: u8, value: u8, carry: bool, decimal: bool) -> int {
    let c: int = if carry { 1 } else { 0 };
    let sum = a + value + c;
    let adjusted = if decimal && a % 16 + value % 16 + c > 9 { sum + 6 } else { sum };
    if decimal && adjusted > 0x99 { adjusted + 96 } else { adjusted }
}

/// `ADC`: the accumulator becomes the low byte of `adc_result`; zero and
/// negative follow it, overflow is the signed overflow of the addition, and
/// carry is set when the 16-bit result passes 0xFF.
pub open spec fn adc_step(s: CpuState, instruction: Instruction) -> (CpuState, ExecutionReturnValues) {
    let a = s.registers.a;
    let p = s.registers.p;
    let value = operand_value(s, instruction.addressing_mode);
    let result = adc_result(a, value, p.carry_flag, p.decimal_flag);
    let r = (result % 256) as u8;
    let flags = StatusFlags {
        overflow_flag: signed_overflow(a, value, r),
        carry_flag: result > 0xff,
        ..with_zero_negative(p, r)
    };
    (
        CpuState { registers: Registers { a: r, p: flags, ..s.registers }, ..s },
        operand_return_values(s, instruction),
    )
}

/// The borrow that `SBC` subtracts: one when the carry is clear.
pub open spec fn sbc_borrow(carry: bool) -> int {
    if carry { 0 } else { 1 }
}

/// The result of `SBC` as an integer, before it is cut to a byte: the binary
/// difference `a - value - borrow`; in decimal mode 6 less when the low digit
/// borrowed and 0x60 less when the whole difference borrowed.
pub open spec fn sbc_result(a: u8, value: u8, carry: bool, decimal: bool) -> int {
    let binary = a - value - sbc_borrow(carry);
    let low_digit_borrow: int = if decimal && a % 16 < value % 16 + sbc_borrow(carry) { 6 } else { 0 };
    let high_digit_borrow: int = if decimal && binary < 0 { 0x60 } else { 0 };
    binary - low_digit_borrow - high_digit_borrow
}

/// `SBC`: the accumulator becomes `sbc_result` modulo 256; zero and negative
/// follow it, overflow is the signed overflow of `a + !value` giving it, and
/// carry is set when `a - value - borrow` does not borrow.
pub open spec fn sbc_step(s: CpuState, instruction: Instruction) -> (CpuState, ExecutionReturnValues) {
    let a = s.registers.a;
    let p = s.registers.p;
    let value = operand_value(s, instruction.addressing_mode);
    let r = (sbc_result(a, value, p.carry_flag, p.decimal_flag) % 256) as u8;
    let flags = StatusFlags {
        overflow_flag: signed_overflow(a, (255 - value) as u8, r),
        carry_flag: a >= value + sbc_borrow(p.carry_flag),
        ..with_zero_negative(p, r)
    };
    (
        CpuState { registers: Registers { a: r, p: flags, ..s.registers }, ..s },
        operand_return_values(s, instruction),
    )
}

/// `AND`: the accumulator becomes the accumulator AND the operand.
pub open spec fn and_step(s: CpuState, instruction: Instruction) -> (CpuState, ExecutionReturnValues) {
    let r = s.registers.a & operand_value(s, instruction.addressing_mode);
    (
        CpuState { registers: Registers { a: r, p: with_zero_negative(s.registers.p, r), ..s.registers }, ..s },
        operand_return_values(s, instruction),
    )
}

/// `EOR`: the accumulator becomes the accumulator XOR the operand.
pub open spec fn eor_step(s: CpuState, instruction: Instruction) -> (CpuState, ExecutionReturnValues) {
    let r = s.registers.a ^ operand_value(s, instruction.addressing_mode);
    (
        CpuState { registers: Registers { a: r, p: with_zero_negative(s.registers.p, r), ..s.registers }, ..s },
        operand_return_values(s, instruction),
    )
}

/// `LDA`: the accumulator becomes the operand.
pub open spec fn lda_step(s: CpuState, instruction: Instruction) -> (CpuState, ExecutionReturnValues) {
    let r = operand_value(s, instruction.addressing_mode);
    (
        CpuState { registers: Registers { a: r, p: with_zero_negative(s.registers.p, r), ..s.registers }, ..s },
        operand_return_values(s, instruction),
    )
}

/// `ASL` can run: it works on the accumulator, or on an operand that can be located.
pub open spec fn asl_defined(s: CpuState, instruction: Instruction) -> bool {
    instruction.addressing_mode is Accumulator || operand_ok(s, instruction)
}

/// `ASL`: the accumulator or the operand in memory shifted left by one, bit 7
/// going into the carry; the write to memory ignores read-only regions.
pub open spec fn asl_step(s: CpuState, instruction: Instruction) -> (CpuState, ExecutionReturnValues) {
    let on_accumulator = instruction.addressing_mode is Accumulator;
    let value = if on_accumulator {
        s.registers.a
    } else {
        operand_value(s, instruction.addressing_mode)
    };
    let r = ((2 * value) % 256) as u8;
    let flags = StatusFlags { carry_flag: value >= 128, ..with_zero_negative(s.registers.p, r) };
    if on_accumulator {
        (
            CpuState { registers: Registers { a: r, p: flags, ..s.registers }, ..s },
            return_values(instruction, false),
        )
    } else {
        (
            CpuState {
                registers: Registers { p: flags, ..s.registers },
                memory: s.memory.update(operand_address(s, instruction.addressing_mode), r),
                ..s
            },
            operand_return_values(s, instruction),
        )
    }
}

/// `DEC` (`delta == -1`) and `INC` (`delta == 1`) on the operand in memory,
/// wrapping around; the write ignores read-only regions.
pub open spec fn step_memory_by(s: CpuState, instruction: Instruction, delta: int) -> (CpuState, ExecutionReturnValues) {
    let address = operand_address(s, instruction.addressing_mode);
    let r = ((s.memory[address] + delta + 256) % 256) as u8;
    (
        CpuState {
            registers: Registers { p: with_zero_negative(s.registers.p, r), ..s.registers },
            memory: s.memory.update(address, r),
            ..s
        },
        operand_return_values(s, instruction),
    )
}

/// One step of a byte register, wrapping around.
pub open spec fn wrap_byte(v: u8, delta: int) -> u8 {
    ((v + delta + 256) % 256) as u8
}

/// `INX` (`delta == 1`) and `DEX` (`delta == -1`).
pub open spec fn x_step_by(s: CpuState, instruction: Instruction, delta: int) -> (CpuState, ExecutionReturnValues) {
    let r = wrap_byte(s.registers.x, delta);
    (
        CpuState { registers: Registers { x: r, p: with_zero_negative(s.registers.p, r), ..s.registers }, ..s },
        return_values(instruction, false),
    )
}

/// `INY` (`delta == 1`) and `DEY` (`delta == -1`).
pub open spec fn y_step_by(s: CpuState, instruction: Instruction, delta: int) -> (CpuState, ExecutionReturnValues) {
    let r = wrap_byte(s.registers.y, delta);
    (
        CpuState { registers: Registers { y: r, p: with_zero_negative(s.registers.p, r), ..s.registers }, ..s },
        return_values(instruction, false),
    )
}

/// `CMP`, `CPX`, `CPY`: compare a register with the operand.
pub open spec fn compare_step(s: CpuState, instruction: Instruction, register_value: u8) -> (CpuState, ExecutionReturnValues) {
    let value = operand_value(s, instruction.addressing_mode);
    (
        with_flags(s, compare_flags(s.registers.p, register_value, value)),
        operand_return_values(s, instruction),
    )
}

/// `BIT`: zero from the accumulator AND the operand, negative and overflow
/// from bits 7 and 6 of the operand; no extra clock period is reported.
pub open spec fn bit_step(s: CpuState, instruction: Instruction) -> (CpuState, ExecutionReturnValues) {
    let value = operand_value(s, instruction.addressing_mode);
    let flags = StatusFlags {
        zero_flag: s.registers.a & value == 0,
        negative_flag: value >= 128,
        overflow_flag: (value / 64) % 2 == 1,
        ..s.registers.p
    };
    (with_flags(s, flags), return_values(instruction, false))
}

/// A branch can run: when not taken the program counter can advance past the
/// instruction; when taken the offset byte is in memory, the target lies in
/// 0..=0xFFFF, and a page crossing's extra clock period fits in a byte.
pub open spec fn branch_defined(s: CpuState, instruction: Instruction, taken: bool) -> bool {
    let pc = s.registers.pc as int;
    if !taken {
        pc + instruction.bytes <= 0xffff
    } else {
        let target = relative_target(pc + 2, s.memory[pc + 1]);
        &&& pc + 2 <= 0xffff
        &&& 0 <= target <= 0xffff
        &&& !same_page(pc, target) ==> instruction.clock_periods < 255
    }
}

/// A branch: not taken, the program counter moves past the instruction; taken,
/// it moves to the relative target, and one more clock period is reported when
/// the target is in another page than the branch.
pub open spec fn branch_step(s: CpuState, instruction: Instruction, taken: bool) -> (CpuState, ExecutionReturnValues) {
    let pc = s.registers.pc as int;
    if !taken {
        (
            CpuState { registers: Registers { pc: (pc + instruction.bytes) as u16, ..s.registers }, ..s },
            return_values(instruction, false),
        )
    } else {
        let target = relative_target(pc + 2, s.memory[pc + 1]);
        (
            CpuState { registers: Registers { pc: target as u16, ..s.registers }, ..s },
            return_values(instruction, !same_page(pc, target)),
        )
    }
}

/// `BRK` can run: `pc + 2` fits in 16 bits and the stack has room for three bytes.
pub open spec fn brk_defined(s: CpuState) -> bool {
    s.registers.pc + 2 <= 0xffff && s.registers.sp >= 3
}

/// `BRK`: push `pc + 2`, push the flags with the break bit set, clear the
/// break flag, disable interrupts, and jump through the IRQ/BRK vector.
pub open spec fn brk_step(s: CpuState, instruction: Instruction) -> (CpuState, ExecutionReturnValues) {
    let s1 = pushed_word(s, (s.registers.pc + 2) as u16);
    let s2 = pushed_byte(s1, flags_byte(StatusFlags { break_flag: true, ..s.registers.p }));
    let flags = StatusFlags { break_flag: false, interrupt_disable_flag: true, ..s.registers.p };
    (
        CpuState {
            registers: Registers {
                p: flags,
                pc: word_at(s2.memory, IRQ_BRK_VECTOR as int) as u16,
                ..s2.registers
            },
            ..s2
        },
        return_values(instruction, false),
    )
}

/// `s` with one flag set or cleared.
pub open spec fn flag_step(s: CpuState, instruction: Instruction, p: StatusFlags) -> (CpuState, ExecutionReturnValues) {
    (with_flags(s, p), return_values(instruction, false))
}

/// The operation of `instruction` can run in `s` without fault.
pub open spec fn operation_defined(s: CpuState, instruction: Instruction) -> bool {
    let p = s.registers.p;
    match instruction.execute {
        Operation::Adc => operand_ok(s, instruction),
        Operation::And => operand_ok(s, instruction),
        Operation::Asl => asl_defined(s, instruction),
        Operation::Bcc => branch_defined(s, instruction, !p.carry_flag),
        Operation::Bcs => branch_defined(s, instruction, p.carry_flag),
        Operation::Beq => branch_defined(s, instruction, p.zero_flag),
        Operation::Bit => operand_defined(s, instruction.addressing_mode),
        Operation::Bmi => branch_defined(s, instruction, p.negative_flag),
        Operation::Bne => branch_defined(s, instruction, !p.zero_flag),
        Operation::Bpl => branch_defined(s, instruction, !p.negative_flag),
        Operation::Brk => brk_defined(s),
        Operation::Bvc => branch_defined(s, instruction, !p.overflow_flag),
        Operation::Bvs => branch_defined(s, instruction, p.overflow_flag),
        Operation::Clc => true,
        Operation::Cld => true,
        Operation::Cli => true,
        Operation::Clv => true,
        Operation::Cmp => operand_ok(s, instruction),
        Operation::Cpx => operand_ok(s, instruction),
        Operation::Cpy => operand_ok(s, instruction),
        Operation::Dec => operand_ok(s, instruction),
        Operation::Dex => true,
        Operation::Dey => true,
        Operation::Eor => operand_ok(s, instruction),
        Operation::Inc => operand_ok(s, instruction),
        Operation::Inx => true,
        Operation::Iny => true,
        Operation::Lda => operand_ok(s, instruction),
        Operation::Sbc => operand_ok(s, instruction),
        Operation::Sec => true,
    }
}

/// The state after the operation of `instruction`, and its report.
pub open spec fn operation_step(s: CpuState, instruction: Instruction) -> (CpuState, ExecutionReturnValues) {
    let p = s.registers.p;
    match instruction.execute {
        Operation::Adc => adc_step(s, instruction),
        Operation::And => and_step(s, instruction),
        Operation::Asl => asl_step(s, instruction),
        Operation::Bcc => branch_step(s, instruction, !p.carry_flag),
        Operation::Bcs => branch_step(s, instruction, p.carry_flag),
        Operation::Beq => branch_step(s, instruction, p.zero_flag),
        Operation::Bit => bit_step(s, instruction),
        Operation::Bmi => branch_step(s, instruction, p.negative_flag),
        Operation::Bne => branch_step(s, instruction, !p.zero_flag),
        Operation::Bpl => branch_step(s, instruction, !p.negative_flag),
        Operation::Brk => brk_step(s, instruction),
        Operation::Bvc => branch_step(s, instruction, !p.overflow_flag),
        Operation::Bvs => branch_step(s, instruction, p.overflow_flag),
        Operation::Clc => flag_step(s, instruction, StatusFlags { carry_flag: false, ..p }),
        Operation::Cld => flag_step(s, instruction, StatusFlags { decimal_flag: false, ..p }),
        Operation::Cli => flag_step(s, instruction, StatusFlags { interrupt_disable_flag: false, ..p }),
        Operation::Clv => flag_step(s, instruction, StatusFlags { overflow_flag: false, ..p }),
        Operation::Cmp => compare_step(s, instruction, s.registers.a),
        Operation::Cpx => compare_step(s, instruction, s.registers.x),
        Operation::Cpy => compare_step(s, instruction, s.registers.y),
        Operation::Dec => step_memory_by(s, instruction, -1),
        Operation::Dex => x_step_by(s, instruction, -1),
        Operation::Dey => y_step_by(s, instruction, -1),
        Operation::Eor => eor_step(s, instruction),
        Operation::Inc => step_memory_by(s, instruction, 1),
        Operation::Inx => x_step_by(s, instruction, 1),
        Operation::Iny => y_step_by(s, instruction, 1),
        Operation::Lda => lda_step(s, instruction),
        Operation::Sbc => sbc_step(s, instruction),
        Operation::Sec => flag_step(s, instruction, StatusFlags { carry_flag: true, ..p }),
    }
}

/// The instruction whose opcode is at the program counter.
pub open spec fn current_instruction(s: CpuState) -> Option<Instruction> {
    instruction_for(s.memory[s.registers.pc as int])
}

/// Executing the current instruction cannot fault.
pub open spec fn step_defined(s: CpuState) -> bool {
    match current_instruction(s) {
        Some(instruction) => operation_defined(s, instruction),
        None => true,
    }
}

/// One step of the machine: the state after the instruction at the program
/// counter and its report, or `None` for an unknown opcode.
pub open spec fn step(s: CpuState) -> Option<(CpuState, ExecutionReturnValues)> {
    match current_instruction(s) {
        Some(instruction) => Some(operation_step(s, instruction)),
        None => None,
    }
}

} // verus!
