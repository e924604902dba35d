//! What each instruction does to the machine, stated in plain arithmetic on
//! the registers, flags and memory before and after it.
use vstd::prelude::*;
use crate::cpu::instruction::{AddressingMode, Instruction, Operation};
use crate::cpu::laws::{
    bcd_byte, bcd_value, is_bcd, lemma_adc_decimal_adds, lemma_sbc_decimal_borrow,
    lemma_sbc_decimal_subtracts,
};
use crate::cpu::memory::in_rom;
use crate::cpu::semantics::{CpuState, operand_address, operation_defined, operation_step, powered_up, pushed_byte, pushed_word};
use crate::cpu::registers::Registers;
use crate::cpu::status_flags::StatusFlags;

verus! {

/// The value of a byte read as a two's-complement number.
pub open spec fn signed_byte(b: int) -> int {
    if b >= 128 {
        b - 256
    } else {
        b
    }
}

/// The condition under which a branch operation jumps.
pub open spec fn branch_taken(s: CpuState, op: Operation) -> bool {
    let p = s.registers.p;
    match op {
        Operation::Bcc => !p.carry_flag,
        Operation::Bcs => p.carry_flag,
        Operation::Beq => p.zero_flag,
        Operation::Bne => !p.zero_flag,
        Operation::Bmi => p.negative_flag,
        Operation::Bpl => !p.negative_flag,
        Operation::Bvc => !p.overflow_flag,
        Operation::Bvs => p.overflow_flag,
        _ => false,
    }
}

/// The branch operations.
pub open spec fn is_branch(op: Operation) -> bool {
    op is Bcc || op is Bcs || op is Beq || op is Bne || op is Bmi || op is Bpl || op is Bvc
        || op is Bvs
}

/// A branch jumps, when its flag condition holds, to the address after its two
/// bytes plus the offset byte read as a signed number (0x80..=0xFF go
/// backwards); otherwise it moves past its bytes. Nothing but the program
/// counter changes, and one more clock period is reported exactly when a taken
/// branch lands in another page.
pub proof fn lemma_branch_jumps_by_signed_offset(s: CpuState, instruction: Instruction)
    requires
        is_branch(instruction.execute),
        operation_defined(s, instruction),
    ensures
        ({
            let (t, values) = operation_step(s, instruction);
            let pc = s.registers.pc as int;
            let offset = s.memory[pc + 1] as int;
            let taken = branch_taken(s, instruction.execute);
            &&& taken ==> t.registers.pc == pc + 2 + signed_byte(offset)
            &&& taken ==> pc + 2 - 128 <= t.registers.pc <= pc + 2 + 127
            &&& !taken ==> t.registers.pc == pc + instruction.bytes
            &&& t.registers.a == s.registers.a
            &&& t.registers.x == s.registers.x
            &&& t.registers.y == s.registers.y
            &&& t.registers.sp == s.registers.sp
            &&& t.registers.p == s.registers.p
            &&& t.memory == s.memory
            &&& t.rom == s.rom
            &&& values.clock_periods == instruction.clock_periods + (if taken && pc / 256
                != t.registers.pc / 256 { 1int } else { 0 })
        }),
{
}

/// `CMP`, `CPX` and `CPY` compare the register with the operand as unsigned
/// bytes: carry exactly when the register is at least the operand, zero
/// exactly when they are equal, negative from bit 7 of their difference
/// modulo 256. Nothing else changes.
pub proof fn lemma_compare_is_unsigned(s: CpuState, instruction: Instruction)
    requires
        instruction.execute is Cmp || instruction.execute is Cpx || instruction.execute is Cpy,
    ensures
        ({
            let t = operation_step(s, instruction).0;
            let register_value: int = if instruction.execute is Cmp {
                s.registers.a as int
            } else if instruction.execute is Cpx {
                s.registers.x as int
            } else {
                s.registers.y as int
            };
            let value = s.memory[operand_address(s, instruction.addressing_mode)] as int;
            &&& t.registers.p.carry_flag == (register_value >= value)
            &&& t.registers.p.zero_flag == (register_value == value)
            &&& t.registers.p.negative_flag == ((register_value - value + 256) % 256 >= 128)
            &&& t.registers.p.overflow_flag == s.registers.p.overflow_flag
            &&& t.registers.p.decimal_flag == s.registers.p.decimal_flag
            &&& t.registers.p.interrupt_disable_flag == s.registers.p.interrupt_disable_flag
            &&& t.registers.p.break_flag == s.registers.p.break_flag
            &&& t.registers.a == s.registers.a
            &&& t.registers.x == s.registers.x
            &&& t.registers.y == s.registers.y
            &&& t.registers.pc == s.registers.pc
            &&& t.memory == s.memory
        }),
{
}

/// `ASL` doubles its operand modulo 256: bit 7 goes into the carry, bit 0 of
/// the result is 0, and the incoming carry plays no part. On the accumulator
/// memory is unchanged; on memory only the operand's byte changes and the
/// accumulator is unchanged.
pub proof fn lemma_asl_doubles(s: CpuState, instruction: Instruction)
    requires
        instruction.execute is Asl,
        s.memory.len() == 65536,
        operation_defined(s, instruction),
    ensures
        ({
            let t = operation_step(s, instruction).0;
            let on_accumulator = instruction.addressing_mode is Accumulator;
            let address = operand_address(s, instruction.addressing_mode);
            let value: int = if on_accumulator {
                s.registers.a as int
            } else {
                s.memory[address] as int
            };
            let result: int = if on_accumulator {
                t.registers.a as int
            } else {
                t.memory[address] as int
            };
            &&& result == (2 * value) % 256
            &&& result % 2 == 0
            &&& t.registers.p.carry_flag == (value >= 128)
            &&& t.registers.p.zero_flag == (result == 0)
            &&& t.registers.p.negative_flag == (result >= 128)
            &&& t.registers.p.overflow_flag == s.registers.p.overflow_flag
            &&& t.registers.p.decimal_flag == s.registers.p.decimal_flag
            &&& t.registers.x == s.registers.x
            &&& t.registers.y == s.registers.y
            &&& t.registers.pc == s.registers.pc
            &&& on_accumulator ==> t.memory == s.memory
            &&& !on_accumulator ==> t.registers.a == s.registers.a && t.memory == s.memory.update(
                address,
                t.memory[address],
            )
        }),
{
}

/// `ASL` gives the same result whatever the incoming carry.
pub proof fn lemma_asl_ignores_carry(s: CpuState, instruction: Instruction)
    requires
        instruction.execute is Asl,
    ensures
        ({
            let s2 = CpuState {
                registers: Registers {
                    p: StatusFlags {
                        carry_flag: !s.registers.p.carry_flag,
                        ..s.registers.p
                    },
                    ..s.registers
                },
                ..s
            };
            &&& operation_step(s, instruction).0.registers.a == operation_step(s2, instruction).0.registers.a
            &&& operation_step(s, instruction).0.memory == operation_step(s2, instruction).0.memory
            &&& operation_step(s, instruction).0.registers.p == operation_step(s2, instruction).0.registers.p
        }),
{
}

/// `INX`, `INY`, `DEX` and `DEY` add or take one from their own index register
/// modulo 256, set zero and negative from the new value, and leave the other
/// registers and memory alone.
pub proof fn lemma_index_steps(s: CpuState, instruction: Instruction)
    requires
        instruction.execute is Inx || instruction.execute is Iny || instruction.execute is Dex
            || instruction.execute is Dey,
    ensures
        ({
            let t = operation_step(s, instruction).0;
            let op = instruction.execute;
            let on_x = op is Inx || op is Dex;
            let delta: int = if op is Inx || op is Iny { 1 } else { 255 };
            let old_value: int = if on_x { s.registers.x as int } else { s.registers.y as int };
            let new_value: int = if on_x { t.registers.x as int } else { t.registers.y as int };
            &&& new_value == (old_value + delta) % 256
            &&& on_x ==> t.registers.y == s.registers.y
            &&& !on_x ==> t.registers.x == s.registers.x
            &&& t.registers.a == s.registers.a
            &&& t.registers.sp == s.registers.sp
            &&& t.registers.pc == s.registers.pc
            &&& t.registers.p.zero_flag == (new_value == 0)
            &&& t.registers.p.negative_flag == (new_value >= 128)
            &&& t.registers.p.carry_flag == s.registers.p.carry_flag
            &&& t.registers.p.overflow_flag == s.registers.p.overflow_flag
            &&& t.memory == s.memory
        }),
{
}

/// `INC` and `DEC` add or take one from the operand's byte modulo 256, set
/// zero and negative from the new value, and change no other byte and no register.
pub proof fn lemma_memory_steps(s: CpuState, instruction: Instruction)
    requires
        instruction.execute is Inc || instruction.execute is Dec,
        s.memory.len() == 65536,
        operation_defined(s, instruction),
    ensures
        ({
            let t = operation_step(s, instruction).0;
            let address = operand_address(s, instruction.addressing_mode);
            let delta: int = if instruction.execute is Inc { 1 } else { 255 };
            let new_value = t.memory[address] as int;
            &&& new_value == (s.memory[address] + delta) % 256
            &&& forall|k: int| 0 <= k < s.memory.len() && k != address ==> #[trigger] t.memory[k] == s.memory[k]
            &&& t.memory.len() == s.memory.len()
            &&& t.registers.a == s.registers.a
            &&& t.registers.x == s.registers.x
            &&& t.registers.y == s.registers.y
            &&& t.registers.pc == s.registers.pc
            &&& t.registers.p.zero_flag == (new_value == 0)
            &&& t.registers.p.negative_flag == (new_value >= 128)
            &&& t.registers.p.carry_flag == s.registers.p.carry_flag
        }),
{
}

/// Where each addressing mode finds its operand, in terms of the bytes after
/// the opcode: the byte itself (immediate), a zero-page address, a
/// little-endian absolute address, or a pointer in page zero; the X and Y
/// forms add their index register to the plain form.
pub proof fn lemma_operand_address_modes(s: CpuState)
    ensures
        ({
            let pc = s.registers.pc as int;
            let m = s.memory;
            let x = s.registers.x as int;
            let y = s.registers.y as int;
            let absolute = m[pc + 1] + 256 * m[pc + 2];
            &&& operand_address(s, AddressingMode::Immediate) == pc + 1
            &&& operand_address(s, AddressingMode::ZeroPage) == m[pc + 1]
            &&& operand_address(s, AddressingMode::ZeroPageX) == operand_address(s, AddressingMode::ZeroPage) + x
            &&& operand_address(s, AddressingMode::Absolute) == absolute
            &&& operand_address(s, AddressingMode::AbsoluteX) == absolute + x
            &&& operand_address(s, AddressingMode::AbsoluteY) == absolute + y
            &&& operand_address(s, AddressingMode::IndirectX) == m[m[pc + 1] + x] + 256 * m[m[pc + 1] + x + 1]
            &&& operand_address(s, AddressingMode::IndirectY) == m[m[pc + 1] as int] + 256 * m[m[pc + 1] + 1] + y
        }),
{
}

/// The operations that read an operand through an addressing mode.
pub open spec fn reads_operand(op: Operation) -> bool {
    op is Adc || op is And || op is Cmp || op is Cpx || op is Cpy || op is Dec || op is Eor
        || op is Inc || op is Lda || op is Sbc
}

/// An instruction that reads an operand reports its own length and one more
/// clock period exactly when its mode indexes a base address (absolute,X,
/// absolute,Y or (zero page),Y) and the index carries it into another page.
pub proof fn lemma_operand_page_crossing(s: CpuState, instruction: Instruction)
    requires
        reads_operand(instruction.execute),
        operation_defined(s, instruction),
    ensures
        ({
            let values = operation_step(s, instruction).1;
            let pc = s.registers.pc as int;
            let m = s.memory;
            let base: int = match instruction.addressing_mode {
                AddressingMode::IndirectY => m[m[pc + 1] as int] + 256 * m[m[pc + 1] + 1],
                _ => m[pc + 1] + 256 * m[pc + 2],
            };
            let index: int = match instruction.addressing_mode {
                AddressingMode::AbsoluteX => s.registers.x as int,
                _ => s.registers.y as int,
            };
            let indexed = instruction.addressing_mode is AbsoluteX || instruction.addressing_mode is AbsoluteY
                || instruction.addressing_mode is IndirectY;
            let crossed = indexed && base / 256 != (base + index) / 256;
            &&& values.bytes == instruction.bytes
            &&& values.set_program_counter == instruction.sets_program_counter
            &&& values.clock_periods == instruction.clock_periods + (if crossed { 1int } else { 0 })
        }),
{
}

/// A byte read as a signed number, plus a carry.
pub open spec fn signed_sum(a: int, b: int, c: int) -> int {
    signed_byte(a) + signed_byte(b) + c
}

/// Binary `ADC` adds operand and carry to the accumulator modulo 256; carry
/// out is set exactly when the unsigned sum passes 0xFF and overflow exactly
/// when the signed sum leaves -128..=127; zero and negative follow the result.
pub proof fn lemma_adc_binary_step(s: CpuState, instruction: Instruction)
    requires
        instruction.execute is Adc,
        !s.registers.p.decimal_flag,
    ensures
        ({
            let t = operation_step(s, instruction).0;
            let a = s.registers.a as int;
            let v = s.memory[operand_address(s, instruction.addressing_mode)] as int;
            let c: int = if s.registers.p.carry_flag { 1 } else { 0 };
            &&& t.registers.a == (a + v + c) % 256
            &&& t.registers.p.carry_flag == (a + v + c > 255)
            &&& t.registers.p.overflow_flag == !(-128 <= signed_sum(a, v, c) <= 127)
            &&& t.registers.p.zero_flag == (t.registers.a == 0)
            &&& t.registers.p.negative_flag == (t.registers.a >= 128)
            &&& t.registers.p.decimal_flag == s.registers.p.decimal_flag
            &&& t.registers.x == s.registers.x
            &&& t.registers.y == s.registers.y
            &&& t.registers.pc == s.registers.pc
            &&& t.memory == s.memory
        }),
{
}

/// Binary `SBC` subtracts operand and borrow (the complement of the carry)
/// from the accumulator modulo 256; carry out is set exactly when the unsigned
/// difference does not go below zero and overflow exactly when the signed
/// difference leaves -128..=127; zero and negative follow the result.
pub proof fn lemma_sbc_binary_step(s: CpuState, instruction: Instruction)
    requires
        instruction.execute is Sbc,
        !s.registers.p.decimal_flag,
    ensures
        ({
            let t = operation_step(s, instruction).0;
            let a = s.registers.a as int;
            let v = s.memory[operand_address(s, instruction.addressing_mode)] as int;
            let borrow: int = if s.registers.p.carry_flag { 0 } else { 1 };
            &&& t.registers.a == (a - v - borrow + 512) % 256
            &&& t.registers.p.carry_flag == (a - v - borrow >= 0)
            &&& t.registers.p.overflow_flag == !(-128 <= signed_byte(a) - signed_byte(v) - borrow
                <= 127)
            &&& t.registers.p.zero_flag == (t.registers.a == 0)
            &&& t.registers.p.negative_flag == (t.registers.a >= 128)
            &&& t.registers.x == s.registers.x
            &&& t.registers.y == s.registers.y
            &&& t.registers.pc == s.registers.pc
            &&& t.memory == s.memory
        }),
{
}

/// `AND`, `EOR` and `LDA` put `a & v`, `a ^ v` and `v` in the accumulator,
/// setting zero and negative from it; `BIT` leaves the accumulator and sets
/// zero from `a & v` and negative and overflow from bits 7 and 6 of `v`. None
/// of them touches the carry, the other registers or memory.
pub proof fn lemma_logic_steps(s: CpuState, instruction: Instruction)
    requires
        instruction.execute is And || instruction.execute is Eor || instruction.execute is Lda
            || instruction.execute is Bit,
    ensures
        ({
            let t = operation_step(s, instruction).0;
            let op = instruction.execute;
            let a = s.registers.a;
            let v = s.memory[operand_address(s, instruction.addressing_mode)];
            &&& op is And ==> t.registers.a == a & v
            &&& op is Eor ==> t.registers.a == a ^ v
            &&& op is Lda ==> t.registers.a == v
            &&& op is Bit ==> t.registers.a == a && t.registers.p.zero_flag == (a & v == 0)
                && t.registers.p.negative_flag == (v >= 128) && t.registers.p.overflow_flag == (v
                % 128 >= 64)
            &&& !(op is Bit) ==> t.registers.p.zero_flag == (t.registers.a == 0)
                && t.registers.p.negative_flag == (t.registers.a >= 128)
                && t.registers.p.overflow_flag == s.registers.p.overflow_flag
            &&& t.registers.p.carry_flag == s.registers.p.carry_flag
            &&& t.registers.p.decimal_flag == s.registers.p.decimal_flag
            &&& t.registers.x == s.registers.x
            &&& t.registers.y == s.registers.y
            &&& t.registers.pc == s.registers.pc
            &&& t.memory == s.memory
        }),
{
}

/// `CLC`, `CLD`, `CLI`, `CLV` clear and `SEC` sets one flag; every other flag,
/// register and byte of memory stays.
pub proof fn lemma_flag_steps(s: CpuState, instruction: Instruction)
    requires
        instruction.execute is Clc || instruction.execute is Cld || instruction.execute is Cli
            || instruction.execute is Clv || instruction.execute is Sec,
    ensures
        ({
            let t = operation_step(s, instruction).0;
            let op = instruction.execute;
            let p = s.registers.p;
            &&& t.registers.p == (StatusFlags {
                carry_flag: if op is Clc { false } else if op is Sec { true } else { p.carry_flag },
                decimal_flag: if op is Cld { false } else { p.decimal_flag },
                interrupt_disable_flag: if op is Cli { false } else { p.interrupt_disable_flag },
                overflow_flag: if op is Clv { false } else { p.overflow_flag },
                ..p
            })
            &&& t.registers.a == s.registers.a
            &&& t.registers.x == s.registers.x
            &&& t.registers.y == s.registers.y
            &&& t.registers.sp == s.registers.sp
            &&& t.registers.pc == s.registers.pc
            &&& t.memory == s.memory
        }),
{
}

/// `BRK` jumps to the little-endian address at 0xFFFE, disables interrupts,
/// clears the break flag, leaves A, X, Y and the other flags alone and takes
/// three bytes of stack.
pub proof fn lemma_brk_jumps_through_vector(s: CpuState, instruction: Instruction)
    requires
        instruction.execute is Brk,
        s.memory.len() == 65536,
        s.registers.pc + 2 <= 0xffff,
        s.registers.sp >= 3,
    ensures
        ({
            let t = operation_step(s, instruction).0;
            &&& t.registers.pc == t.memory[0xfffe] + 256 * t.memory[0xffff]
            &&& t.memory[0xfffe] == s.memory[0xfffe]
            &&& t.memory[0xffff] == s.memory[0xffff]
            &&& t.registers.p.interrupt_disable_flag
            &&& !t.registers.p.break_flag
            &&& t.registers.p.carry_flag == s.registers.p.carry_flag
            &&& t.registers.p.zero_flag == s.registers.p.zero_flag
            &&& t.registers.p.negative_flag == s.registers.p.negative_flag
            &&& t.registers.sp == s.registers.sp - 3
            &&& t.registers.a == s.registers.a
            &&& t.registers.x == s.registers.x
            &&& t.registers.y == s.registers.y
        }),
{
}

/// Pushing a byte stores it at `0x0100 + sp` (unless that address is
/// read-only) and lowers the stack pointer by one; pushing a 16-bit value
/// stores its low byte at `0x0100 + sp - 1` and its high byte at
/// `0x0100 + sp` (unless `0x0100 + sp - 1` is read-only) and lowers the stack
/// pointer by two. Nothing else changes.
pub proof fn lemma_push_stores_on_stack_page(s: CpuState, byte: u8, word: u16)
    requires
        s.memory.len() == 65536,
        s.registers.sp >= 2,
    ensures
        ({
            let sp = s.registers.sp as int;
            let b = pushed_byte(s, byte);
            let w = pushed_word(s, word);
            &&& b.registers.sp == sp - 1
            &&& !in_rom(s.rom, 0x0100 + sp) ==> b.memory == s.memory.update(0x0100 + sp, byte)
            &&& in_rom(s.rom, 0x0100 + sp) ==> b.memory == s.memory
            &&& w.registers.sp == sp - 2
            &&& !in_rom(s.rom, 0x0100 + sp - 1) ==> w.memory[0x0100 + sp - 1] == word % 256
                && w.memory[0x0100 + sp] == word / 256
            &&& in_rom(s.rom, 0x0100 + sp - 1) ==> w.memory == s.memory
            &&& forall|k: int| 0 <= k < 65536 && k != 0x0100 + sp - 1 && k != 0x0100 + sp
                ==> #[trigger] w.memory[k] == s.memory[k]
            &&& b.registers.a == s.registers.a && b.registers.pc == s.registers.pc
                && b.registers.p == s.registers.p
            &&& w.registers.a == s.registers.a && w.registers.pc == s.registers.pc
                && w.registers.p == s.registers.p
        }),
{
}

/// Power-up loads the program counter from the little-endian reset vector at
/// 0xFFFC, sets the stack pointer to 0xFF, disables interrupts and clears the
/// break flag; A, X, Y, the other flags and memory stay.
pub proof fn lemma_power_up_fields(s: CpuState)
    ensures
        ({
            let t = powered_up(s);
            &&& t.registers.pc == s.memory[0xfffc] + 256 * s.memory[0xfffd]
            &&& t.registers.sp == 0xff
            &&& t.registers.p.interrupt_disable_flag
            &&& !t.registers.p.break_flag
            &&& t.registers.p.carry_flag == s.registers.p.carry_flag
            &&& t.registers.p.zero_flag == s.registers.p.zero_flag
            &&& t.registers.p.decimal_flag == s.registers.p.decimal_flag
            &&& t.registers.p.overflow_flag == s.registers.p.overflow_flag
            &&& t.registers.p.negative_flag == s.registers.p.negative_flag
            &&& t.registers.a == s.registers.a
            &&& t.registers.x == s.registers.x
            &&& t.registers.y == s.registers.y
            &&& t.memory == s.memory
            &&& t.rom == s.rom
        }),
{
}

/// Decimal `ADC` and `SBC` on BCD operands leave in the accumulator the BCD
/// of the decimal sum or difference modulo 100, with the carry set exactly
/// when the sum reaches 100 or the difference does not go below zero.
pub proof fn lemma_decimal_steps(s: CpuState, instruction: Instruction)
    requires
        instruction.execute is Adc || instruction.execute is Sbc,
        s.registers.p.decimal_flag,
        is_bcd(s.registers.a),
        is_bcd(s.memory[operand_address(s, instruction.addressing_mode)]),
    ensures
        ({
            let t = operation_step(s, instruction).0;
            let a = bcd_value(s.registers.a);
            let v = bcd_value(s.memory[operand_address(s, instruction.addressing_mode)]);
            let c: int = if s.registers.p.carry_flag { 1 } else { 0 };
            &&& instruction.execute is Adc ==> t.registers.a == bcd_byte((a + v + c) % 100)
                && t.registers.p.carry_flag == (a + v + c >= 100)
            &&& instruction.execute is Sbc ==> t.registers.a == bcd_byte((a - v - (1 - c) + 100) % 100)
                && t.registers.p.carry_flag == (a - v - (1 - c) >= 0)
        }),
{
    let value = s.memory[operand_address(s, instruction.addressing_mode)];
    lemma_adc_decimal_adds(s.registers.a, value, s.registers.p.carry_flag);
    lemma_sbc_decimal_subtracts(s.registers.a, value, s.registers.p.carry_flag);
    lemma_sbc_decimal_borrow(s.registers.a, value, s.registers.p.carry_flag);
}

} // verus!
