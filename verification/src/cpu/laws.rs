//! Properties of the emulator that span several operations.
use vstd::prelude::*;
use crate::cpu::instruction::{
    ADC_INSTRUCTION, AND_INSTRUCTION, AddressingMode, CMP_INSTRUCTION, EOR_INSTRUCTION, Instruction,
    LDA_INSTRUCTION, SBC_INSTRUCTION, instruction_for,
};
use crate::cpu::memory::{RomRegion, in_rom, word_at};
use crate::cpu::registers::Registers;
use crate::cpu::semantics::{
    CpuState, STACK_BASE_ADDRESS, adc_result, brk_step, current_instruction,
    operation_defined, operation_step, powered_up, reset_memory, sbc_borrow, sbc_result, step,
};
use crate::cpu::status_flags::{StatusFlags, flags_byte};

verus! {

/// A byte holding two decimal digits, one per nibble.
pub open spec fn is_bcd(b: u8) -> bool {
    b / 16 <= 9 && b % 16 <= 9
}

/// The number that a BCD byte stands for.
pub open spec fn bcd_value(b: u8) -> int {
    10 * (b / 16) + b % 16
}

/// The BCD byte for a number below 100.
pub open spec fn bcd_byte(n: int) -> int {
    16 * (n / 10) + n % 10
}

/// The number of operand bytes that follow the opcode in `mode`.
pub open spec fn operand_length(mode: AddressingMode) -> int {
    match mode {
        AddressingMode::Accumulator => 0,
        AddressingMode::Implied => 0,
        AddressingMode::Absolute => 2,
        AddressingMode::AbsoluteX => 2,
        AddressingMode::AbsoluteY => 2,
        _ => 1,
    }
}

/// Powering up a new processor starts it at the address given to `Cpu::new`.
pub proof fn lemma_power_up_starts_at_reset_address(reset_address: u16, registers: Registers, rom: Seq<RomRegion>)
    ensures
        powered_up(CpuState { registers, memory: reset_memory(reset_address), rom }).registers.pc
            == reset_address,
{
}

/// Binary `ADC` adds: the result is `a + value + carry`, so the accumulator
/// becomes that sum modulo 256 and the carry is set exactly when it passes 0xFF.
pub proof fn lemma_adc_binary_adds(a: u8, value: u8, carry: bool)
    ensures
        adc_result(a, value, carry, false) == a + value + (if carry { 1int } else { 0 }),
{
}

/// Decimal `ADC` on BCD operands adds decimal numbers: the byte result is the
/// BCD of the sum modulo 100 and the carry is set exactly when the sum reaches 100.
#[verifier::spinoff_prover]
#[verifier::rlimit(30)]
pub proof fn lemma_adc_decimal_adds(a: u8, value: u8, carry: bool)
    requires
        is_bcd(a),
        is_bcd(value),
    ensures
        ({
            let sum = bcd_value(a) + bcd_value(value) + (if carry { 1int } else { 0 });
            &&& adc_result(a, value, carry, true) % 256 == bcd_byte(sum % 100)
            &&& (adc_result(a, value, carry, true) > 0xff) == (sum >= 100)
        }),
{
    let c: int = if carry { 1 } else { 0 };
    let ah = a / 16;
    let al = a % 16;
    let vh = value / 16;
    let vl = value % 16;
    assert(a == 16 * ah + al);
    assert(value == 16 * vh + vl);
    let lo = al + vl + c;
    let hi = ah + vh;
    // The digit sums after the low-digit correction.
    let high_digits: int = if lo > 9 { hi + 1 } else { hi };
    let low_digit: int = if lo > 9 { lo - 10 } else { lo };
    let sum = bcd_value(a) + bcd_value(value) + c;
    assert(sum == 10 * high_digits + low_digit);
    assert(0 <= low_digit <= 9);
    let adjusted: int = if lo > 9 { a + value + c + 6 } else { a + value + c };
    assert(adjusted == 16 * high_digits + low_digit);
    assert((adjusted > 0x99) == (high_digits >= 10));
    if high_digits >= 10 {
        assert(adc_result(a, value, carry, true) == 16 * high_digits + low_digit + 96);
        assert(sum % 100 == 10 * (high_digits - 10) + low_digit);
        assert((sum % 100) / 10 == high_digits - 10);
        assert((sum % 100) % 10 == low_digit);
        assert((16 * high_digits + low_digit + 96) % 256 == 16 * (high_digits - 10) + low_digit);
    } else {
        assert(adc_result(a, value, carry, true) == 16 * high_digits + low_digit);
        assert(sum % 100 == sum);
        assert(sum / 10 == high_digits);
        assert(sum % 10 == low_digit);
    }
}

/// Binary `SBC` subtracts: the byte result is `a - value - borrow` modulo 256.
pub proof fn lemma_sbc_binary_subtracts(a: u8, value: u8, carry: bool)
    ensures
        sbc_result(a, value, carry, false) == a - value - sbc_borrow(carry),
{
}

/// `SBC` with the carry set undoes `ADC` with the carry clear, in binary mode.
pub proof fn lemma_sbc_undoes_adc(a: u8, value: u8)
    ensures
        sbc_result((adc_result(a, value, false, false) % 256) as u8, value, true, false) % 256 == a,
{
}

/// On BCD operands, `a - value - borrow` borrows exactly when the decimal
/// difference is negative, so the carry that `SBC` leaves is the decimal
/// "no borrow".
pub proof fn lemma_sbc_decimal_borrow(a: u8, value: u8, carry: bool)
    requires
        is_bcd(a),
        is_bcd(value),
    ensures
        (a >= value + sbc_borrow(carry)) == (bcd_value(a) - bcd_value(value) - sbc_borrow(carry)
            >= 0),
{
    let ah = a / 16;
    let al = a % 16;
    let vh = value / 16;
    let vl = value % 16;
    assert(a == 16 * ah + al);
    assert(value == 16 * vh + vl);
}

/// Decimal `SBC` on BCD operands subtracts decimal numbers: the byte result is
/// the BCD of `a - value - borrow` modulo 100.
#[verifier::spinoff_prover]
#[verifier::rlimit(30)]
pub proof fn lemma_sbc_decimal_subtracts(a: u8, value: u8, carry: bool)
    requires
        is_bcd(a),
        is_bcd(value),
    ensures
        sbc_result(a, value, carry, true) % 256 == bcd_byte(
            (bcd_value(a) - bcd_value(value) - sbc_borrow(carry) + 100) % 100,
        ),
{
    let b = sbc_borrow(carry);
    let ah = a / 16;
    let al = a % 16;
    let vh = value / 16;
    let vl = value % 16;
    assert(a == 16 * ah + al);
    assert(value == 16 * vh + vl);
    let diff = bcd_value(a) - bcd_value(value) - b;
    let lo = al - vl - b;
    // The digits of the difference, borrowing from the high digit when the low one goes negative.
    let high: int = if lo < 0 { ah - vh - 1 } else { ah - vh };
    let low: int = if lo < 0 { lo + 10 } else { lo };
    assert(diff == 10 * high + low);
    assert(0 <= low <= 9);
    assert(-10 <= high <= 9);
    let binary = a - value - b;
    assert(binary == 16 * high + low + (if lo < 0 { 6int } else { 0 }));
    assert((binary < 0) == (high < 0));
    let r = sbc_result(a, value, carry, true);
    if high < 0 {
        assert(r == 16 * high + low - 0x60);
        assert(r + 256 == 16 * (high + 10) + low);
        assert((diff + 100) % 100 == 10 * (high + 10) + low);
        assert(r % 256 == 16 * (high + 10) + low);
        assert((10 * (high + 10) + low) / 10 == high + 10);
        assert((10 * (high + 10) + low) % 10 == low);
    } else {
        assert(r == 16 * high + low);
        assert((diff + 100) % 100 == diff);
        assert(diff / 10 == high);
        assert(diff % 10 == low);
    }
}

/// The instructions whose opcode ends in binary `01` follow the 6502's
/// encoding `aaabbb01`: `aaa` names the operation (AND, EOR, ADC, LDA, CMP,
/// SBC for 1, 2, 3, 5, 6, 7) and `bbb` the addressing mode with its length and
/// base clock periods: `(zp,X)` 2/6, `zp` 2/3, `#` 2/2, `abs` 3/4, `(zp),Y`
/// 2/5, `zp,X` 2/4, `abs,Y` 3/4, `abs,X` 3/4.
pub proof fn lemma_group_one_encoding(opcode: u8)
    requires
        opcode % 4 == 1,
        instruction_for(opcode) is Some,
    ensures
        ({
            let i = instruction_for(opcode)->0;
            let aaa = opcode / 32;
            let bbb = (opcode / 4) % 8;
            &&& aaa == 1 ==> i.execute is And && i.mnemonic == AND_INSTRUCTION
            &&& aaa == 2 ==> i.execute is Eor && i.mnemonic == EOR_INSTRUCTION
            &&& aaa == 3 ==> i.execute is Adc && i.mnemonic == ADC_INSTRUCTION
            &&& aaa == 5 ==> i.execute is Lda && i.mnemonic == LDA_INSTRUCTION
            &&& aaa == 6 ==> i.execute is Cmp && i.mnemonic == CMP_INSTRUCTION
            &&& aaa == 7 ==> i.execute is Sbc && i.mnemonic == SBC_INSTRUCTION
            &&& bbb == 0 ==> i.addressing_mode is IndirectX && i.bytes == 2 && i.clock_periods == 6
            &&& bbb == 1 ==> i.addressing_mode is ZeroPage && i.bytes == 2 && i.clock_periods == 3
            &&& bbb == 2 ==> i.addressing_mode is Immediate && i.bytes == 2 && i.clock_periods == 2
            &&& bbb == 3 ==> i.addressing_mode is Absolute && i.bytes == 3 && i.clock_periods == 4
            &&& bbb == 4 ==> i.addressing_mode is IndirectY && i.bytes == 2 && i.clock_periods == 5
            &&& bbb == 5 ==> i.addressing_mode is ZeroPageX && i.bytes == 2 && i.clock_periods == 4
            &&& bbb == 6 ==> i.addressing_mode is AbsoluteY && i.bytes == 3 && i.clock_periods == 4
            &&& bbb == 7 ==> i.addressing_mode is AbsoluteX && i.bytes == 3 && i.clock_periods == 4
            &&& !i.sets_program_counter
        }),
{
}

/// The read-modify-write instructions `aaabbb10` in the set: `aaa` names the
/// operation (ASL, DEC, INC for 0, 6, 7) and `bbb` the mode with its length
/// and clock periods: `zp` 2/5, `A` 1/2, `abs` 3/6, `zp,X` 2/6, `abs,X` 3/7.
/// The one exception, 0xCA, is `DEX`.
pub proof fn lemma_group_two_encoding(opcode: u8)
    requires
        opcode % 4 == 2,
        instruction_for(opcode) is Some,
    ensures
        ({
            let i = instruction_for(opcode)->0;
            let aaa = opcode / 32;
            let bbb = (opcode / 4) % 8;
            &&& opcode == 0xCA ==> i.execute is Dex && i.addressing_mode is Implied && i.bytes == 1
                && i.clock_periods == 2
            &&& opcode != 0xCA ==> {
                &&& aaa == 0 ==> i.execute is Asl
                &&& aaa == 6 ==> i.execute is Dec
                &&& aaa == 7 ==> i.execute is Inc
                &&& (aaa == 0 || aaa == 6 || aaa == 7)
                &&& bbb == 1 ==> i.addressing_mode is ZeroPage && i.bytes == 2 && i.clock_periods == 5
                &&& bbb == 2 ==> i.addressing_mode is Accumulator && i.bytes == 1 && i.clock_periods == 2
                &&& bbb == 3 ==> i.addressing_mode is Absolute && i.bytes == 3 && i.clock_periods == 6
                &&& bbb == 5 ==> i.addressing_mode is ZeroPageX && i.bytes == 2 && i.clock_periods == 6
                &&& bbb == 7 ==> i.addressing_mode is AbsoluteX && i.bytes == 3 && i.clock_periods == 7
            }
            &&& !i.sets_program_counter
        }),
{
}

/// The compare-index and bit-test instructions `aaabbb00` with `bbb` 0, 1 or 3
/// (immediate, zero page, absolute; 2/2, 2/3, 3/4): `aaa` 1 is `BIT`, 6 is
/// `CPY` and 7 is `CPX`.
pub proof fn lemma_group_zero_encoding(opcode: u8)
    requires
        opcode % 4 == 0,
        opcode / 32 == 1 || opcode / 32 == 6 || opcode / 32 == 7,
        (opcode / 4) % 8 == 0 || (opcode / 4) % 8 == 1 || (opcode / 4) % 8 == 3,
        instruction_for(opcode) is Some,
    ensures
        ({
            let i = instruction_for(opcode)->0;
            let aaa = opcode / 32;
            let bbb = (opcode / 4) % 8;
            &&& aaa == 1 ==> i.execute is Bit
            &&& aaa == 6 ==> i.execute is Cpy
            &&& aaa == 7 ==> i.execute is Cpx
            &&& bbb == 0 ==> i.addressing_mode is Immediate && i.bytes == 2 && i.clock_periods == 2
            &&& bbb == 1 ==> i.addressing_mode is ZeroPage && i.bytes == 2 && i.clock_periods == 3
            &&& bbb == 3 ==> i.addressing_mode is Absolute && i.bytes == 3 && i.clock_periods == 4
            &&& !i.sets_program_counter
        }),
{
}

/// The one-byte instructions `xxxx1000` in the set take two clock periods
/// and their high nibble names them: 1 `CLC`, 3 `SEC`, 5 `CLI`, 8 `DEY`,
/// 0xB `CLV`, 0xC `INY`, 0xD `CLD`, 0xE `INX`. `BRK` (0x00) is one byte and
/// seven clock periods.
pub proof fn lemma_single_byte_encoding(opcode: u8)
    requires
        opcode % 16 == 8 || opcode == 0,
        instruction_for(opcode) is Some,
    ensures
        ({
            let i = instruction_for(opcode)->0;
            let high = opcode / 16;
            &&& i.addressing_mode is Implied && i.bytes == 1 && !i.sets_program_counter
            &&& opcode == 0 ==> i.execute is Brk && i.clock_periods == 7
            &&& opcode != 0 ==> i.clock_periods == 2
            &&& opcode != 0 && high == 1 ==> i.execute is Clc
            &&& opcode != 0 && high == 3 ==> i.execute is Sec
            &&& opcode != 0 && high == 5 ==> i.execute is Cli
            &&& opcode != 0 && high == 8 ==> i.execute is Dey
            &&& opcode != 0 && high == 0xB ==> i.execute is Clv
            &&& opcode != 0 && high == 0xC ==> i.execute is Iny
            &&& opcode != 0 && high == 0xD ==> i.execute is Cld
            &&& opcode != 0 && high == 0xE ==> i.execute is Inx
        }),
{
}

/// The branches are the opcodes `xxy10000`: `xx` picks the flag (negative,
/// overflow, carry, zero) and `y` the value that makes the branch jump. Each is
/// two bytes, relative, two clock periods, and sets the program counter.
pub proof fn lemma_branch_encoding(opcode: u8)
    requires
        opcode % 32 == 16,
    ensures
        ({
            let i = instruction_for(opcode)->0;
            let flag = opcode / 64;
            let jumps_when_set = (opcode / 32) % 2 == 1;
            &&& instruction_for(opcode) is Some
            &&& i.addressing_mode is Relative && i.bytes == 2 && i.clock_periods == 2 && i.sets_program_counter
            &&& flag == 0 ==> (if jumps_when_set { i.execute is Bmi } else { i.execute is Bpl })
            &&& flag == 1 ==> (if jumps_when_set { i.execute is Bvs } else { i.execute is Bvc })
            &&& flag == 2 ==> (if jumps_when_set { i.execute is Bcs } else { i.execute is Bcc })
            &&& flag == 3 ==> (if jumps_when_set { i.execute is Beq } else { i.execute is Bne })
        }),
{
}

/// Every entry of the instruction set carries its own opcode, is one byte
/// longer than its operand, sets the program counter exactly when it branches
/// (relative mode), and takes from 2 to 7 clock periods.
pub proof fn lemma_instruction_set_well_formed(opcode: u8)
    ensures
        instruction_for(opcode) matches Some(i) ==> {
            &&& i.opcode == opcode
            &&& i.bytes == 1 + operand_length(i.addressing_mode)
            &&& i.sets_program_counter == (i.addressing_mode is Relative)
            &&& 2 <= i.clock_periods <= 7
        },
{
}

/// Every instruction reports its own length and its own program-counter flag,
/// and its base clock periods or one more.
pub proof fn lemma_step_reports_instruction(s: CpuState, instruction: Instruction)
    requires
        operation_defined(s, instruction),
    ensures
        operation_step(s, instruction).1.bytes == instruction.bytes,
        operation_step(s, instruction).1.set_program_counter == instruction.sets_program_counter,
        operation_step(s, instruction).1.clock_periods == instruction.clock_periods
            || operation_step(s, instruction).1.clock_periods == instruction.clock_periods + 1,
{
}

/// No instruction changes the read-only regions.
pub proof fn lemma_step_keeps_rom(s: CpuState, instruction: Instruction)
    ensures
        operation_step(s, instruction).0.rom == s.rom,
{
}

/// Only `ASL` on memory, `DEC`, `INC` and `BRK` write to memory.
pub proof fn lemma_step_keeps_memory(s: CpuState, instruction: Instruction)
    requires
        !(instruction.execute is Dec || instruction.execute is Inc || instruction.execute is Brk || (
        instruction.execute is Asl && !(instruction.addressing_mode is Accumulator))),
    ensures
        operation_step(s, instruction).0.memory == s.memory,
{
}

/// An instruction of the set that does not report setting the program counter
/// leaves it where it was, `BRK` excepted: the caller advances it.
pub proof fn lemma_step_program_counter(s: CpuState)
    requires
        current_instruction(s) matches Some(i) && !(i.execute is Brk),
    ensures
        step(s) matches Some((next, values)) && (!values.set_program_counter ==> next.registers.pc
            == s.registers.pc),
{
    lemma_instruction_set_well_formed(s.memory[s.registers.pc as int]);
}

/// `BRK` leaves `pc + 2` on the stack, read back from `0x0100 + sp - 1`, and
/// below it the flags with the break bit set, when the stack is writable.
pub proof fn lemma_brk_saves_return_state(s: CpuState, instruction: Instruction)
    requires
        s.memory.len() == 65536,
        s.registers.pc + 2 <= 0xffff,
        s.registers.sp >= 3,
        !in_rom(s.rom, STACK_BASE_ADDRESS + s.registers.sp - 1),
        !in_rom(s.rom, STACK_BASE_ADDRESS + s.registers.sp - 2),
    ensures
        word_at(brk_step(s, instruction).0.memory, STACK_BASE_ADDRESS + s.registers.sp - 1)
            == s.registers.pc + 2,
        brk_step(s, instruction).0.memory[STACK_BASE_ADDRESS + s.registers.sp - 2] == flags_byte(
            StatusFlags { break_flag: true, ..s.registers.p },
        ),
        brk_step(s, instruction).0.registers.sp == s.registers.sp - 3,
{
}

} // verus!
