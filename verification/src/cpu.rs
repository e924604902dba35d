pub mod status_flags;
pub mod text;
pub mod registers;
pub mod memory;
pub mod instruction;
pub mod bits;
pub mod semantics;
pub mod disassembly;
pub mod laws;
pub mod step_laws;

use vstd::prelude::*;
use crate::cpu::bits::{
    lemma_address_to_u16, lemma_bit6, lemma_bit7, lemma_low_byte, lemma_low_nibble,
    lemma_not_u16, lemma_not_u8, lemma_overflow_bits, lemma_same_page, lemma_shift_left_u8,
};
use crate::cpu::instruction::{
    AddressingMode, ExecutionReturnValues, Instruction, Operation, instruction_for,
};
use crate::cpu::memory::Memory;
use crate::cpu::registers::Registers;
use crate::cpu::semantics::{
    CpuState, IRQ_BRK_VECTOR, RESET_VECTOR, STACK_BASE_ADDRESS, adc_result, adc_step, and_step,
    asl_defined, asl_step, bit_step, branch_defined, branch_step, brk_defined, brk_step,
    compare_flags, compare_step, current_instruction, eor_step, flag_step, lda_step,
    operand_address, operand_crosses_page, operand_defined, operand_ok, operand_value,
    operation_defined, powered_up, pushed_byte, pushed_word, relative_target, reset_memory,
    same_page, sbc_result, sbc_step,
    signed_overflow, step, step_defined, step_memory_by, with_flags, x_step_by, y_step_by,
};
use crate::cpu::status_flags::{StatusFlags, cleared_flags};
use crate::cpu::disassembly::{
    bytes_text, disassembly_defined, disassembly_line, operand_text, operand_text_defined,
};
use crate::cpu::text::{push_char, push_hex2, push_hex4, push_spaces};
use vstd::string::{StringExecFns, StrSliceExecFns};

verus! {

/// The processor: its registers and its memory.
pub struct Cpu {
    pub registers: Registers,
    pub memory: Memory,
}

impl View for Cpu {
    type V = CpuState;

    open spec fn view(&self) -> CpuState {
        CpuState {
            registers: self.registers,
            memory: self.memory.contents@,
            rom: self.memory.rom_regions@,
        }
    }
}

impl Cpu {
    /// A processor with registers at their power-on values, zeroed memory
    /// without read-only regions, and `reset_address` stored little-endian in
    /// the reset vector at 0xFFFC.
    pub fn new(reset_address: u16) -> (cpu: Cpu)
        ensures
            cpu.registers == (Registers { a: 0, x: 0, y: 0, p: cleared_flags(), sp: 0xff, pc: 0 }),
            cpu@.rom.len() == 0,
            cpu@.memory == reset_memory(reset_address),
    {
        let mut cpu = Cpu { registers: Registers::new(), memory: Memory::new() };
        cpu.memory.set_16_bit_value(RESET_VECTOR, reset_address);
        proof {
            assert(!cpu.memory.is_rom(RESET_VECTOR as int));
        }
        cpu
    }

    /// Powers the processor up: interrupts disabled, break flag clear, stack
    /// pointer 0xFF, program counter loaded from the reset vector.
    pub fn power_up(&mut self)
        ensures
            final(self)@ == powered_up(old(self)@),
    {
        self.registers.p.interrupt_disable_flag = true;
        self.registers.p.break_flag = false;
        self.registers.sp = 0xff;
        self.registers.pc = self.memory.get_16_bit_value(RESET_VECTOR);
    }

    /// Sets the zero flag from `value`.
    pub fn set_zero_flag(&mut self, value: u8)
        ensures
            final(self)@ == with_flags(old(self)@, StatusFlags { zero_flag: value == 0, ..old(self).registers.p }),
    {
        self.registers.p.zero_flag = value == 0;
    }

    /// Sets the negative flag from bit 7 of `value`.
    pub fn set_negative_flag(&mut self, value: u8)
        ensures
            final(self)@ == with_flags(
                old(self)@,
                StatusFlags { negative_flag: value >= 128, ..old(self).registers.p },
            ),
    {
        proof {
            lemma_bit7(value);
        }
        self.registers.p.negative_flag = value & 0x80 != 0;
    }

    /// Sets the overflow flag for an addition `a + b` that gave `result`: set
    /// when `a` and `b` have the same sign and `result` has the other one.
    pub fn set_overflow_flag(&mut self, a: u8, b: u8, result: u8)
        ensures
            final(self)@ == with_flags(
                old(self)@,
                StatusFlags { overflow_flag: signed_overflow(a, b, result), ..old(self).registers.p },
            ),
    {
        // Overflow occurs if both numbers have the same sign and the result has
        // a different sign: !(a ^ b) has bit 7 set when the signs agree, and
        // (a ^ result) has bit 7 set when the result's sign differs.
        proof {
            lemma_overflow_bits(a, b, result);
        }
        self.registers.p.overflow_flag = (!(a ^ b) & (a ^ result) & 0x80) != 0;
    }

    /// Sets the carry flag when a 16-bit `result` does not fit in a byte.
    pub fn set_carry_flag(&mut self, result: u16)
        ensures
            final(self)@ == with_flags(old(self)@, StatusFlags { carry_flag: result > 0xff, ..old(self).registers.p }),
    {
        self.registers.p.carry_flag = result > 0xff;
    }

    /// Compares `register_value` with `value` as `CMP` does: carry when the
    /// register is not below the value, zero when they are equal, negative
    /// from bit 7 of their difference.
    pub fn compare(&mut self, register_value: u8, value: u8)
        ensures
            final(self)@ == with_flags(old(self)@, compare_flags(old(self).registers.p, register_value, value)),
    {
        let result = (register_value as u16).wrapping_sub(value as u16);
        proof {
            lemma_low_byte(result);
            lemma_not_u16(result);
        }
        self.set_zero_flag(result as u8);
        self.set_negative_flag(result as u8);
        self.set_carry_flag(!result);
    }

    /// True when `address + offset` lies in another page than `address`.
    pub fn crosses_boundary_by_address_offset(address: u16, offset: u8) -> (crossed: bool)
        requires
            address + offset <= 0xffff,
        ensures
            crossed == !same_page(address as int, address + offset),
    {
        let target = address + offset as u16;
        proof {
            lemma_same_page(address, target);
        }
        address & 0xff00 != target & 0xff00
    }

    /// True when the two addresses lie in different pages.
    pub fn crosses_boundary_by_two_addresses(base_address: u16, address: u16) -> (crossed: bool)
        ensures
            crossed == !same_page(base_address as int, address as int),
    {
        proof {
            lemma_same_page(base_address, address);
        }
        base_address & 0xff00 != address & 0xff00
    }

    /// The address `offset` bytes from `base_address`, the offset read as a
    /// signed byte.
    pub fn calculate_address_from_relative_offset(base_address: u16, offset: u8) -> (address: u16)
        requires
            0 <= relative_target(base_address as int, offset) <= 0xffff,
        ensures
            address == relative_target(base_address as int, offset),
    {
        proof {
            lemma_bit7(offset);
            lemma_not_u8(offset);
        }
        if offset & 0x80 == 0x80 {
            let positive_offset = !offset + 1;
            base_address - positive_offset as u16
        } else {
            base_address + offset as u16
        }
    }

    /// Pushes a byte: writes it at `0x0100 + sp` and decrements the stack pointer.
    pub fn push_u8(&mut self, value: u8)
        requires
            old(self).registers.sp >= 1,
        ensures
            final(self)@ == pushed_byte(old(self)@, value),
    {
        let stack_pointer: usize = STACK_BASE_ADDRESS + self.registers.sp as usize;
        self.memory.set_8_bit_value(stack_pointer, value);
        self.registers.sp = self.registers.sp - 1;
    }

    /// Pushes a 16-bit value: writes it little-endian at `0x0100 + sp - 1` and
    /// takes two from the stack pointer.
    pub fn push_u16(&mut self, value: u16)
        requires
            old(self).registers.sp >= 2,
        ensures
            final(self)@ == pushed_word(old(self)@, value),
    {
        let stack_pointer: usize = STACK_BASE_ADDRESS + self.registers.sp as usize;
        self.memory.set_16_bit_value(stack_pointer - 1, value);
        self.registers.sp = self.registers.sp - 2;
    }

    /// The instruction-set entry for the opcode at `location`.
    fn get_instruction_for_opcode(&self, location: usize) -> (instruction: Option<Instruction>)
        requires
            location < 65536,
        ensures
            instruction == instruction_for(self@.memory[location as int]),
    {
        let opcode = self.memory.get_8_bit_value(location);
        Instruction::for_opcode(opcode)
    }

    /// The instruction-set entry for the opcode at the program counter.
    fn instruction_at_program_counter(&self) -> (instruction: Option<Instruction>)
        ensures
            instruction == current_instruction(self@),
    {
        self.get_instruction_for_opcode(self.registers.pc as usize)
    }

    /// The effective address of the operand of `instruction` and whether
    /// reaching it crossed a page.
    fn get_address(&self, instruction: Instruction) -> (r: (usize, bool))
        requires
            operand_defined(self@, instruction.addressing_mode),
        ensures
            r.0 == operand_address(self@, instruction.addressing_mode),
            r.1 == operand_crosses_page(self@, instruction.addressing_mode),
            r.0 < 65536,
    {
        match instruction.addressing_mode {
            AddressingMode::Immediate => (self.registers.pc as usize + 1, false),
            AddressingMode::ZeroPage => {
                let zero_page_offset = self.memory.get_8_bit_value((self.registers.pc + 1) as usize);
                (zero_page_offset as usize, false)
            },
            AddressingMode::ZeroPageX => {
                let zero_page_offset = self.memory.get_8_bit_value((self.registers.pc + 1) as usize);
                (zero_page_offset as usize + self.registers.x as usize, false)
            },
            AddressingMode::Absolute => {
                let address = self.memory.get_16_bit_value((self.registers.pc + 1) as usize);
                (address as usize, false)
            },
            AddressingMode::AbsoluteX => {
                let address = self.memory.get_16_bit_value((self.registers.pc + 1) as usize);
                (
                    address as usize + self.registers.x as usize,
                    Cpu::crosses_boundary_by_address_offset(address, self.registers.x),
                )
            },
            AddressingMode::AbsoluteY => {
                let address = self.memory.get_16_bit_value((self.registers.pc + 1) as usize);
                (
                    address as usize + self.registers.y as usize,
                    Cpu::crosses_boundary_by_address_offset(address, self.registers.y),
                )
            },
            AddressingMode::IndirectX => {
                let indirect_address = self.memory.get_8_bit_value((self.registers.pc + 1) as usize)
                    as usize + self.registers.x as usize;
                let address = self.memory.get_16_bit_value(indirect_address);
                (address as usize, false)
            },
            AddressingMode::IndirectY => {
                let indirect_address = self.memory.get_8_bit_value((self.registers.pc + 1) as usize)
                    as usize;
                let address = self.memory.get_16_bit_value(indirect_address);
                (
                    address as usize + self.registers.y as usize,
                    Cpu::crosses_boundary_by_address_offset(address, self.registers.y),
                )
            },
            // Accumulator, implied and relative modes have no operand address;
            // the precondition rules them out.
            _ => (0, false),
        }
    }

    /// The operand of `instruction` and whether reaching it crossed a page.
    fn get_value(&self, instruction: Instruction) -> (r: (u8, bool))
        requires
            operand_defined(self@, instruction.addressing_mode),
        ensures
            r.0 == operand_value(self@, instruction.addressing_mode),
            r.1 == operand_crosses_page(self@, instruction.addressing_mode),
    {
        let (address, crossed_boundary) = self.get_address(instruction);
        (self.memory.get_8_bit_value(address), crossed_boundary)
    }
}

/// The 16-bit sum that `ADC` computes, decimal corrections included.
fn adc_sum(a: u8, value: u8, carry_flag: bool, decimal_flag: bool) -> (result: u16)
    ensures
        result == adc_result(a, value, carry_flag, decimal_flag),
{
    let carry: u16 = match carry_flag {
        true => 1u16,
        false => 0u16,
    };
    let mut result: u16 = a as u16 + value as u16 + carry;
    proof {
        lemma_low_nibble(a);
        lemma_low_nibble(value);
    }
    if decimal_flag {
        if (a & 0x0f) + (value & 0x0F) + carry as u8 > 9 {
            result = result + 6;
        }
        if result > 0x99 {
            result = result + 96;
        }
    }
    result
}

/// The byte that `SBC` leaves in the accumulator, decimal corrections included.
fn sbc_difference(a: u8, value: u8, carry_flag: bool, decimal_flag: bool) -> (result: u8)
    ensures
        result as int == sbc_result(a, value, carry_flag, decimal_flag) % 256,
{
    let borrow: u8 = if carry_flag { 0 } else { 1 };
    let mut result: u8 = a.wrapping_sub(value).wrapping_sub(borrow);
    proof {
        lemma_low_nibble(a);
        lemma_low_nibble(value);
    }
    if decimal_flag {
        if (a & 0x0f) < (value & 0x0f) + borrow {
            result = result.wrapping_sub(6);
        }
        if (a as u16) < value as u16 + borrow as u16 {
            result = result.wrapping_sub(0x60);
        }
    }
    result
}

impl Cpu {
    /// `ADC`: adds the operand and the carry to the accumulator, in decimal
    /// when the decimal flag is set.
    pub fn adc_instruction(&mut self, instruction: Instruction) -> (r: ExecutionReturnValues)
        requires
            operand_ok(old(self)@, instruction),
        ensures
            (final(self)@, r) == adc_step(old(self)@, instruction),
    {
        let (value, crossed_boundary) = self.get_value(instruction);
        let result = adc_sum(self.registers.a, value, self.registers.p.carry_flag, self.registers.p.decimal_flag);
        proof {
            lemma_low_byte(result);
        }
        let a = self.registers.a;
        self.set_zero_flag(result as u8);
        self.set_negative_flag(result as u8);
        self.set_overflow_flag(a, value, result as u8);
        self.set_carry_flag(result);
        self.registers.a = result as u8;
        ExecutionReturnValues::new(instruction, crossed_boundary)
    }

    /// `AND`: the accumulator becomes the accumulator AND the operand.
    pub fn and_instruction(&mut self, instruction: Instruction) -> (r: ExecutionReturnValues)
        requires
            operand_ok(old(self)@, instruction),
        ensures
            (final(self)@, r) == and_step(old(self)@, instruction),
    {
        let (value, crossed_boundary) = self.get_value(instruction);
        let result = self.registers.a & value;
        self.set_zero_flag(result);
        self.set_negative_flag(result);
        self.registers.a = result;
        ExecutionReturnValues::new(instruction, crossed_boundary)
    }

    /// `ASL`: shifts the accumulator or the operand in memory left by one,
    /// bit 7 going into the carry.
    pub fn asl_instruction(&mut self, instruction: Instruction) -> (r: ExecutionReturnValues)
        requires
            asl_defined(old(self)@, instruction),
        ensures
            (final(self)@, r) == asl_step(old(self)@, instruction),
    {
        let (address, value, crossed_boundary): (Option<usize>, u8, bool) =
            match instruction.addressing_mode {
            AddressingMode::Accumulator => (None, self.registers.a, false),
            _ => {
                let (address, crossed_boundary) = self.get_address(instruction);
                (Some(address), self.memory.contents[address], crossed_boundary)
            },
        };
        proof {
            lemma_bit7(value);
            lemma_shift_left_u8(value);
        }
        self.registers.p.carry_flag = value & 0x80 == 0x80;
        let result = value << 1u8;
        self.set_zero_flag(result);
        self.set_negative_flag(result);
        match address {
            None => {
                self.registers.a = result;
            },
            Some(address) => {
                self.memory.contents[address] = result;
            },
        }
        ExecutionReturnValues::new(instruction, crossed_boundary)
    }

    /// A relative branch: when `pred` holds, jump to the target; otherwise
    /// move past the instruction.
    fn branch(&mut self, instruction: Instruction, pred: bool) -> (r: ExecutionReturnValues)
        requires
            branch_defined(old(self)@, instruction, pred),
        ensures
            (final(self)@, r) == branch_step(old(self)@, instruction, pred),
    {
        if !pred {
            self.registers.pc = self.registers.pc + instruction.bytes as u16;
            return ExecutionReturnValues::new(instruction, false);
        }
        let old_pc = self.registers.pc;
        let offset = self.memory.contents[(self.registers.pc + 1) as usize];
        let relative_address = Cpu::calculate_address_from_relative_offset(
            self.registers.pc + 2,
            offset,
        );
        self.registers.pc = relative_address;
        ExecutionReturnValues::new(
            instruction,
            Cpu::crosses_boundary_by_two_addresses(old_pc, relative_address),
        )
    }

    /// `BCC`: branch when the carry is clear.
    pub fn bcc_instruction(&mut self, instruction: Instruction) -> (r: ExecutionReturnValues)
        requires
            branch_defined(old(self)@, instruction, !old(self).registers.p.carry_flag),
        ensures
            (final(self)@, r) == branch_step(old(self)@, instruction, !old(self).registers.p.carry_flag),
    {
        self.branch(instruction, !self.registers.p.carry_flag)
    }

    /// `BCS`: branch when the carry is set.
    pub fn bcs_instruction(&mut self, instruction: Instruction) -> (r: ExecutionReturnValues)
        requires
            branch_defined(old(self)@, instruction, old(self).registers.p.carry_flag),
        ensures
            (final(self)@, r) == branch_step(old(self)@, instruction, old(self).registers.p.carry_flag),
    {
        self.branch(instruction, self.registers.p.carry_flag)
    }

    /// `BEQ`: branch when the zero flag is set.
    pub fn beq_instruction(&mut self, instruction: Instruction) -> (r: ExecutionReturnValues)
        requires
            branch_defined(old(self)@, instruction, old(self).registers.p.zero_flag),
        ensures
            (final(self)@, r) == branch_step(old(self)@, instruction, old(self).registers.p.zero_flag),
    {
        self.branch(instruction, self.registers.p.zero_flag)
    }

    /// `BIT`: zero from the accumulator AND the operand, negative and overflow
    /// from bits 7 and 6 of the operand; the accumulator is unchanged.
    pub fn bit_instruction(&mut self, instruction: Instruction) -> (r: ExecutionReturnValues)
        requires
            operand_defined(old(self)@, instruction.addressing_mode),
        ensures
            (final(self)@, r) == bit_step(old(self)@, instruction),
    {
        let (value, _) = self.get_value(instruction);
        let result = self.registers.a & value;
        proof {
            lemma_bit7(value);
            lemma_bit6(value);
        }
        self.set_zero_flag(result);
        self.registers.p.negative_flag = value & 0x80 != 0;
        self.registers.p.overflow_flag = value & 0x40 != 0;
        ExecutionReturnValues::new(instruction, false)
    }

    /// `BMI`: branch when the negative flag is set.
    pub fn bmi_instruction(&mut self, instruction: Instruction) -> (r: ExecutionReturnValues)
        requires
            branch_defined(old(self)@, instruction, old(self).registers.p.negative_flag),
        ensures
            (final(self)@, r) == branch_step(old(self)@, instruction, old(self).registers.p.negative_flag),
    {
        self.branch(instruction, self.registers.p.negative_flag)
    }

    /// `BNE`: branch when the zero flag is clear.
    pub fn bne_instruction(&mut self, instruction: Instruction) -> (r: ExecutionReturnValues)
        requires
            branch_defined(old(self)@, instruction, !old(self).registers.p.zero_flag),
        ensures
            (final(self)@, r) == branch_step(old(self)@, instruction, !old(self).registers.p.zero_flag),
    {
        self.branch(instruction, !self.registers.p.zero_flag)
    }

    /// `BPL`: branch when the negative flag is clear.
    pub fn bpl_instruction(&mut self, instruction: Instruction) -> (r: ExecutionReturnValues)
        requires
            branch_defined(old(self)@, instruction, !old(self).registers.p.negative_flag),
        ensures
            (final(self)@, r) == branch_step(old(self)@, instruction, !old(self).registers.p.negative_flag),
    {
        self.branch(instruction, !self.registers.p.negative_flag)
    }

    /// `BRK`: pushes `pc + 2` and the flags (with the break bit set), disables
    /// interrupts and jumps through the IRQ/BRK vector at 0xFFFE.
    pub fn brk_instruction(&mut self, instruction: Instruction) -> (r: ExecutionReturnValues)
        requires
            brk_defined(old(self)@),
        ensures
            (final(self)@, r) == brk_step(old(self)@, instruction),
    {
        self.push_u16(self.registers.pc + 2);
        self.registers.p.break_flag = true;
        let flags = self.registers.p.to_byte();
        self.push_u8(flags);
        self.registers.p.break_flag = false;
        self.registers.p.interrupt_disable_flag = true;
        self.registers.pc = self.memory.get_16_bit_value(IRQ_BRK_VECTOR);
        ExecutionReturnValues::new(instruction, false)
    }

    /// `BVC`: branch when the overflow flag is clear.
    pub fn bvc_instruction(&mut self, instruction: Instruction) -> (r: ExecutionReturnValues)
        requires
            branch_defined(old(self)@, instruction, !old(self).registers.p.overflow_flag),
        ensures
            (final(self)@, r) == branch_step(old(self)@, instruction, !old(self).registers.p.overflow_flag),
    {
        self.branch(instruction, !self.registers.p.overflow_flag)
    }

    /// `BVS`: branch when the overflow flag is set.
    pub fn bvs_instruction(&mut self, instruction: Instruction) -> (r: ExecutionReturnValues)
        requires
            branch_defined(old(self)@, instruction, old(self).registers.p.overflow_flag),
        ensures
            (final(self)@, r) == branch_step(old(self)@, instruction, old(self).registers.p.overflow_flag),
    {
        self.branch(instruction, self.registers.p.overflow_flag)
    }

    /// `CLC`: clears the carry.
    pub fn clc_instruction(&mut self, instruction: Instruction) -> (r: ExecutionReturnValues)
        ensures
            (final(self)@, r) == flag_step(old(self)@, instruction, StatusFlags { carry_flag: false, ..old(self).registers.p }),
    {
        self.registers.p.carry_flag = false;
        ExecutionReturnValues::new(instruction, false)
    }

    /// `CLD`: leaves decimal mode.
    pub fn cld_instruction(&mut self, instruction: Instruction) -> (r: ExecutionReturnValues)
        ensures
            (final(self)@, r) == flag_step(old(self)@, instruction, StatusFlags { decimal_flag: false, ..old(self).registers.p }),
    {
        self.registers.p.decimal_flag = false;
        ExecutionReturnValues::new(instruction, false)
    }

    /// `CLI`: enables interrupts.
    pub fn cli_instruction(&mut self, instruction: Instruction) -> (r: ExecutionReturnValues)
        ensures
            (final(self)@, r) == flag_step(old(self)@, instruction, StatusFlags { interrupt_disable_flag: false, ..old(self).registers.p }),
    {
        self.registers.p.interrupt_disable_flag = false;
        ExecutionReturnValues::new(instruction, false)
    }

    /// `CLV`: clears the overflow flag.
    pub fn clv_instruction(&mut self, instruction: Instruction) -> (r: ExecutionReturnValues)
        ensures
            (final(self)@, r) == flag_step(old(self)@, instruction, StatusFlags { overflow_flag: false, ..old(self).registers.p }),
    {
        self.registers.p.overflow_flag = false;
        ExecutionReturnValues::new(instruction, false)
    }

    /// `CMP`: compares the accumulator with the operand.
    pub fn cmp_instruction(&mut self, instruction: Instruction) -> (r: ExecutionReturnValues)
        requires
            operand_ok(old(self)@, instruction),
        ensures
            (final(self)@, r) == compare_step(old(self)@, instruction, old(self).registers.a),
    {
        let (value, crossed_boundary) = self.get_value(instruction);
        self.compare(self.registers.a, value);
        ExecutionReturnValues::new(instruction, crossed_boundary)
    }

    /// `CPX`: compares X with the operand.
    pub fn cpx_instruction(&mut self, instruction: Instruction) -> (r: ExecutionReturnValues)
        requires
            operand_ok(old(self)@, instruction),
        ensures
            (final(self)@, r) == compare_step(old(self)@, instruction, old(self).registers.x),
    {
        let (value, crossed_boundary) = self.get_value(instruction);
        self.compare(self.registers.x, value);
        ExecutionReturnValues::new(instruction, crossed_boundary)
    }

    /// `CPY`: compares Y with the operand.
    pub fn cpy_instruction(&mut self, instruction: Instruction) -> (r: ExecutionReturnValues)
        requires
            operand_ok(old(self)@, instruction),
        ensures
            (final(self)@, r) == compare_step(old(self)@, instruction, old(self).registers.y),
    {
        let (value, crossed_boundary) = self.get_value(instruction);
        self.compare(self.registers.y, value);
        ExecutionReturnValues::new(instruction, crossed_boundary)
    }

    /// `DEC`: decrements the operand in memory, wrapping from 0 to 0xFF.
    pub fn dec_instruction(&mut self, instruction: Instruction) -> (r: ExecutionReturnValues)
        requires
            operand_ok(old(self)@, instruction),
        ensures
            (final(self)@, r) == step_memory_by(old(self)@, instruction, -1),
    {
        let (address, crossed_boundary) = self.get_address(instruction);
        let result = self.memory.contents[address].wrapping_sub(1);
        self.set_negative_flag(result);
        self.set_zero_flag(result);
        self.memory.contents[address] = result;
        ExecutionReturnValues::new(instruction, crossed_boundary)
    }

    /// `DEX`: decrements X, wrapping from 0 to 0xFF.
    pub fn dex_instruction(&mut self, instruction: Instruction) -> (r: ExecutionReturnValues)
        ensures
            (final(self)@, r) == x_step_by(old(self)@, instruction, -1),
    {
        let result = self.registers.x.wrapping_sub(1);
        self.set_negative_flag(result);
        self.set_zero_flag(result);
        self.registers.x = result;
        ExecutionReturnValues::new(instruction, false)
    }

    /// `DEY`: decrements Y, wrapping from 0 to 0xFF.
    pub fn dey_instruction(&mut self, instruction: Instruction) -> (r: ExecutionReturnValues)
        ensures
            (final(self)@, r) == y_step_by(old(self)@, instruction, -1),
    {
        let result = self.registers.y.wrapping_sub(1);
        self.set_negative_flag(result);
        self.set_zero_flag(result);
        self.registers.y = result;
        ExecutionReturnValues::new(instruction, false)
    }

    /// `EOR`: the accumulator becomes the accumulator XOR the operand.
    pub fn eor_instruction(&mut self, instruction: Instruction) -> (r: ExecutionReturnValues)
        requires
            operand_ok(old(self)@, instruction),
        ensures
            (final(self)@, r) == eor_step(old(self)@, instruction),
    {
        let (value, crossed_boundary) = self.get_value(instruction);
        let result = self.registers.a ^ value;
        self.set_negative_flag(result);
        self.set_zero_flag(result);
        self.registers.a = result;
        ExecutionReturnValues::new(instruction, crossed_boundary)
    }

    /// `INC`: increments the operand in memory, wrapping from 0xFF to 0.
    pub fn inc_instruction(&mut self, instruction: Instruction) -> (r: ExecutionReturnValues)
        requires
            operand_ok(old(self)@, instruction),
        ensures
            (final(self)@, r) == step_memory_by(old(self)@, instruction, 1),
    {
        let (address, crossed_boundary) = self.get_address(instruction);
        let result = self.memory.contents[address].wrapping_add(1);
        self.set_negative_flag(result);
        self.set_zero_flag(result);
        self.memory.contents[address] = result;
        ExecutionReturnValues::new(instruction, crossed_boundary)
    }

    /// `INX`: increments X, wrapping from 0xFF to 0.
    pub fn inx_instruction(&mut self, instruction: Instruction) -> (r: ExecutionReturnValues)
        ensures
            (final(self)@, r) == x_step_by(old(self)@, instruction, 1),
    {
        let result = self.registers.x.wrapping_add(1);
        self.set_negative_flag(result);
        self.set_zero_flag(result);
        self.registers.x = result;
        ExecutionReturnValues::new(instruction, false)
    }

    /// `INY`: increments Y, wrapping from 0xFF to 0.
    pub fn iny_instruction(&mut self, instruction: Instruction) -> (r: ExecutionReturnValues)
        ensures
            (final(self)@, r) == y_step_by(old(self)@, instruction, 1),
    {
        let result = self.registers.y.wrapping_add(1);
        self.set_negative_flag(result);
        self.set_zero_flag(result);
        self.registers.y = result;
        ExecutionReturnValues::new(instruction, false)
    }

    /// `SEC`: sets the carry.
    pub fn sec_instruction(&mut self, instruction: Instruction) -> (r: ExecutionReturnValues)
        ensures
            (final(self)@, r) == flag_step(old(self)@, instruction, StatusFlags { carry_flag: true, ..old(self).registers.p }),
    {
        self.registers.p.carry_flag = true;
        ExecutionReturnValues::new(instruction, false)
    }

    /// `SBC`: subtracts the operand and the borrow (the complement of the
    /// carry) from the accumulator, in decimal when the decimal flag is set.
    pub fn sbc_instruction(&mut self, instruction: Instruction) -> (r: ExecutionReturnValues)
        requires
            operand_ok(old(self)@, instruction),
        ensures
            (final(self)@, r) == sbc_step(old(self)@, instruction),
    {
        let (value, crossed_boundary) = self.get_value(instruction);
        let a = self.registers.a;
        let carry_flag = self.registers.p.carry_flag;
        let borrow: u16 = if carry_flag { 0 } else { 1 };
        let result = sbc_difference(a, value, carry_flag, self.registers.p.decimal_flag);
        proof {
            lemma_not_u8(value);
        }
        self.set_zero_flag(result);
        self.set_negative_flag(result);
        self.set_overflow_flag(a, !value, result);
        self.registers.p.carry_flag = a as u16 >= value as u16 + borrow;
        self.registers.a = result;
        ExecutionReturnValues::new(instruction, crossed_boundary)
    }

    /// `LDA`: loads the operand into the accumulator.
    pub fn lda_instruction(&mut self, instruction: Instruction) -> (r: ExecutionReturnValues)
        requires
            operand_ok(old(self)@, instruction),
        ensures
            (final(self)@, r) == lda_step(old(self)@, instruction),
    {
        let (value, crossed_boundary) = self.get_value(instruction);
        self.registers.a = value;
        self.set_zero_flag(self.registers.a);
        self.set_negative_flag(self.registers.a);
        ExecutionReturnValues::new(instruction, crossed_boundary)
    }
    /// Executes the instruction at the program counter and reports its length,
    /// its clock periods and whether it set the program counter; `None` for an
    /// opcode that is not in the instruction set. Only branches and `BRK` move
    /// the program counter: after another instruction the caller advances it
    /// by the reported length.
    pub fn execute_opcode(&mut self) -> (r: Option<ExecutionReturnValues>)
        requires
            step_defined(old(self)@),
        ensures
            match step(old(self)@) {
                Some((next, values)) => final(self)@ == next && r == Some(values),
                None => final(self)@ == old(self)@ && r is None,
            },
    {
        let instruction = self.instruction_at_program_counter()?;
        let values = match instruction.execute {
            Operation::Adc => self.adc_instruction(instruction),
            Operation::And => self.and_instruction(instruction),
            Operation::Asl => self.asl_instruction(instruction),
            Operation::Bcc => self.bcc_instruction(instruction),
            Operation::Bcs => self.bcs_instruction(instruction),
            Operation::Beq => self.beq_instruction(instruction),
            Operation::Bit => self.bit_instruction(instruction),
            Operation::Bmi => self.bmi_instruction(instruction),
            Operation::Bne => self.bne_instruction(instruction),
            Operation::Bpl => self.bpl_instruction(instruction),
            Operation::Brk => self.brk_instruction(instruction),
            Operation::Bvc => self.bvc_instruction(instruction),
            Operation::Bvs => self.bvs_instruction(instruction),
            Operation::Clc => self.clc_instruction(instruction),
            Operation::Cld => self.cld_instruction(instruction),
            Operation::Cli => self.cli_instruction(instruction),
            Operation::Clv => self.clv_instruction(instruction),
            Operation::Cmp => self.cmp_instruction(instruction),
            Operation::Cpx => self.cpx_instruction(instruction),
            Operation::Cpy => self.cpy_instruction(instruction),
            Operation::Dec => self.dec_instruction(instruction),
            Operation::Dex => self.dex_instruction(instruction),
            Operation::Dey => self.dey_instruction(instruction),
            Operation::Eor => self.eor_instruction(instruction),
            Operation::Inc => self.inc_instruction(instruction),
            Operation::Inx => self.inx_instruction(instruction),
            Operation::Iny => self.iny_instruction(instruction),
            Operation::Lda => self.lda_instruction(instruction),
            Operation::Sbc => self.sbc_instruction(instruction),
            Operation::Sec => self.sec_instruction(instruction),
        };
        Some(values)
    }
    /// Disassembles the instruction at `location` into one line of assembler
    /// text and returns it with the instruction's length; `None` for an opcode
    /// that is not in the instruction set.
    pub fn disassemble_opcode(&self, location: usize) -> (r: Option<(String, u8)>)
        requires
            disassembly_defined(self@.memory, location as int),
        ensures
            match instruction_for(self@.memory[location as int]) {
                Some(instruction) => match r {
                    Some((text, length)) => text@ == disassembly_line(
                        self@.memory,
                        location as int,
                        instruction,
                    ) && length == instruction.bytes,
                    None => false,
                },
                None => r is None,
            },
    {
        let ghost m = self@.memory;
        let instruction = self.get_instruction_for_opcode(location)?;
        let mut line = String::new();
        proof {
            lemma_address_to_u16(location);
        }
        push_hex4(&mut line, location as u16);
        push_char(&mut line, ' ');
        let mut bytes = String::new();
        let mut i: u8 = 0;
        while i < instruction.bytes
            invariant
                m == self@.memory,
                i <= instruction.bytes,
                location + instruction.bytes <= 65536,
                bytes@ == bytes_text(m, location as int, i as nat),
                bytes@.len() == 3 * i,
            decreases instruction.bytes - i,
        {
            let byte = self.memory.get_8_bit_value(location + i as usize);
            push_char(&mut bytes, ' ');
            push_hex2(&mut bytes, byte);
            i = i + 1;
        }
        line.append(bytes.as_str());
        let bytes_length = 3 * instruction.bytes as usize;
        if bytes_length < 8 {
            push_spaces(&mut line, 8 - bytes_length);
        }
        push_char(&mut line, ' ');
        line.append(instruction.mnemonic);
        let mnemonic_length = instruction.mnemonic.unicode_len();
        if mnemonic_length < 4 {
            push_spaces(&mut line, 4 - mnemonic_length);
        }
        push_char(&mut line, ' ');
        self.push_operand_text(&mut line, location, instruction.addressing_mode);
        assert(line@ =~= disassembly_line(m, location as int, instruction));
        Some((line, instruction.bytes))
    }

    /// Appends the operand field of the instruction at `location`.
    fn push_operand_text(&self, line: &mut String, location: usize, mode: AddressingMode)
        requires
            location < 65536,
            operand_text_defined(self@.memory, location as int, mode),
        ensures
            final(line)@ == old(line)@ + operand_text(self@.memory, location as int, mode),
    {
        let ghost m = self@.memory;
        match mode {
            AddressingMode::Accumulator => {
                push_char(line, 'A');
            },
            AddressingMode::Implied => {},
            AddressingMode::Relative => {
                let offset = self.memory.get_8_bit_value(location + 1);
                let base = location + 2;
                proof {
                    lemma_address_to_u16(base);
                }
                let relative_address = Cpu::calculate_address_from_relative_offset(
                    base as u16,
                    offset,
                );
                push_char(line, '$');
                push_hex4(line, relative_address);
            },
            AddressingMode::ZeroPage => {
                push_char(line, '$');
                push_hex2(line, self.memory.get_8_bit_value(location + 1));
            },
            AddressingMode::Immediate => {
                push_char(line, '#');
                push_char(line, '$');
                push_hex2(line, self.memory.get_8_bit_value(location + 1));
            },
            AddressingMode::ZeroPageX => {
                push_char(line, '$');
                push_hex2(line, self.memory.get_8_bit_value(location + 1));
                push_char(line, ',');
                push_char(line, 'X');
            },
            AddressingMode::Absolute => {
                push_char(line, '$');
                push_hex4(line, self.memory.get_16_bit_value(location + 1));
            },
            AddressingMode::AbsoluteX => {
                push_char(line, '$');
                push_hex4(line, self.memory.get_16_bit_value(location + 1));
                push_char(line, ',');
                push_char(line, 'X');
            },
            AddressingMode::AbsoluteY => {
                push_char(line, '$');
                push_hex4(line, self.memory.get_16_bit_value(location + 1));
                push_char(line, ',');
                push_char(line, 'Y');
            },
            AddressingMode::IndirectX => {
                push_char(line, '(');
                push_char(line, '$');
                push_hex2(line, self.memory.get_8_bit_value(location + 1));
                push_char(line, ',');
                push_char(line, 'X');
                push_char(line, ')');
            },
            AddressingMode::IndirectY => {
                push_char(line, '(');
                push_char(line, '$');
                push_hex2(line, self.memory.get_8_bit_value(location + 1));
                push_char(line, ')');
                push_char(line, ',');
                push_char(line, 'Y');
            },
        }
        assert(final(line)@ =~= old(line)@ + operand_text(m, location as int, mode));
    }
}

impl Cpu {
    /// True when `execute_opcode` can run on the current state: the opcode is
    /// unknown, or the instruction's operand, branch target, stack room and
    /// arithmetic stay within the machine's limits.
    pub fn can_execute_opcode(&self) -> (r: bool)
        ensures
            r == step_defined(self@),
    {
        match self.instruction_at_program_counter() {
            Some(instruction) => self.operation_is_defined(instruction),
            None => true,
        }
    }

    fn operation_is_defined(&self, instruction: Instruction) -> (r: bool)
        ensures
            r == operation_defined(self@, instruction),
    {
        let p = self.registers.p;
        match instruction.execute {
            Operation::Adc => self.operand_is_ok(instruction),
            Operation::And => self.operand_is_ok(instruction),
            Operation::Asl => match instruction.addressing_mode { AddressingMode::Accumulator => true, _ => self.operand_is_ok(instruction) },
            Operation::Bcc => self.branch_is_defined(instruction, !p.carry_flag),
            Operation::Bcs => self.branch_is_defined(instruction, p.carry_flag),
            Operation::Beq => self.branch_is_defined(instruction, p.zero_flag),
            Operation::Bit => self.operand_is_defined(instruction.addressing_mode),
            Operation::Bmi => self.branch_is_defined(instruction, p.negative_flag),
            Operation::Bne => self.branch_is_defined(instruction, !p.zero_flag),
            Operation::Bpl => self.branch_is_defined(instruction, !p.negative_flag),
            Operation::Brk => self.registers.pc <= 0xfffd && self.registers.sp >= 3,
            Operation::Bvc => self.branch_is_defined(instruction, !p.overflow_flag),
            Operation::Bvs => self.branch_is_defined(instruction, p.overflow_flag),
            Operation::Clc => true,
            Operation::Cld => true,
            Operation::Cli => true,
            Operation::Clv => true,
            Operation::Cmp => self.operand_is_ok(instruction),
            Operation::Cpx => self.operand_is_ok(instruction),
            Operation::Cpy => self.operand_is_ok(instruction),
            Operation::Dec => self.operand_is_ok(instruction),
            Operation::Dex => true,
            Operation::Dey => true,
            Operation::Eor => self.operand_is_ok(instruction),
            Operation::Inc => self.operand_is_ok(instruction),
            Operation::Inx => true,
            Operation::Iny => true,
            Operation::Lda => self.operand_is_ok(instruction),
            Operation::Sbc => self.operand_is_ok(instruction),
            Operation::Sec => true,
        }
    }

    fn operand_is_defined(&self, mode: AddressingMode) -> (r: bool)
        ensures
            r == operand_defined(self@, mode),
    {
        let pc = self.registers.pc as usize;
        match mode {
            AddressingMode::Immediate => pc + 1 <= 0xffff,
            AddressingMode::ZeroPage => pc + 1 <= 0xffff,
            AddressingMode::ZeroPageX => pc + 1 <= 0xffff,
            AddressingMode::IndirectX => pc + 1 <= 0xffff,
            AddressingMode::Absolute => pc + 2 <= 0xffff,
            AddressingMode::AbsoluteX => pc + 2 <= 0xffff && self.memory.get_16_bit_value(pc + 1)
                as usize + self.registers.x as usize <= 0xffff,
            AddressingMode::AbsoluteY => pc + 2 <= 0xffff && self.memory.get_16_bit_value(pc + 1)
                as usize + self.registers.y as usize <= 0xffff,
            AddressingMode::IndirectY => pc + 1 <= 0xffff && self.memory.get_16_bit_value(
                self.memory.get_8_bit_value(pc + 1) as usize,
            ) as usize + self.registers.y as usize <= 0xffff,
            _ => false,
        }
    }

    fn operand_is_ok(&self, instruction: Instruction) -> (r: bool)
        ensures
            r == operand_ok(self@, instruction),
    {
        if !self.operand_is_defined(instruction.addressing_mode) {
            return false;
        }
        let (_, crossed_boundary) = self.get_address(instruction);
        !crossed_boundary || instruction.clock_periods < 255
    }

    fn branch_is_defined(&self, instruction: Instruction, taken: bool) -> (r: bool)
        ensures
            r == branch_defined(self@, instruction, taken),
    {
        let pc = self.registers.pc as usize;
        if !taken {
            return pc + instruction.bytes as usize <= 0xffff;
        }
        if pc + 2 > 0xffff {
            return false;
        }
        let base = pc + 2;
        let offset = self.memory.get_8_bit_value(pc + 1);
        let in_range = if offset >= 128 {
            base + offset as usize >= 256
        } else {
            base + offset as usize <= 0xffff
        };
        if !in_range {
            return false;
        }
        let target = Cpu::calculate_address_from_relative_offset(base as u16, offset);
        !Cpu::crosses_boundary_by_two_addresses(self.registers.pc, target)
            || instruction.clock_periods < 255
    }

    /// True when `disassemble_opcode` can run at `location`: the opcode is
    /// unknown, or the instruction's bytes lie in memory and a branch target
    /// lies in 0..=0xFFFF.
    pub fn can_disassemble_opcode(&self, location: usize) -> (r: bool)
        ensures
            r == disassembly_defined(self@.memory, location as int),
    {
        if location >= 65536 {
            return false;
        }
        let instruction = match self.get_instruction_for_opcode(location) {
            Some(instruction) => instruction,
            None => return true,
        };
        if location + instruction.bytes as usize > 65536 {
            return false;
        }
        match instruction.addressing_mode {
            AddressingMode::Accumulator => true,
            AddressingMode::Implied => true,
            AddressingMode::Relative => {
                if location + 1 >= 65536 {
                    return false;
                }
                let base = (location + 2) % 65536;
                let offset = self.memory.get_8_bit_value(location + 1);
                if offset >= 128 {
                    base + offset as usize >= 256
                } else {
                    base + offset as usize <= 0xffff
                }
            },
            AddressingMode::Absolute => location + 2 < 65536,
            AddressingMode::AbsoluteX => location + 2 < 65536,
            AddressingMode::AbsoluteY => location + 2 < 65536,
            _ => location + 1 < 65536,
        }
    }
}

} // verus!
