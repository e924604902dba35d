use vstd::prelude::*;

verus! {

/// How an instruction finds its operand.
#[derive(Copy, Clone)]
pub enum AddressingMode {
    Accumulator,
    Implied,
    Relative,
    Immediate,
    ZeroPage,
    ZeroPageX,
    Absolute,
    AbsoluteX,
    AbsoluteY,
    IndirectX,  // (Zero-Page,X)
    IndirectY,  // (Zero-Page),Y
}

/// The operation that an instruction performs; `Cpu::execute_opcode` runs the
/// `Cpu` method of the same name.
#[derive(Copy, Clone)]
pub enum Operation {
    Adc,
    And,
    Asl,
    Bcc,
    Bcs,
    Beq,
    Bit,
    Bmi,
    Bne,
    Bpl,
    Brk,
    Bvc,
    Bvs,
    Clc,
    Cld,
    Cli,
    Clv,
    Cmp,
    Cpx,
    Cpy,
    Dec,
    Dex,
    Dey,
    Eor,
    Inc,
    Inx,
    Iny,
    Lda,
    Sbc,
    Sec,
}

/// What executing one instruction reports: its length in bytes, the clock
/// periods it took, and whether it set the program counter itself.
#[derive(Debug)]
pub struct ExecutionReturnValues {
    pub bytes: u8,
    pub clock_periods: u8,
    pub set_program_counter: bool,
}

/// One entry of the instruction set.
#[derive(Copy, Clone)]
pub struct Instruction {
    pub opcode: u8,
    pub mnemonic: &'static str,
    pub bytes: u8,
    pub clock_periods: u8,
    pub addressing_mode: AddressingMode,
    pub sets_program_counter: bool,
    pub execute: Operation,
}

/// The report of an instruction: one more clock period when a page boundary was crossed.
pub open spec fn return_values(instruction: Instruction, crossed_boundary: bool) -> ExecutionReturnValues {
    ExecutionReturnValues {
        bytes: instruction.bytes,
        clock_periods: if crossed_boundary {
            (instruction.clock_periods + 1) as u8
        } else {
            instruction.clock_periods
        },
        set_program_counter: instruction.sets_program_counter,
    }
}

impl ExecutionReturnValues {
    pub fn new(instruction: Instruction, crossed_boundary: bool) -> (r: ExecutionReturnValues)
        requires
            crossed_boundary ==> instruction.clock_periods < 255,
        ensures
            r == return_values(instruction, crossed_boundary),
    {
        ExecutionReturnValues {
            bytes: instruction.bytes,
            clock_periods: match crossed_boundary {
                true => instruction.clock_periods + 1,
                false => instruction.clock_periods,
            },
            set_program_counter: instruction.sets_program_counter,
        }
    }
}

pub const ADC_INSTRUCTION: &'static str = "ADC";
pub const AND_INSTRUCTION: &'static str = "AND";
pub const ASL_INSTRUCTION: &'static str = "ASL";
pub const BCC_INSTRUCTION: &'static str = "BCC";
pub const BCS_INSTRUCTION: &'static str = "BCS";
pub const BEQ_INSTRUCTION: &'static str = "BEQ";
pub const BIT_INSTRUCTION: &'static str = "BIT";
pub const BMI_INSTRUCTION: &'static str = "BMI";
pub const BNE_INSTRUCTION: &'static str = "BNE";
pub const BPL_INSTRUCTION: &'static str = "BPL";
pub const BRK_INSTRUCTION: &'static str = "BRK";
pub const BVC_INSTRUCTION: &'static str = "BVC";
pub const BVS_INSTRUCTION: &'static str = "BVS";
pub const CLC_INSTRUCTION: &'static str = "CLC";
pub const CLD_INSTRUCTION: &'static str = "CLD";
pub const CLI_INSTRUCTION: &'static str = "CLI";
pub const CLV_INSTRUCTION: &'static str = "CLV";
pub const CMP_INSTRUCTION: &'static str = "CMP";
pub const CPX_INSTRUCTION: &'static str = "CPX";
pub const CPY_INSTRUCTION: &'static str = "CPY";
pub const DEC_INSTRUCTION: &'static str = "DEC";
pub const DEX_INSTRUCTION: &'static str = "DEX";
pub const DEY_INSTRUCTION: &'static str = "DEY";
pub const EOR_INSTRUCTION: &'static str = "EOR";
pub const INC_INSTRUCTION: &'static str = "INC";
pub const INX_INSTRUCTION: &'static str = "INX";
pub const INY_INSTRUCTION: &'static str = "INY";
pub const LDA_INSTRUCTION: &'static str = "LDA";
pub const SBC_INSTRUCTION: &'static str = "SBC";
pub const SEC_INSTRUCTION: &'static str = "SEC";

/// One entry of the instruction set, field by field.
pub open spec fn entry(
    opcode: u8,
    mnemonic: &'static str,
    bytes: u8,
    clock_periods: u8,
    addressing_mode: AddressingMode,
    sets_program_counter: bool,
    execute: Operation,
) -> Instruction {
    Instruction { opcode, mnemonic, bytes, clock_periods, addressing_mode, sets_program_counter, execute }
}

/// The instruction set: the entry for each opcode that the emulator knows.
pub open spec fn instruction_for(opcode: u8) -> Option<Instruction> {
    match opcode {
        0x00 => Some(entry(0x00, BRK_INSTRUCTION, 1, 7, AddressingMode::Implied, false, Operation::Brk)),
        0x06 => Some(entry(0x06, ASL_INSTRUCTION, 2, 5, AddressingMode::ZeroPage, false, Operation::Asl)),
        0x0A => Some(entry(0x0A, ASL_INSTRUCTION, 1, 2, AddressingMode::Accumulator, false, Operation::Asl)),
        0x0E => Some(entry(0x0E, ASL_INSTRUCTION, 3, 6, AddressingMode::Absolute, false, Operation::Asl)),
        0x10 => Some(entry(0x10, BPL_INSTRUCTION, 2, 2, AddressingMode::Relative, true, Operation::Bpl)),
        0x16 => Some(entry(0x16, ASL_INSTRUCTION, 2, 6, AddressingMode::ZeroPageX, false, Operation::Asl)),
        0x18 => Some(entry(0x18, CLC_INSTRUCTION, 1, 2, AddressingMode::Implied, false, Operation::Clc)),
        0x1E => Some(entry(0x1E, ASL_INSTRUCTION, 3, 7, AddressingMode::AbsoluteX, false, Operation::Asl)),
        0x21 => Some(entry(0x21, AND_INSTRUCTION, 2, 6, AddressingMode::IndirectX, false, Operation::And)),
        0x24 => Some(entry(0x24, BIT_INSTRUCTION, 2, 3, AddressingMode::ZeroPage, false, Operation::Bit)),
        0x25 => Some(entry(0x25, AND_INSTRUCTION, 2, 3, AddressingMode::ZeroPage, false, Operation::And)),
        0x29 => Some(entry(0x29, AND_INSTRUCTION, 2, 2, AddressingMode::Immediate, false, Operation::And)),
        0x2C => Some(entry(0x2C, BIT_INSTRUCTION, 3, 4, AddressingMode::Absolute, false, Operation::Bit)),
        0x2D => Some(entry(0x2D, AND_INSTRUCTION, 3, 4, AddressingMode::Absolute, false, Operation::And)),
        0x30 => Some(entry(0x30, BMI_INSTRUCTION, 2, 2, AddressingMode::Relative, true, Operation::Bmi)),
        0x31 => Some(entry(0x31, AND_INSTRUCTION, 2, 5, AddressingMode::IndirectY, false, Operation::And)),
        0x35 => Some(entry(0x35, AND_INSTRUCTION, 2, 4, AddressingMode::ZeroPageX, false, Operation::And)),
        0x38 => Some(entry(0x38, SEC_INSTRUCTION, 1, 2, AddressingMode::Implied, false, Operation::Sec)),
        0x39 => Some(entry(0x39, AND_INSTRUCTION, 3, 4, AddressingMode::AbsoluteY, false, Operation::And)),
        0x3D => Some(entry(0x3D, AND_INSTRUCTION, 3, 4, AddressingMode::AbsoluteX, false, Operation::And)),
        0x41 => Some(entry(0x41, EOR_INSTRUCTION, 2, 6, AddressingMode::IndirectX, false, Operation::Eor)),
        0x45 => Some(entry(0x45, EOR_INSTRUCTION, 2, 3, AddressingMode::ZeroPage, false, Operation::Eor)),
        0x49 => Some(entry(0x49, EOR_INSTRUCTION, 2, 2, AddressingMode::Immediate, false, Operation::Eor)),
        0x4D => Some(entry(0x4D, EOR_INSTRUCTION, 3, 4, AddressingMode::Absolute, false, Operation::Eor)),
        0x50 => Some(entry(0x50, BVC_INSTRUCTION, 2, 2, AddressingMode::Relative, true, Operation::Bvc)),
        0x51 => Some(entry(0x51, EOR_INSTRUCTION, 2, 5, AddressingMode::IndirectY, false, Operation::Eor)),
        0x55 => Some(entry(0x55, EOR_INSTRUCTION, 2, 4, AddressingMode::ZeroPageX, false, Operation::Eor)),
        0x58 => Some(entry(0x58, CLI_INSTRUCTION, 1, 2, AddressingMode::Implied, false, Operation::Cli)),
        0x59 => Some(entry(0x59, EOR_INSTRUCTION, 3, 4, AddressingMode::AbsoluteY, false, Operation::Eor)),
        0x5D => Some(entry(0x5D, EOR_INSTRUCTION, 3, 4, AddressingMode::AbsoluteX, false, Operation::Eor)),
        0x61 => Some(entry(0x61, ADC_INSTRUCTION, 2, 6, AddressingMode::IndirectX, false, Operation::Adc)),
        0x65 => Some(entry(0x65, ADC_INSTRUCTION, 2, 3, AddressingMode::ZeroPage, false, Operation::Adc)),
        0x69 => Some(entry(0x69, ADC_INSTRUCTION, 2, 2, AddressingMode::Immediate, false, Operation::Adc)),
        0x6D => Some(entry(0x6D, ADC_INSTRUCTION, 3, 4, AddressingMode::Absolute, false, Operation::Adc)),
        0x70 => Some(entry(0x70, BVS_INSTRUCTION, 2, 2, AddressingMode::Relative, true, Operation::Bvs)),
        0x71 => Some(entry(0x71, ADC_INSTRUCTION, 2, 5, AddressingMode::IndirectY, false, Operation::Adc)),
        0x75 => Some(entry(0x75, ADC_INSTRUCTION, 2, 4, AddressingMode::ZeroPageX, false, Operation::Adc)),
        0x79 => Some(entry(0x79, ADC_INSTRUCTION, 3, 4, AddressingMode::AbsoluteY, false, Operation::Adc)),
        0x7D => Some(entry(0x7D, ADC_INSTRUCTION, 3, 4, AddressingMode::AbsoluteX, false, Operation::Adc)),
        0x88 => Some(entry(0x88, DEY_INSTRUCTION, 1, 2, AddressingMode::Implied, false, Operation::Dey)),
        0x90 => Some(entry(0x90, BCC_INSTRUCTION, 2, 2, AddressingMode::Relative, true, Operation::Bcc)),
        0xA1 => Some(entry(0xA1, LDA_INSTRUCTION, 2, 6, AddressingMode::IndirectX, false, Operation::Lda)),
        0xA5 => Some(entry(0xA5, LDA_INSTRUCTION, 2, 3, AddressingMode::ZeroPage, false, Operation::Lda)),
        0xA9 => Some(entry(0xA9, LDA_INSTRUCTION, 2, 2, AddressingMode::Immediate, false, Operation::Lda)),
        0xAD => Some(entry(0xAD, LDA_INSTRUCTION, 3, 4, AddressingMode::Absolute, false, Operation::Lda)),
        0xB0 => Some(entry(0xB0, BCS_INSTRUCTION, 2, 2, AddressingMode::Relative, true, Operation::Bcs)),
        0xB1 => Some(entry(0xB1, LDA_INSTRUCTION, 2, 5, AddressingMode::IndirectY, false, Operation::Lda)),
        0xB5 => Some(entry(0xB5, LDA_INSTRUCTION, 2, 4, AddressingMode::ZeroPageX, false, Operation::Lda)),
        0xB8 => Some(entry(0xB8, CLV_INSTRUCTION, 1, 2, AddressingMode::Implied, false, Operation::Clv)),
        0xB9 => Some(entry(0xB9, LDA_INSTRUCTION, 3, 4, AddressingMode::AbsoluteY, false, Operation::Lda)),
        0xBD => Some(entry(0xBD, LDA_INSTRUCTION, 3, 4, AddressingMode::AbsoluteX, false, Operation::Lda)),
        0xC0 => Some(entry(0xC0, CPY_INSTRUCTION, 2, 2, AddressingMode::Immediate, false, Operation::Cpy)),
        0xC1 => Some(entry(0xC1, CMP_INSTRUCTION, 2, 6, AddressingMode::IndirectX, false, Operation::Cmp)),
        0xC4 => Some(entry(0xC4, CPY_INSTRUCTION, 2, 3, AddressingMode::ZeroPage, false, Operation::Cpy)),
        0xC5 => Some(entry(0xC5, CMP_INSTRUCTION, 2, 3, AddressingMode::ZeroPage, false, Operation::Cmp)),
        0xC6 => Some(entry(0xC6, DEC_INSTRUCTION, 2, 5, AddressingMode::ZeroPage, false, Operation::Dec)),
        0xC8 => Some(entry(0xC8, INY_INSTRUCTION, 1, 2, AddressingMode::Implied, false, Operation::Iny)),
        0xC9 => Some(entry(0xC9, CMP_INSTRUCTION, 2, 2, AddressingMode::Immediate, false, Operation::Cmp)),
        0xCA => Some(entry(0xCA, DEX_INSTRUCTION, 1, 2, AddressingMode::Implied, false, Operation::Dex)),
        0xCC => Some(entry(0xCC, CPY_INSTRUCTION, 3, 4, AddressingMode::Absolute, false, Operation::Cpy)),
        0xCD => Some(entry(0xCD, CMP_INSTRUCTION, 3, 4, AddressingMode::Absolute, false, Operation::Cmp)),
        0xCE => Some(entry(0xCE, DEC_INSTRUCTION, 3, 6, AddressingMode::Absolute, false, Operation::Dec)),
        0xD0 => Some(entry(0xD0, BNE_INSTRUCTION, 2, 2, AddressingMode::Relative, true, Operation::Bne)),
        0xD1 => Some(entry(0xD1, CMP_INSTRUCTION, 2, 5, AddressingMode::IndirectY, false, Operation::Cmp)),
        0xD5 => Some(entry(0xD5, CMP_INSTRUCTION, 2, 4, AddressingMode::ZeroPageX, false, Operation::Cmp)),
        0xD6 => Some(entry(0xD6, DEC_INSTRUCTION, 2, 6, AddressingMode::ZeroPageX, false, Operation::Dec)),
        0xD8 => Some(entry(0xD8, CLD_INSTRUCTION, 1, 2, AddressingMode::Implied, false, Operation::Cld)),
        0xD9 => Some(entry(0xD9, CMP_INSTRUCTION, 3, 4, AddressingMode::AbsoluteY, false, Operation::Cmp)),
        0xDD => Some(entry(0xDD, CMP_INSTRUCTION, 3, 4, AddressingMode::AbsoluteX, false, Operation::Cmp)),
        0xDE => Some(entry(0xDE, DEC_INSTRUCTION, 3, 7, AddressingMode::AbsoluteX, false, Operation::Dec)),
        0xE0 => Some(entry(0xE0, CPX_INSTRUCTION, 2, 2, AddressingMode::Immediate, false, Operation::Cpx)),
        0xE4 => Some(entry(0xE4, CPX_INSTRUCTION, 2, 3, AddressingMode::ZeroPage, false, Operation::Cpx)),
        0xE6 => Some(entry(0xE6, INC_INSTRUCTION, 2, 5, AddressingMode::ZeroPage, false, Operation::Inc)),
        0xE8 => Some(entry(0xE8, INX_INSTRUCTION, 1, 2, AddressingMode::Implied, false, Operation::Inx)),
        0xE9 => Some(entry(0xE9, SBC_INSTRUCTION, 2, 2, AddressingMode::Immediate, false, Operation::Sbc)),
        0xEC => Some(entry(0xEC, CPX_INSTRUCTION, 3, 4, AddressingMode::Absolute, false, Operation::Cpx)),
        0xEE => Some(entry(0xEE, INC_INSTRUCTION, 3, 6, AddressingMode::Absolute, false, Operation::Inc)),
        0xF0 => Some(entry(0xF0, BEQ_INSTRUCTION, 2, 2, AddressingMode::Relative, true, Operation::Beq)),
        0xF6 => Some(entry(0xF6, INC_INSTRUCTION, 2, 6, AddressingMode::ZeroPageX, false, Operation::Inc)),
        0xFE => Some(entry(0xFE, INC_INSTRUCTION, 3, 7, AddressingMode::AbsoluteX, false, Operation::Inc)),
        _ => None,
    }
}

impl Instruction {
    fn new_entry(
        opcode: u8,
        mnemonic: &'static str,
        bytes: u8,
        clock_periods: u8,
        addressing_mode: AddressingMode,
        sets_program_counter: bool,
        execute: Operation,
    ) -> (i: Instruction)
        ensures
            i == entry(opcode, mnemonic, bytes, clock_periods, addressing_mode, sets_program_counter, execute),
    {
        Instruction { opcode, mnemonic, bytes, clock_periods, addressing_mode, sets_program_counter, execute }
    }

    /// The instruction-set entry for `opcode`, if there is one.
    pub fn for_opcode(opcode: u8) -> (i: Option<Instruction>)
        ensures
            i == instruction_for(opcode),
    {
        match opcode {
            0x00 => Some(Instruction::new_entry(0x00, BRK_INSTRUCTION, 1, 7, AddressingMode::Implied, false, Operation::Brk)),
            0x06 => Some(Instruction::new_entry(0x06, ASL_INSTRUCTION, 2, 5, AddressingMode::ZeroPage, false, Operation::Asl)),
            0x0A => Some(Instruction::new_entry(0x0A, ASL_INSTRUCTION, 1, 2, AddressingMode::Accumulator, false, Operation::Asl)),
            0x0E => Some(Instruction::new_entry(0x0E, ASL_INSTRUCTION, 3, 6, AddressingMode::Absolute, false, Operation::Asl)),
            0x10 => Some(Instruction::new_entry(0x10, BPL_INSTRUCTION, 2, 2, AddressingMode::Relative, true, Operation::Bpl)),
            0x16 => Some(Instruction::new_entry(0x16, ASL_INSTRUCTION, 2, 6, AddressingMode::ZeroPageX, false, Operation::Asl)),
            0x18 => Some(Instruction::new_entry(0x18, CLC_INSTRUCTION, 1, 2, AddressingMode::Implied, false, Operation::Clc)),
            0x1E => Some(Instruction::new_entry(0x1E, ASL_INSTRUCTION, 3, 7, AddressingMode::AbsoluteX, false, Operation::Asl)),
            0x21 => Some(Instruction::new_entry(0x21, AND_INSTRUCTION, 2, 6, AddressingMode::IndirectX, false, Operation::And)),
            0x24 => Some(Instruction::new_entry(0x24, BIT_INSTRUCTION, 2, 3, AddressingMode::ZeroPage, false, Operation::Bit)),
            0x25 => Some(Instruction::new_entry(0x25, AND_INSTRUCTION, 2, 3, AddressingMode::ZeroPage, false, Operation::And)),
            0x29 => Some(Instruction::new_entry(0x29, AND_INSTRUCTION, 2, 2, AddressingMode::Immediate, false, Operation::And)),
            0x2C => Some(Instruction::new_entry(0x2C, BIT_INSTRUCTION, 3, 4, AddressingMode::Absolute, false, Operation::Bit)),
            0x2D => Some(Instruction::new_entry(0x2D, AND_INSTRUCTION, 3, 4, AddressingMode::Absolute, false, Operation::And)),
            0x30 => Some(Instruction::new_entry(0x30, BMI_INSTRUCTION, 2, 2, AddressingMode::Relative, true, Operation::Bmi)),
            0x31 => Some(Instruction::new_entry(0x31, AND_INSTRUCTION, 2, 5, AddressingMode::IndirectY, false, Operation::And)),
            0x35 => Some(Instruction::new_entry(0x35, AND_INSTRUCTION, 2, 4, AddressingMode::ZeroPageX, false, Operation::And)),
            0x38 => Some(Instruction::new_entry(0x38, SEC_INSTRUCTION, 1, 2, AddressingMode::Implied, false, Operation::Sec)),
            0x39 => Some(Instruction::new_entry(0x39, AND_INSTRUCTION, 3, 4, AddressingMode::AbsoluteY, false, Operation::And)),
            0x3D => Some(Instruction::new_entry(0x3D, AND_INSTRUCTION, 3, 4, AddressingMode::AbsoluteX, false, Operation::And)),
            0x41 => Some(Instruction::new_entry(0x41, EOR_INSTRUCTION, 2, 6, AddressingMode::IndirectX, false, Operation::Eor)),
            0x45 => Some(Instruction::new_entry(0x45, EOR_INSTRUCTION, 2, 3, AddressingMode::ZeroPage, false, Operation::Eor)),
            0x49 => Some(Instruction::new_entry(0x49, EOR_INSTRUCTION, 2, 2, AddressingMode::Immediate, false, Operation::Eor)),
            0x4D => Some(Instruction::new_entry(0x4D, EOR_INSTRUCTION, 3, 4, AddressingMode::Absolute, false, Operation::Eor)),
            0x50 => Some(Instruction::new_entry(0x50, BVC_INSTRUCTION, 2, 2, AddressingMode::Relative, true, Operation::Bvc)),
            0x51 => Some(Instruction::new_entry(0x51, EOR_INSTRUCTION, 2, 5, AddressingMode::IndirectY, false, Operation::Eor)),
            0x55 => Some(Instruction::new_entry(0x55, EOR_INSTRUCTION, 2, 4, AddressingMode::ZeroPageX, false, Operation::Eor)),
            0x58 => Some(Instruction::new_entry(0x58, CLI_INSTRUCTION, 1, 2, AddressingMode::Implied, false, Operation::Cli)),
            0x59 => Some(Instruction::new_entry(0x59, EOR_INSTRUCTION, 3, 4, AddressingMode::AbsoluteY, false, Operation::Eor)),
            0x5D => Some(Instruction::new_entry(0x5D, EOR_INSTRUCTION, 3, 4, AddressingMode::AbsoluteX, false, Operation::Eor)),
            0x61 => Some(Instruction::new_entry(0x61, ADC_INSTRUCTION, 2, 6, AddressingMode::IndirectX, false, Operation::Adc)),
            0x65 => Some(Instruction::new_entry(0x65, ADC_INSTRUCTION, 2, 3, AddressingMode::ZeroPage, false, Operation::Adc)),
            0x69 => Some(Instruction::new_entry(0x69, ADC_INSTRUCTION, 2, 2, AddressingMode::Immediate, false, Operation::Adc)),
            0x6D => Some(Instruction::new_entry(0x6D, ADC_INSTRUCTION, 3, 4, AddressingMode::Absolute, false, Operation::Adc)),
            0x70 => Some(Instruction::new_entry(0x70, BVS_INSTRUCTION, 2, 2, AddressingMode::Relative, true, Operation::Bvs)),
            0x71 => Some(Instruction::new_entry(0x71, ADC_INSTRUCTION, 2, 5, AddressingMode::IndirectY, false, Operation::Adc)),
            0x75 => Some(Instruction::new_entry(0x75, ADC_INSTRUCTION, 2, 4, AddressingMode::ZeroPageX, false, Operation::Adc)),
            0x79 => Some(Instruction::new_entry(0x79, ADC_INSTRUCTION, 3, 4, AddressingMode::AbsoluteY, false, Operation::Adc)),
            0x7D => Some(Instruction::new_entry(0x7D, ADC_INSTRUCTION, 3, 4, AddressingMode::AbsoluteX, false, Operation::Adc)),
            0x88 => Some(Instruction::new_entry(0x88, DEY_INSTRUCTION, 1, 2, AddressingMode::Implied, false, Operation::Dey)),
            0x90 => Some(Instruction::new_entry(0x90, BCC_INSTRUCTION, 2, 2, AddressingMode::Relative, true, Operation::Bcc)),
            0xA1 => Some(Instruction::new_entry(0xA1, LDA_INSTRUCTION, 2, 6, AddressingMode::IndirectX, false, Operation::Lda)),
            0xA5 => Some(Instruction::new_entry(0xA5, LDA_INSTRUCTION, 2, 3, AddressingMode::ZeroPage, false, Operation::Lda)),
            0xA9 => Some(Instruction::new_entry(0xA9, LDA_INSTRUCTION, 2, 2, AddressingMode::Immediate, false, Operation::Lda)),
            0xAD => Some(Instruction::new_entry(0xAD, LDA_INSTRUCTION, 3, 4, AddressingMode::Absolute, false, Operation::Lda)),
            0xB0 => Some(Instruction::new_entry(0xB0, BCS_INSTRUCTION, 2, 2, AddressingMode::Relative, true, Operation::Bcs)),
            0xB1 => Some(Instruction::new_entry(0xB1, LDA_INSTRUCTION, 2, 5, AddressingMode::IndirectY, false, Operation::Lda)),
            0xB5 => Some(Instruction::new_entry(0xB5, LDA_INSTRUCTION, 2, 4, AddressingMode::ZeroPageX, false, Operation::Lda)),
            0xB8 => Some(Instruction::new_entry(0xB8, CLV_INSTRUCTION, 1, 2, AddressingMode::Implied, false, Operation::Clv)),
            0xB9 => Some(Instruction::new_entry(0xB9, LDA_INSTRUCTION, 3, 4, AddressingMode::AbsoluteY, false, Operation::Lda)),
            0xBD => Some(Instruction::new_entry(0xBD, LDA_INSTRUCTION, 3, 4, AddressingMode::AbsoluteX, false, Operation::Lda)),
            0xC0 => Some(Instruction::new_entry(0xC0, CPY_INSTRUCTION, 2, 2, AddressingMode::Immediate, false, Operation::Cpy)),
            0xC1 => Some(Instruction::new_entry(0xC1, CMP_INSTRUCTION, 2, 6, AddressingMode::IndirectX, false, Operation::Cmp)),
            0xC4 => Some(Instruction::new_entry(0xC4, CPY_INSTRUCTION, 2, 3, AddressingMode::ZeroPage, false, Operation::Cpy)),
            0xC5 => Some(Instruction::new_entry(0xC5, CMP_INSTRUCTION, 2, 3, AddressingMode::ZeroPage, false, Operation::Cmp)),
            0xC6 => Some(Instruction::new_entry(0xC6, DEC_INSTRUCTION, 2, 5, AddressingMode::ZeroPage, false, Operation::Dec)),
            0xC8 => Some(Instruction::new_entry(0xC8, INY_INSTRUCTION, 1, 2, AddressingMode::Implied, false, Operation::Iny)),
            0xC9 => Some(Instruction::new_entry(0xC9, CMP_INSTRUCTION, 2, 2, AddressingMode::Immediate, false, Operation::Cmp)),
            0xCA => Some(Instruction::new_entry(0xCA, DEX_INSTRUCTION, 1, 2, AddressingMode::Implied, false, Operation::Dex)),
            0xCC => Some(Instruction::new_entry(0xCC, CPY_INSTRUCTION, 3, 4, AddressingMode::Absolute, false, Operation::Cpy)),
            0xCD => Some(Instruction::new_entry(0xCD, CMP_INSTRUCTION, 3, 4, AddressingMode::Absolute, false, Operation::Cmp)),
            0xCE => Some(Instruction::new_entry(0xCE, DEC_INSTRUCTION, 3, 6, AddressingMode::Absolute, false, Operation::Dec)),
            0xD0 => Some(Instruction::new_entry(0xD0, BNE_INSTRUCTION, 2, 2, AddressingMode::Relative, true, Operation::Bne)),
            0xD1 => Some(Instruction::new_entry(0xD1, CMP_INSTRUCTION, 2, 5, AddressingMode::IndirectY, false, Operation::Cmp)),
            0xD5 => Some(Instruction::new_entry(0xD5, CMP_INSTRUCTION, 2, 4, AddressingMode::ZeroPageX, false, Operation::Cmp)),
            0xD6 => Some(Instruction::new_entry(0xD6, DEC_INSTRUCTION, 2, 6, AddressingMode::ZeroPageX, false, Operation::Dec)),
            0xD8 => Some(Instruction::new_entry(0xD8, CLD_INSTRUCTION, 1, 2, AddressingMode::Implied, false, Operation::Cld)),
            0xD9 => Some(Instruction::new_entry(0xD9, CMP_INSTRUCTION, 3, 4, AddressingMode::AbsoluteY, false, Operation::Cmp)),
            0xDD => Some(Instruction::new_entry(0xDD, CMP_INSTRUCTION, 3, 4, AddressingMode::AbsoluteX, false, Operation::Cmp)),
            0xDE => Some(Instruction::new_entry(0xDE, DEC_INSTRUCTION, 3, 7, AddressingMode::AbsoluteX, false, Operation::Dec)),
            0xE0 => Some(Instruction::new_entry(0xE0, CPX_INSTRUCTION, 2, 2, AddressingMode::Immediate, false, Operation::Cpx)),
            0xE4 => Some(Instruction::new_entry(0xE4, CPX_INSTRUCTION, 2, 3, AddressingMode::ZeroPage, false, Operation::Cpx)),
            0xE6 => Some(Instruction::new_entry(0xE6, INC_INSTRUCTION, 2, 5, AddressingMode::ZeroPage, false, Operation::Inc)),
            0xE8 => Some(Instruction::new_entry(0xE8, INX_INSTRUCTION, 1, 2, AddressingMode::Implied, false, Operation::Inx)),
            0xE9 => Some(Instruction::new_entry(0xE9, SBC_INSTRUCTION, 2, 2, AddressingMode::Immediate, false, Operation::Sbc)),
            0xEC => Some(Instruction::new_entry(0xEC, CPX_INSTRUCTION, 3, 4, AddressingMode::Absolute, false, Operation::Cpx)),
            0xEE => Some(Instruction::new_entry(0xEE, INC_INSTRUCTION, 3, 6, AddressingMode::Absolute, false, Operation::Inc)),
            0xF0 => Some(Instruction::new_entry(0xF0, BEQ_INSTRUCTION, 2, 2, AddressingMode::Relative, true, Operation::Beq)),
            0xF6 => Some(Instruction::new_entry(0xF6, INC_INSTRUCTION, 2, 6, AddressingMode::ZeroPageX, false, Operation::Inc)),
            0xFE => Some(Instruction::new_entry(0xFE, INC_INSTRUCTION, 3, 7, AddressingMode::AbsoluteX, false, Operation::Inc)),
            _ => None,
        }
    }
}

} // verus!
