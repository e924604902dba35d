//! The text that the disassembler writes for one instruction.
use vstd::prelude::*;
use crate::cpu::instruction::{AddressingMode, Instruction, instruction_for};
use crate::cpu::memory::word_at;
use crate::cpu::semantics::relative_target;
use crate::cpu::text::{hex2, hex4, hex_value, lemma_hex2_reads_back, lemma_hex4_reads_back, pad_right};

verus! {

/// The instruction's bytes from `location`, each as a space and two hexadecimal digits.
pub open spec fn bytes_text(m: Seq<u8>, location: int, n: nat) -> Seq<char>
    decreases n,
{
    if n == 0 {
        Seq::empty()
    } else {
        bytes_text(m, location, (n - 1) as nat) + seq![' '] + hex2(m[location + n - 1] as int)
    }
}

/// The branch target that the disassembler shows: the 16-bit address after the
/// two instruction bytes, plus the signed offset.
pub open spec fn disassembled_target(m: Seq<u8>, location: int) -> int {
    relative_target((location + 2) % 65536, m[location + 1])
}

/// The operand field in assembler syntax: `A`, nothing, `$hhhh`, `$hh`,
/// `#$hh`, `$hh,X`, `$hhhh,X`, `$hhhh,Y`, `($hh,X)` or `($hh),Y`.
pub open spec fn operand_text(m: Seq<u8>, location: int, mode: AddressingMode) -> Seq<char> {
    let byte = m[location + 1] as int;
    let word = word_at(m, location + 1);
    match mode {
        AddressingMode::Accumulator => seq!['A'],
        AddressingMode::Implied => Seq::empty(),
        AddressingMode::Relative => seq!['$'] + hex4(disassembled_target(m, location)),
        AddressingMode::ZeroPage => seq!['$'] + hex2(byte),
        AddressingMode::Immediate => seq!['#', '$'] + hex2(byte),
        AddressingMode::ZeroPageX => seq!['$'] + hex2(byte) + seq![',', 'X'],
        AddressingMode::Absolute => seq!['$'] + hex4(word),
        AddressingMode::AbsoluteX => seq!['$'] + hex4(word) + seq![',', 'X'],
        AddressingMode::AbsoluteY => seq!['$'] + hex4(word) + seq![',', 'Y'],
        AddressingMode::IndirectX => seq!['(', '$'] + hex2(byte) + seq![',', 'X', ')'],
        AddressingMode::IndirectY => seq!['(', '$'] + hex2(byte) + seq![')', ',', 'Y'],
    }
}

/// One disassembly line: the address, the instruction's bytes (padded to 8
/// characters), the mnemonic (padded to 4) and the operand, separated by spaces.
pub open spec fn disassembly_line(m: Seq<u8>, location: int, instruction: Instruction) -> Seq<char> {
    hex4(location) + seq![' '] + pad_right(bytes_text(m, location, instruction.bytes as nat), 8)
        + seq![' '] + pad_right(instruction.mnemonic@, 4) + seq![' '] + operand_text(
        m,
        location,
        instruction.addressing_mode,
    )
}

/// The bytes that the operand field shows lie in memory, and a branch target
/// lies in 0..=0xFFFF.
pub open spec fn operand_text_defined(m: Seq<u8>, location: int, mode: AddressingMode) -> bool {
    match mode {
        AddressingMode::Accumulator => true,
        AddressingMode::Implied => true,
        AddressingMode::Relative => location + 1 < 65536 && 0 <= disassembled_target(m, location)
            <= 0xffff,
        AddressingMode::Absolute => location + 2 < 65536,
        AddressingMode::AbsoluteX => location + 2 < 65536,
        AddressingMode::AbsoluteY => location + 2 < 65536,
        _ => location + 1 < 65536,
    }
}

/// The instruction at `location` can be disassembled: the opcode and all of
/// the instruction's bytes lie in memory and its operand can be shown.
pub open spec fn disassembly_defined(m: Seq<u8>, location: int) -> bool {
    &&& 0 <= location < 65536
    &&& match instruction_for(m[location]) {
        Some(instruction) => {
            &&& location + instruction.bytes <= 65536
            &&& operand_text_defined(m, location, instruction.addressing_mode)
        },
        None => true,
    }
}

/// The fields of a disassembly line read back as what they show: the first
/// four characters are the address in hexadecimal, and the operand at the end
/// of the line shows the operand bytes in the syntax of the addressing mode,
/// naming the index register that the mode adds (`,X` or `,Y`). A branch shows
/// its target: the address after its two bytes plus the signed offset.
pub proof fn lemma_disassembly_line_fields(m: Seq<u8>, location: int, instruction: Instruction)
    requires
        0 <= location,
        location + 2 < m.len(),
        m.len() == 65536,
        operand_text_defined(m, location, instruction.addressing_mode),
    ensures
        ({
            let line = disassembly_line(m, location, instruction);
            let n = line.len() as int;
            let byte = m[location + 1] as int;
            let word = m[location + 1] + 256 * m[location + 2];
            let offset = m[location + 1] as int;
            &&& hex_value(line.take(4)) == location
            &&& line[4] == ' '
            &&& instruction.addressing_mode is Accumulator ==> line[n - 1] == 'A'
            &&& instruction.addressing_mode is Immediate ==> line[n - 4] == '#' && line[n - 3] == '$'
                && hex_value(line.subrange(n - 2, n)) == byte
            &&& instruction.addressing_mode is ZeroPage ==> line[n - 3] == '$' && hex_value(
                line.subrange(n - 2, n),
            ) == byte
            &&& instruction.addressing_mode is ZeroPageX ==> line[n - 5] == '$' && hex_value(
                line.subrange(n - 4, n - 2),
            ) == byte && line[n - 2] == ',' && line[n - 1] == 'X'
            &&& instruction.addressing_mode is Absolute ==> line[n - 5] == '$' && hex_value(
                line.subrange(n - 4, n),
            ) == word
            &&& instruction.addressing_mode is AbsoluteX ==> line[n - 7] == '$' && hex_value(
                line.subrange(n - 6, n - 2),
            ) == word && line[n - 2] == ',' && line[n - 1] == 'X'
            &&& instruction.addressing_mode is AbsoluteY ==> line[n - 7] == '$' && hex_value(
                line.subrange(n - 6, n - 2),
            ) == word && line[n - 2] == ',' && line[n - 1] == 'Y'
            &&& instruction.addressing_mode is IndirectX ==> line[n - 7] == '(' && line[n - 6] == '$'
                && hex_value(line.subrange(n - 5, n - 3)) == byte && line[n - 3] == ','
                && line[n - 2] == 'X' && line[n - 1] == ')'
            &&& instruction.addressing_mode is IndirectY ==> line[n - 7] == '(' && line[n - 6] == '$'
                && hex_value(line.subrange(n - 5, n - 3)) == byte && line[n - 3] == ')'
                && line[n - 2] == ',' && line[n - 1] == 'Y'
            &&& instruction.addressing_mode is Relative ==> line[n - 5] == '$' && hex_value(
                line.subrange(n - 4, n),
            ) == (location + 2) % 65536 + (if offset >= 128 { offset - 256 } else { offset })
        }),
{
    let line = disassembly_line(m, location, instruction);
    let op = operand_text(m, location, instruction.addressing_mode);
    lemma_line_ends_with_operand(m, location, instruction);
    let n = line.len() as int;
    let k = op.len() as int;
    lemma_hex4_reads_back(location);
    let byte = m[location + 1] as int;
    let word = m[location + 1] + 256 * m[location + 2];
    lemma_hex2_reads_back(byte);
    lemma_hex4_reads_back(word);
    assert(forall|i: int| 0 <= i < k ==> line[n - k + i] == #[trigger] op[i]) by {
        assert forall|i: int| 0 <= i < k implies line[n - k + i] == #[trigger] op[i] by {
            assert(line.subrange(n - k, n)[i] == op[i]);
        }
    }
    match instruction.addressing_mode {
        AddressingMode::Immediate => {
            assert(line.subrange(n - 2, n) =~= hex2(byte));
        },
        AddressingMode::ZeroPage => {
            assert(line.subrange(n - 2, n) =~= hex2(byte));
        },
        AddressingMode::ZeroPageX => {
            assert(line.subrange(n - 4, n - 2) =~= hex2(byte));
        },
        AddressingMode::Absolute => {
            assert(line.subrange(n - 4, n) =~= hex4(word));
        },
        AddressingMode::AbsoluteX => {
            assert(line.subrange(n - 6, n - 2) =~= hex4(word));
        },
        AddressingMode::AbsoluteY => {
            assert(line.subrange(n - 6, n - 2) =~= hex4(word));
        },
        AddressingMode::IndirectX => {
            assert(line.subrange(n - 5, n - 3) =~= hex2(byte));
        },
        AddressingMode::IndirectY => {
            assert(line.subrange(n - 5, n - 3) =~= hex2(byte));
        },
        AddressingMode::Relative => {
            let target = disassembled_target(m, location);
            lemma_hex4_reads_back(target);
            assert(line.subrange(n - 4, n) =~= hex4(target));
        },
        _ => {},
    }
}

proof fn lemma_bytes_text_layout(m: Seq<u8>, location: int, n: nat)
    ensures
        bytes_text(m, location, n).len() == 3 * n,
        forall|i: int|
            0 <= i < n ==> #[trigger] bytes_text(m, location, n).subrange(3 * i + 1, 3 * i + 3)
                == hex2(m[location + i] as int) && bytes_text(m, location, n)[3 * i] == ' ',
    decreases n,
{
    if n > 0 {
        let k = (n - 1) as nat;
        lemma_bytes_text_layout(m, location, k);
        let prev = bytes_text(m, location, k);
        let text = bytes_text(m, location, n);
        assert forall|i: int| 0 <= i < n implies #[trigger] text.subrange(3 * i + 1, 3 * i + 3)
            == hex2(m[location + i] as int) && text[3 * i] == ' ' by {
            if i < k {
                assert(text.subrange(3 * i + 1, 3 * i + 3) =~= prev.subrange(3 * i + 1, 3 * i + 3));
            } else {
                assert(text.subrange(3 * i + 1, 3 * i + 3) =~= hex2(m[location + k] as int));
            }
        }
    }
}

/// The bytes field of a disassembly line shows the instruction's bytes, each
/// after a space, from column 5 on; the mnemonic follows after the padded
/// bytes field and a space (column 14, or 15 for a three-byte instruction).
pub proof fn lemma_disassembly_bytes_and_mnemonic(m: Seq<u8>, location: int, instruction: Instruction, i: int)
    requires
        0 <= location,
        1 <= instruction.bytes <= 3,
        location + instruction.bytes <= m.len(),
        0 <= i < instruction.bytes,
        instruction.mnemonic@.len() <= 4,
    ensures
        ({
            let line = disassembly_line(m, location, instruction);
            let mnemonic_start: int = if instruction.bytes == 3 { 15 } else { 14 };
            &&& line[5 + 3 * i] == ' '
            &&& hex_value(line.subrange(6 + 3 * i, 8 + 3 * i)) == m[location + i]
            &&& line[mnemonic_start - 1] == ' '
            &&& line.subrange(mnemonic_start, mnemonic_start + instruction.mnemonic@.len())
                == instruction.mnemonic@
        }),
{
    let line = disassembly_line(m, location, instruction);
    let n = instruction.bytes as nat;
    lemma_bytes_text_layout(m, location, n);
    let bytes = bytes_text(m, location, n);
    let padded = pad_right(bytes, 8);
    let mnemonic = pad_right(instruction.mnemonic@, 4);
    let op = operand_text(m, location, instruction.addressing_mode);
    assert(line =~= hex4(location) + seq![' '] + padded + seq![' '] + mnemonic + seq![' '] + op);
    lemma_hex2_reads_back(m[location + i] as int);
    assert(line.subrange(6 + 3 * i, 8 + 3 * i) =~= bytes.subrange(3 * i + 1, 3 * i + 3));
    assert(line[5 + 3 * i] == bytes[3 * i]);
    let mnemonic_start: int = if instruction.bytes == 3 { 15 } else { 14 };
    assert(padded.len() == mnemonic_start - 6);
    assert(line.subrange(mnemonic_start, mnemonic_start + instruction.mnemonic@.len())
        =~= instruction.mnemonic@);
}

/// A disassembly line starts with the address and ends with the operand text.
proof fn lemma_line_ends_with_operand(m: Seq<u8>, location: int, instruction: Instruction)
    ensures
        ({
            let line = disassembly_line(m, location, instruction);
            let op = operand_text(m, location, instruction.addressing_mode);
            &&& line.len() >= op.len() + 5
            &&& line.subrange(line.len() - op.len(), line.len() as int) == op
            &&& line.take(4) == hex4(location)
            &&& line[4] == ' '
        }),
{
    let line = disassembly_line(m, location, instruction);
    let op = operand_text(m, location, instruction.addressing_mode);
    let prefix = hex4(location) + seq![' '] + pad_right(
        bytes_text(m, location, instruction.bytes as nat),
        8,
    ) + seq![' '] + pad_right(instruction.mnemonic@, 4) + seq![' '];
    assert(line =~= prefix + op);
    assert(line.subrange(line.len() - op.len(), line.len() as int) =~= op);
    assert(line.take(4) =~= hex4(location));
}

} // verus!
