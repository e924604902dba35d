use vstd::prelude::*;
use vstd::string::StringExecFns;
use crate::cpu::status_flags::{StatusFlags, cleared_flags, flags_byte, flags_letters, flags_text};
use crate::cpu::text::{push_char, push_hex2, push_hex4, hex2, hex4, hex_value, lemma_hex2_reads_back, lemma_hex4_reads_back};

verus! {

/// The 6502 register file.
pub struct Registers {
    pub a: u8,
    pub x: u8,
    pub y: u8,
    pub p: StatusFlags,
    pub sp: u8,
    pub pc: u16,
}

/// The second line of the register display: `PC A X Y SP P` in hexadecimal
/// and the flags as bits, ending in CR LF.
pub open spec fn registers_line(r: Registers) -> Seq<char> {
    hex4(r.pc as int) + seq![' '] + hex2(r.a as int) + seq![' '] + hex2(r.x as int) + seq![' ']
        + hex2(r.y as int) + seq![' '] + hex2(r.sp as int) + seq![' '] + hex2(
        flags_byte(r.p) as int,
    ) + seq![' '] + flags_text(r.p) + seq!['\r', '\n']
}

/// The register display one register per line: `A`, `X`, `Y`, `P` (the
/// packed byte and the flag letters), `SP` and `PC`, each labelled, lines
/// separated by CR LF.
pub open spec fn register_list(r: Registers) -> Seq<char> {
    seq!['A', ':', ' '] + hex2(r.a as int) + seq!['\r', '\n'] + seq!['X', ':', ' '] + hex2(
        r.x as int,
    ) + seq!['\r', '\n'] + seq!['Y', ':', ' '] + hex2(r.y as int) + seq!['\r', '\n'] + seq![
        'P',
        ':',
        ' ',
    ] + hex2(flags_byte(r.p) as int) + seq![' '] + flags_letters(r.p) + seq!['\r', '\n'] + seq![
        'S',
        'P',
        ':',
        ' ',
    ] + hex2(r.sp as int) + seq!['\r', '\n'] + seq!['P', 'C', ':', ' '] + hex4(r.pc as int)
}

/// The value line of the register display reads back: columns 0-3 are PC,
/// then A, X, Y, SP and the packed flags in two digits each, separated by
/// spaces, then the eight flag bits, then CR LF.
pub proof fn lemma_registers_line_fields(r: Registers)
    ensures
        ({
            let line = registers_line(r);
            &&& line.len() == 30
            &&& hex_value(line.subrange(0, 4)) == r.pc
            &&& hex_value(line.subrange(5, 7)) == r.a
            &&& hex_value(line.subrange(8, 10)) == r.x
            &&& hex_value(line.subrange(11, 13)) == r.y
            &&& hex_value(line.subrange(14, 16)) == r.sp
            &&& hex_value(line.subrange(17, 19)) == flags_byte(r.p)
            &&& line.subrange(20, 28) == flags_text(r.p)
            &&& line[4] == ' ' && line[7] == ' ' && line[10] == ' ' && line[13] == ' ' && line[16]
                == ' ' && line[19] == ' '
            &&& line[28] == '\r' && line[29] == '\n'
        }),
{
    let line = registers_line(r);
    lemma_hex4_reads_back(r.pc as int);
    lemma_hex2_reads_back(r.a as int);
    lemma_hex2_reads_back(r.x as int);
    lemma_hex2_reads_back(r.y as int);
    lemma_hex2_reads_back(r.sp as int);
    lemma_hex2_reads_back(flags_byte(r.p) as int);
    assert(line.subrange(0, 4) =~= hex4(r.pc as int));
    assert(line.subrange(5, 7) =~= hex2(r.a as int));
    assert(line.subrange(8, 10) =~= hex2(r.x as int));
    assert(line.subrange(11, 13) =~= hex2(r.y as int));
    assert(line.subrange(14, 16) =~= hex2(r.sp as int));
    assert(line.subrange(17, 19) =~= hex2(flags_byte(r.p) as int));
    assert(line.subrange(20, 28) =~= flags_text(r.p));
}

/// The one-register-per-line display reads back: each line is a label and
/// the register in hexadecimal, the `P` line adding the flag letters.
pub proof fn lemma_register_list_fields(r: Registers)
    ensures
        ({
            let text = register_list(r);
            &&& text.len() == 52
            &&& text.subrange(0, 3) == seq!['A', ':', ' '] && hex_value(text.subrange(3, 5)) == r.a
            &&& text.subrange(7, 10) == seq!['X', ':', ' '] && hex_value(text.subrange(10, 12)) == r.x
            &&& text.subrange(14, 17) == seq!['Y', ':', ' '] && hex_value(text.subrange(17, 19)) == r.y
            &&& text.subrange(21, 24) == seq!['P', ':', ' '] && hex_value(text.subrange(24, 26))
                == flags_byte(r.p) && text.subrange(27, 34) == flags_letters(r.p)
            &&& text.subrange(36, 40) == seq!['S', 'P', ':', ' '] && hex_value(text.subrange(40, 42))
                == r.sp
            &&& text.subrange(44, 48) == seq!['P', 'C', ':', ' '] && hex_value(text.subrange(48, 52))
                == r.pc
        }),
{
    let text = register_list(r);
    lemma_hex4_reads_back(r.pc as int);
    lemma_hex2_reads_back(r.a as int);
    lemma_hex2_reads_back(r.x as int);
    lemma_hex2_reads_back(r.y as int);
    lemma_hex2_reads_back(r.sp as int);
    lemma_hex2_reads_back(flags_byte(r.p) as int);
    assert(text.subrange(0, 3) =~= seq!['A', ':', ' ']);
    assert(text.subrange(3, 5) =~= hex2(r.a as int));
    assert(text.subrange(7, 10) =~= seq!['X', ':', ' ']);
    assert(text.subrange(10, 12) =~= hex2(r.x as int));
    assert(text.subrange(14, 17) =~= seq!['Y', ':', ' ']);
    assert(text.subrange(17, 19) =~= hex2(r.y as int));
    assert(text.subrange(21, 24) =~= seq!['P', ':', ' ']);
    assert(text.subrange(24, 26) =~= hex2(flags_byte(r.p) as int));
    assert(text.subrange(27, 34) =~= flags_letters(r.p));
    assert(text.subrange(36, 40) =~= seq!['S', 'P', ':', ' ']);
    assert(text.subrange(40, 42) =~= hex2(r.sp as int));
    assert(text.subrange(44, 48) =~= seq!['P', 'C', ':', ' ']);
    assert(text.subrange(48, 52) =~= hex4(r.pc as int));
}

impl Registers {
    /// Registers at power-on: all zero, flags clear, stack pointer 0xFF.
    pub fn new() -> (r: Registers)
        ensures
            r.a == 0,
            r.x == 0,
            r.y == 0,
            r.p == cleared_flags(),
            r.sp == 0xff,
            r.pc == 0,
    {
        Registers { a: 0, x: 0, y: 0, p: StatusFlags::new(), sp: 0xff, pc: 0 }
    }

    /// A display with one labelled register per line.
    pub fn to_register_list(&self) -> (s: String)
        ensures
            s@ == register_list(*self),
    {
        let mut s = String::new();
        push_char(&mut s, 'A');
        push_char(&mut s, ':');
        push_char(&mut s, ' ');
        push_hex2(&mut s, self.a);
        push_char(&mut s, '\r');
        push_char(&mut s, '\n');
        push_char(&mut s, 'X');
        push_char(&mut s, ':');
        push_char(&mut s, ' ');
        push_hex2(&mut s, self.x);
        push_char(&mut s, '\r');
        push_char(&mut s, '\n');
        push_char(&mut s, 'Y');
        push_char(&mut s, ':');
        push_char(&mut s, ' ');
        push_hex2(&mut s, self.y);
        push_char(&mut s, '\r');
        push_char(&mut s, '\n');
        push_char(&mut s, 'P');
        push_char(&mut s, ':');
        push_char(&mut s, ' ');
        let byte = self.p.to_byte();
        push_hex2(&mut s, byte);
        push_char(&mut s, ' ');
        let letters = self.p.to_flag_letters();
        s.append(letters.as_str());
        push_char(&mut s, '\r');
        push_char(&mut s, '\n');
        push_char(&mut s, 'S');
        push_char(&mut s, 'P');
        push_char(&mut s, ':');
        push_char(&mut s, ' ');
        push_hex2(&mut s, self.sp);
        push_char(&mut s, '\r');
        push_char(&mut s, '\n');
        push_char(&mut s, 'P');
        push_char(&mut s, 'C');
        push_char(&mut s, ':');
        push_char(&mut s, ' ');
        push_hex4(&mut s, self.pc);
        assert(s@ =~= register_list(*self));
        s
    }

    /// A two-line display: a header naming the registers and the flag bits,
    /// then the register values.
    pub fn to_string(&self) -> (s: String)
        ensures
            s@ == "PC   A  X  Y  SP P  NV-BDIZC\r\n"@ + registers_line(*self),
    {
        let mut s = String::from_str("PC   A  X  Y  SP P  NV-BDIZC\r\n");
        let ghost header = s@;
        push_hex4(&mut s, self.pc);
        push_char(&mut s, ' ');
        push_hex2(&mut s, self.a);
        push_char(&mut s, ' ');
        push_hex2(&mut s, self.x);
        push_char(&mut s, ' ');
        push_hex2(&mut s, self.y);
        push_char(&mut s, ' ');
        push_hex2(&mut s, self.sp);
        push_char(&mut s, ' ');
        let byte = self.p.to_byte();
        push_hex2(&mut s, byte);
        push_char(&mut s, ' ');
        let flags = self.p.to_string();
        s.append(flags.as_str());
        push_char(&mut s, '\r');
        push_char(&mut s, '\n');
        assert(s@ =~= header + registers_line(*self));
        s
    }
}

} // verus!
