use vstd::prelude::*;
use crate::cpu::text::push_char;

verus! {

/// The processor status register `P`, one field per flag.
///
/// Bit 5 of the register has no flag behind it: it reads as 1.
#[derive(Copy, Clone)]
pub struct StatusFlags {
    pub carry_flag: bool,
    pub zero_flag: bool,
    pub interrupt_disable_flag: bool,
    pub decimal_flag: bool,
    pub break_flag: bool,
    pub overflow_flag: bool,
    pub negative_flag: bool,
}

/// Every flag clear.
pub open spec fn cleared_flags() -> StatusFlags {
    StatusFlags {
        carry_flag: false,
        zero_flag: false,
        interrupt_disable_flag: false,
        decimal_flag: false,
        break_flag: false,
        overflow_flag: false,
        negative_flag: false,
    }
}

/// True when bit `mask` is set in `byte`.
pub open spec fn has_bit(byte: u8, mask: u8) -> bool {
    byte & mask != 0
}

/// The byte that the flags stand for: each set flag contributes its bit, and
/// the unused bit 5 is always set.
pub open spec fn flags_byte(f: StatusFlags) -> u8 {
    (if f.carry_flag { 0x01u8 } else { 0u8 })
        | (if f.zero_flag { 0x02u8 } else { 0u8 })
        | (if f.interrupt_disable_flag { 0x04u8 } else { 0u8 })
        | (if f.decimal_flag { 0x08u8 } else { 0u8 })
        | (if f.break_flag { 0x10u8 } else { 0u8 })
        | 0x20u8
        | (if f.overflow_flag { 0x40u8 } else { 0u8 })
        | (if f.negative_flag { 0x80u8 } else { 0u8 })
}

/// The flags that a byte stands for: each flag is its bit.
pub open spec fn flags_of_byte(byte: u8) -> StatusFlags {
    StatusFlags {
        carry_flag: has_bit(byte, 0x01),
        zero_flag: has_bit(byte, 0x02),
        interrupt_disable_flag: has_bit(byte, 0x04),
        decimal_flag: has_bit(byte, 0x08),
        break_flag: has_bit(byte, 0x10),
        overflow_flag: has_bit(byte, 0x40),
        negative_flag: has_bit(byte, 0x80),
    }
}

/// The character that shows one flag: `'1'` when set, `'0'` when clear.
pub open spec fn flag_char(b: bool) -> char {
    if b { '1' } else { '0' }
}

/// The flags as the eight characters `NV1BDIZC`, most significant bit first.
pub open spec fn flags_text(f: StatusFlags) -> Seq<char> {
    seq![
        flag_char(f.negative_flag),
        flag_char(f.overflow_flag),
        '1',
        flag_char(f.break_flag),
        flag_char(f.decimal_flag),
        flag_char(f.interrupt_disable_flag),
        flag_char(f.zero_flag),
        flag_char(f.carry_flag),
    ]
}

/// The character that shows one flag as a letter: `letter` when set, `'-'` when clear.
pub open spec fn flag_letter(b: bool, letter: char) -> char {
    if b { letter } else { '-' }
}

/// The flags as seven letters, `NO1DIZC` order: a set flag shows its letter, a
/// clear one `'-'`; the third character, bit 5, is always `'1'`; the break
/// flag is not shown.
pub open spec fn flags_letters(f: StatusFlags) -> Seq<char> {
    seq![
        flag_letter(f.negative_flag, 'N'),
        flag_letter(f.overflow_flag, 'O'),
        '1',
        flag_letter(f.decimal_flag, 'D'),
        flag_letter(f.interrupt_disable_flag, 'I'),
        flag_letter(f.zero_flag, 'Z'),
        flag_letter(f.carry_flag, 'C'),
    ]
}

impl StatusFlags {
    pub const CARRY_FLAG: u8 = 0x01;
    pub const ZERO_FLAG: u8 = 0x02;
    pub const INTERRUPT_FLAG: u8 = 0x04;
    pub const DECIMAL_FLAG: u8 = 0x08;
    pub const BREAK_FLAG: u8 = 0x10;
    pub const UNUSED_FLAG: u8 = 0x20;
    pub const OVERFLOW_FLAG: u8 = 0x40;
    pub const NEGATIVE_FLAG: u8 = 0x80;

    /// All flags clear.
    pub fn new() -> (f: StatusFlags)
        ensures
            f == cleared_flags(),
    {
        StatusFlags {
            carry_flag: false,
            zero_flag: false,
            interrupt_disable_flag: false,
            decimal_flag: false,
            break_flag: false,
            overflow_flag: false,
            negative_flag: false,
        }
    }

    /// The flags packed into one byte, bit 5 set.
    pub fn to_byte(&self) -> (result: u8)
        ensures
            result == flags_byte(*self),
    {
        let c: u8 = if self.carry_flag { StatusFlags::CARRY_FLAG } else { 0 };
        let z: u8 = if self.zero_flag { StatusFlags::ZERO_FLAG } else { 0 };
        let i: u8 = if self.interrupt_disable_flag { StatusFlags::INTERRUPT_FLAG } else { 0 };
        let d: u8 = if self.decimal_flag { StatusFlags::DECIMAL_FLAG } else { 0 };
        let b: u8 = if self.break_flag { StatusFlags::BREAK_FLAG } else { 0 };
        let v: u8 = if self.overflow_flag { StatusFlags::OVERFLOW_FLAG } else { 0 };
        let n: u8 = if self.negative_flag { StatusFlags::NEGATIVE_FLAG } else { 0 };
        let result: u8 = c | z | i | d | StatusFlags::UNUSED_FLAG | b | v | n;
        proof {
            assert(c | z | i | d | 0x20u8 | b | v | n == c | z | i | d | b | 0x20u8 | v | n)
                by (bit_vector);
        }
        result
    }

    /// The flags as text, `NV1BDIZC` order, `'1'` for a set flag and `'0'`
    /// for a clear one; the third character, bit 5, is always `'1'`.
    pub fn to_string(&self) -> (s: String)
        ensures
            s@ == flags_text(*self),
    {
        let mut s = String::new();
        push_char(&mut s, if self.negative_flag { '1' } else { '0' });
        push_char(&mut s, if self.overflow_flag { '1' } else { '0' });
        push_char(&mut s, '1');
        push_char(&mut s, if self.break_flag { '1' } else { '0' });
        push_char(&mut s, if self.decimal_flag { '1' } else { '0' });
        push_char(&mut s, if self.interrupt_disable_flag { '1' } else { '0' });
        push_char(&mut s, if self.zero_flag { '1' } else { '0' });
        push_char(&mut s, if self.carry_flag { '1' } else { '0' });
        assert(s@ =~= flags_text(*self));
        s
    }

    /// The flags as letters, `NO1DIZC` order, `'-'` for a clear flag.
    pub fn to_flag_letters(&self) -> (s: String)
        ensures
            s@ == flags_letters(*self),
    {
        let mut s = String::new();
        push_char(&mut s, if self.negative_flag { 'N' } else { '-' });
        push_char(&mut s, if self.overflow_flag { 'O' } else { '-' });
        push_char(&mut s, '1');
        push_char(&mut s, if self.decimal_flag { 'D' } else { '-' });
        push_char(&mut s, if self.interrupt_disable_flag { 'I' } else { '-' });
        push_char(&mut s, if self.zero_flag { 'Z' } else { '-' });
        push_char(&mut s, if self.carry_flag { 'C' } else { '-' });
        assert(s@ =~= flags_letters(*self));
        s
    }

    /// Sets every flag from its bit in `byte`; bit 5 is ignored.
    pub fn from_byte(&mut self, byte: u8)
        ensures
            *final(self) == flags_of_byte(byte),
    {
        self.carry_flag = (byte & StatusFlags::CARRY_FLAG) != 0;
        self.zero_flag = (byte & StatusFlags::ZERO_FLAG) != 0;
        self.interrupt_disable_flag = (byte & StatusFlags::INTERRUPT_FLAG) != 0;
        self.decimal_flag = (byte & StatusFlags::DECIMAL_FLAG) != 0;
        self.break_flag = (byte & StatusFlags::BREAK_FLAG) != 0;
        self.overflow_flag = (byte & StatusFlags::OVERFLOW_FLAG) != 0;
        self.negative_flag = (byte & StatusFlags::NEGATIVE_FLAG) != 0;
    }
}

/// Packing the flags into a byte and reading them back gives the same flags.
pub proof fn lemma_from_byte_of_to_byte(f: StatusFlags)
    ensures
        flags_of_byte(flags_byte(f)) == f,
{
    let cf = f.carry_flag;
    let zf = f.zero_flag;
    let if_ = f.interrupt_disable_flag;
    let df = f.decimal_flag;
    let bf = f.break_flag;
    let vf = f.overflow_flag;
    let nf = f.negative_flag;
    let x = flags_byte(f);
    assert(x == (if cf { 0x01u8 } else { 0u8 }) | (if zf { 0x02u8 } else { 0u8 }) | (if if_ {
        0x04u8
    } else {
        0u8
    }) | (if df { 0x08u8 } else { 0u8 }) | (if bf { 0x10u8 } else { 0u8 }) | 0x20u8 | (if vf {
        0x40u8
    } else {
        0u8
    }) | (if nf { 0x80u8 } else { 0u8 }));
    assert({
        &&& (x & 0x01 != 0) == cf
        &&& (x & 0x02 != 0) == zf
        &&& (x & 0x04 != 0) == if_
        &&& (x & 0x08 != 0) == df
        &&& (x & 0x10 != 0) == bf
        &&& (x & 0x40 != 0) == vf
        &&& (x & 0x80 != 0) == nf
    }) by (bit_vector)
        requires
            x == (if cf { 0x01u8 } else { 0u8 }) | (if zf { 0x02u8 } else { 0u8 }) | (if if_ {
                0x04u8
            } else {
                0u8
            }) | (if df { 0x08u8 } else { 0u8 }) | (if bf { 0x10u8 } else { 0u8 }) | 0x20u8
                | (if vf { 0x40u8 } else { 0u8 }) | (if nf { 0x80u8 } else { 0u8 }),
    ;
}

/// Reading the flags from a byte and packing them again gives the byte back,
/// with the unused bit 5 set.
pub proof fn lemma_to_byte_of_from_byte(byte: u8)
    ensures
        flags_byte(flags_of_byte(byte)) == byte | 0x20,
{
    let x = byte;
    assert((if x & 0x01 != 0 { 0x01u8 } else { 0u8 }) | (if x & 0x02 != 0 { 0x02u8 } else { 0u8 })
        | (if x & 0x04 != 0 { 0x04u8 } else { 0u8 }) | (if x & 0x08 != 0 { 0x08u8 } else { 0u8 })
        | (if x & 0x10 != 0 { 0x10u8 } else { 0u8 }) | 0x20u8 | (if x & 0x40 != 0 {
        0x40u8
    } else {
        0u8
    }) | (if x & 0x80 != 0 { 0x80u8 } else { 0u8 }) == x | 0x20) by (bit_vector);
}

/// Bit 5 of the packed byte is always set.
pub proof fn lemma_to_byte_sets_unused_bit(f: StatusFlags)
    ensures
        flags_byte(f) & 0x20 == 0x20,
{
    let cf = f.carry_flag;
    let zf = f.zero_flag;
    let if_ = f.interrupt_disable_flag;
    let df = f.decimal_flag;
    let bf = f.break_flag;
    let vf = f.overflow_flag;
    let nf = f.negative_flag;
    assert(((if cf { 0x01u8 } else { 0u8 }) | (if zf { 0x02u8 } else { 0u8 }) | (if if_ {
        0x04u8
    } else {
        0u8
    }) | (if df { 0x08u8 } else { 0u8 }) | (if bf { 0x10u8 } else { 0u8 }) | 0x20u8 | (if vf {
        0x40u8
    } else {
        0u8
    }) | (if nf { 0x80u8 } else { 0u8 })) & 0x20 == 0x20) by (bit_vector);
}

/// The text of the flags is the packed byte in binary, bit 7 first:
/// `to_string` shows exactly the bits that `to_byte` packs.
pub proof fn lemma_text_is_byte_in_binary(f: StatusFlags)
    ensures
        ({
            let b = flags_byte(f);
            flags_text(f) == seq![
                flag_char(has_bit(b, 0x80)),
                flag_char(has_bit(b, 0x40)),
                flag_char(has_bit(b, 0x20)),
                flag_char(has_bit(b, 0x10)),
                flag_char(has_bit(b, 0x08)),
                flag_char(has_bit(b, 0x04)),
                flag_char(has_bit(b, 0x02)),
                flag_char(has_bit(b, 0x01)),
            ]
        }),
{
    lemma_from_byte_of_to_byte(f);
    lemma_to_byte_sets_unused_bit(f);
    let b = flags_byte(f);
    assert(has_bit(b, 0x20));
}

/// The packed byte as a sum of bit values: carry 1, zero 2, interrupt
/// disable 4, decimal 8, break 16, the unused bit 32, overflow 64, negative 128.
pub proof fn lemma_to_byte_bit_values(f: StatusFlags)
    ensures
        flags_byte(f) as int == (if f.carry_flag { 1int } else { 0 }) + (if f.zero_flag { 2int } else { 0 })
            + (if f.interrupt_disable_flag { 4int } else { 0 }) + (if f.decimal_flag { 8int } else { 0 })
            + (if f.break_flag { 16int } else { 0 }) + 32 + (if f.overflow_flag { 64int } else { 0 })
            + (if f.negative_flag { 128int } else { 0 }),
{
    let cf = f.carry_flag;
    let zf = f.zero_flag;
    let if_ = f.interrupt_disable_flag;
    let df = f.decimal_flag;
    let bf = f.break_flag;
    let vf = f.overflow_flag;
    let nf = f.negative_flag;
    assert(((if cf { 0x01u8 } else { 0u8 }) | (if zf { 0x02u8 } else { 0u8 }) | (if if_ {
        0x04u8
    } else {
        0u8
    }) | (if df { 0x08u8 } else { 0u8 }) | (if bf { 0x10u8 } else { 0u8 }) | 0x20u8 | (if vf {
        0x40u8
    } else {
        0u8
    }) | (if nf { 0x80u8 } else { 0u8 })) == (if cf { 1u8 } else { 0u8 }) + (if zf { 2u8 } else { 0u8 })
        + (if if_ { 4u8 } else { 0u8 }) + (if df { 8u8 } else { 0u8 }) + (if bf { 16u8 } else { 0u8 })
        + 32u8 + (if vf { 64u8 } else { 0u8 }) + (if nf { 128u8 } else { 0u8 })) by (bit_vector);
}

/// The letter form and the bit form of the flags agree: each of N, O, D, I,
/// Z, C shows its letter exactly where the bit form shows `'1'`, and `'-'`
/// where it shows `'0'`; both show `'1'` for bit 5. The break flag has no letter.
pub proof fn lemma_letters_agree_with_bits(f: StatusFlags)
    ensures
        ({
            let letters = flags_letters(f);
            let bits = flags_text(f);
            &&& letters.len() == 7
            &&& (letters[0] == 'N') == (bits[0] == '1') && (letters[0] == '-') == (bits[0] == '0')
            &&& (letters[1] == 'O') == (bits[1] == '1') && (letters[1] == '-') == (bits[1] == '0')
            &&& letters[2] == '1' && bits[2] == '1'
            &&& (letters[3] == 'D') == (bits[4] == '1') && (letters[3] == '-') == (bits[4] == '0')
            &&& (letters[4] == 'I') == (bits[5] == '1') && (letters[4] == '-') == (bits[5] == '0')
            &&& (letters[5] == 'Z') == (bits[6] == '1') && (letters[5] == '-') == (bits[6] == '0')
            &&& (letters[6] == 'C') == (bits[7] == '1') && (letters[6] == '-') == (bits[7] == '0')
        }),
{
}

} // verus!
