use vstd::prelude::*;

verus! {

/// Appends one character to a `String` (`String::push`).
///
/// Trusted: std documents that `push` appends the given character to the end
/// of the string; the contract says that the view grows by exactly that
/// character.
#[verifier::external_body]
pub(crate) fn push_char(s: &mut String, c: char)
    ensures
        final(s)@ == old(s)@.push(c),
{
    s.push(c);
}

/// The upper-case hexadecimal digit for `n` (`0`-`9`, `A`-`F`).
pub open spec fn hex_digit(n: int) -> char {
    if n < 10 {
        (48 + n) as char
    } else {
        (55 + n) as char
    }
}

/// Two upper-case hexadecimal digits, as `{:02X}` writes a byte.
pub open spec fn hex2(b: int) -> Seq<char> {
    seq![hex_digit((b / 16) % 16), hex_digit(b % 16)]
}

/// Four upper-case hexadecimal digits, as `{:04X}` writes a value below 0x10000.
pub open spec fn hex4(w: int) -> Seq<char> {
    seq![hex_digit((w / 4096) % 16), hex_digit((w / 256) % 16), hex_digit((w / 16) % 16), hex_digit(w % 16)]
}

/// `count` spaces.
pub open spec fn spaces(count: int) -> Seq<char> {
    Seq::new(if count > 0 { count as nat } else { 0 }, |i: int| ' ')
}

/// `s` padded on the right with spaces to at least `width` characters, as `{:<width}` does.
pub open spec fn pad_right(s: Seq<char>, width: int) -> Seq<char> {
    s + spaces(width - s.len())
}

/// True for the characters `0`-`9` and `A`-`F`.
pub open spec fn is_hex_digit(c: char) -> bool {
    (48 <= c as int <= 57) || (65 <= c as int <= 70)
}

/// The value of one hexadecimal digit character.
pub open spec fn digit_value(c: char) -> int {
    if c as int <= 57 {
        c as int - 48
    } else {
        c as int - 55
    }
}

/// The number that a string of hexadecimal digits stands for, most significant first.
pub open spec fn hex_value(s: Seq<char>) -> int
    decreases s.len(),
{
    if s.len() == 0 {
        0
    } else {
        16 * hex_value(s.drop_last()) + digit_value(s.last())
    }
}

proof fn lemma_digit_reads_back(n: int)
    requires
        0 <= n < 16,
    ensures
        is_hex_digit(hex_digit(n)),
        digit_value(hex_digit(n)) == n,
{
}

/// Two digits read back as the byte they show.
pub proof fn lemma_hex2_reads_back(b: int)
    requires
        0 <= b < 256,
    ensures
        hex2(b).len() == 2,
        is_hex_digit(hex2(b)[0]) && is_hex_digit(hex2(b)[1]),
        hex_value(hex2(b)) == b,
{
    lemma_digit_reads_back((b / 16) % 16);
    lemma_digit_reads_back(b % 16);
    let h = hex2(b);
    assert(h.drop_last().drop_last() =~= Seq::<char>::empty());
    assert(h.drop_last() =~= seq![h[0]]);
    reveal_with_fuel(hex_value, 3);
}

/// Four digits read back as the 16-bit value they show.
pub proof fn lemma_hex4_reads_back(w: int)
    requires
        0 <= w < 65536,
    ensures
        hex4(w).len() == 4,
        forall|i: int| 0 <= i < 4 ==> is_hex_digit(#[trigger] hex4(w)[i]),
        hex_value(hex4(w)) == w,
{
    lemma_digit_reads_back((w / 4096) % 16);
    lemma_digit_reads_back((w / 256) % 16);
    lemma_digit_reads_back((w / 16) % 16);
    lemma_digit_reads_back(w % 16);
    let h = hex4(w);
    assert(h.drop_last().drop_last().drop_last().drop_last() =~= Seq::<char>::empty());
    assert(h.drop_last().drop_last().drop_last() =~= seq![h[0]]);
    assert(h.drop_last().drop_last() =~= seq![h[0], h[1]]);
    assert(h.drop_last() =~= seq![h[0], h[1], h[2]]);
    reveal_with_fuel(hex_value, 5);
}

/// The digit character for `n < 16`.
pub(crate) fn hex_digit_char(n: u8) -> (c: char)
    requires
        n < 16,
    ensures
        c == hex_digit(n as int),
{
    if n < 10 {
        (48u8 + n) as char
    } else {
        (55u8 + n) as char
    }
}

/// Appends `{:02X}` of `b`.
pub(crate) fn push_hex2(s: &mut String, b: u8)
    ensures
        final(s)@ == old(s)@ + hex2(b as int),
{
    let hi = hex_digit_char(b / 16);
    push_char(s, hi);
    let lo = hex_digit_char(b % 16);
    push_char(s, lo);
    assert(final(s)@ =~= old(s)@ + hex2(b as int));
}

/// Appends `{:04X}` of `w`.
pub(crate) fn push_hex4(s: &mut String, w: u16)
    ensures
        final(s)@ == old(s)@ + hex4(w as int),
{
    let d0 = hex_digit_char(((w / 4096) % 16) as u8);
    push_char(s, d0);
    let d1 = hex_digit_char(((w / 256) % 16) as u8);
    push_char(s, d1);
    let d2 = hex_digit_char(((w / 16) % 16) as u8);
    push_char(s, d2);
    let d3 = hex_digit_char((w % 16) as u8);
    push_char(s, d3);
    assert(final(s)@ =~= old(s)@ + hex4(w as int));
}

/// Appends `count` spaces.
pub(crate) fn push_spaces(s: &mut String, count: usize)
    ensures
        final(s)@ == old(s)@ + spaces(count as int),
{
    let ghost start = s@;
    let mut i: usize = 0;
    while i < count
        invariant
            i <= count,
            s@ == start + spaces(i as int),
        decreases count - i,
    {
        push_char(s, ' ');
        i = i + 1;
        assert(s@ =~= start + spaces(i as int));
    }
    assert(s@ =~= old(s)@ + spaces(count as int));
}

} // verus!
