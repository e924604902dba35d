use vstd::prelude::*;
use vstd::string::StringExecFns;
use crate::cpu::text::{push_char, push_hex2, push_hex4, hex2, hex4, hex_value, lemma_hex2_reads_back, lemma_hex4_reads_back};

verus! {

/// An inclusive range of addresses, `start..=end`, that writes through
/// `set_8_bit_value` and `set_16_bit_value` leave alone.
pub struct RomRegion {
    pub start: usize,
    pub end: usize,
}

/// The 64 KiB address space and the read-only regions in it.
pub struct Memory {
    pub contents: [u8; 65536],
    pub rom_regions: Vec<RomRegion>,
}

/// True when some region of `regions` holds `address`.
pub open spec fn in_rom(regions: Seq<RomRegion>, address: int) -> bool {
    exists|i: int| 0 <= i < regions.len() && #[trigger] regions[i].start <= address <= regions[i].end
}

/// The little-endian 16-bit value at `address` and `address + 1`.
pub open spec fn word_at(contents: Seq<u8>, address: int) -> int {
    contents[address] + 256 * contents[address + 1]
}

/// The memory after writing `value` at `address`, unless that address is read-only.
pub open spec fn byte_written(contents: Seq<u8>, regions: Seq<RomRegion>, address: int, value: u8) -> Seq<u8> {
    if in_rom(regions, address) {
        contents
    } else {
        contents.update(address, value)
    }
}

/// The memory after writing `value` little-endian at `address` and
/// `address + 1`, unless `address` is read-only (only `address` is checked).
pub open spec fn word_written(contents: Seq<u8>, regions: Seq<RomRegion>, address: int, value: u16) -> Seq<u8> {
    if in_rom(regions, address) {
        contents
    } else {
        contents.update(address, (value % 256) as u8).update(address + 1, (value / 256) as u8)
    }
}

/// How a byte is shown in the text column of a dump: control characters
/// (below 0x20) and bytes that are not ASCII (0x80 and above) show as `.`.
pub open spec fn printable(b: u8) -> char {
    if 32 <= b < 128 {
        b as char
    } else {
        '.'
    }
}

/// The hexadecimal column of a dump row: the first `n` bytes from `address`,
/// each as two digits and a space.
pub open spec fn hex_column(contents: Seq<u8>, address: int, n: nat) -> Seq<char>
    decreases n,
{
    if n == 0 {
        Seq::empty()
    } else {
        hex_column(contents, address, (n - 1) as nat) + hex2(contents[address + n - 1] as int)
            + seq![' ']
    }
}

/// The text column of a dump row: the first `n` bytes from `address`, each as
/// one character.
pub open spec fn text_column(contents: Seq<u8>, address: int, n: nat) -> Seq<char>
    decreases n,
{
    if n == 0 {
        Seq::empty()
    } else {
        text_column(contents, address, (n - 1) as nat).push(printable(contents[address + n - 1]))
    }
}

/// One row of a dump: the address, the 16 bytes from it in hexadecimal, the
/// same bytes as text, CR LF.
pub open spec fn dump_row(contents: Seq<u8>, address: int) -> Seq<char> {
    hex4(address) + seq![' '] + hex_column(contents, address, 16) + text_column(
        contents,
        address,
        16,
    ) + seq!['\r', '\n']
}

/// The first `n` rows of a dump that starts at `base`.
pub open spec fn dump_rows(contents: Seq<u8>, base: int, n: nat) -> Seq<char>
    decreases n,
{
    if n == 0 {
        Seq::empty()
    } else {
        dump_rows(contents, base, (n - 1) as nat) + dump_row(contents, base + 16 * (n - 1))
    }
}

/// The dump of one 256-byte page: 16 rows of 16 bytes.
pub open spec fn page_hexdump(contents: Seq<u8>, page: u8) -> Seq<char> {
    dump_rows(contents, page * 256, 16)
}

/// Writing a byte: outside the read-only regions the address then holds the
/// value; inside them memory is unchanged; every other address keeps its value.
pub proof fn lemma_byte_write_then_read(contents: Seq<u8>, regions: Seq<RomRegion>, address: int, value: u8)
    requires
        0 <= address < contents.len(),
    ensures
        byte_written(contents, regions, address, value).len() == contents.len(),
        !in_rom(regions, address) ==> byte_written(contents, regions, address, value)[address] == value,
        in_rom(regions, address) ==> byte_written(contents, regions, address, value) == contents,
        forall|other: int|
            0 <= other < contents.len() && other != address ==> #[trigger] byte_written(
                contents,
                regions,
                address,
                value,
            )[other] == contents[other],
{
}

/// Writing a 16-bit value: outside the read-only regions it then reads back
/// from the same address; inside them memory is unchanged; every address other
/// than the two written keeps its value.
pub proof fn lemma_word_write_then_read(contents: Seq<u8>, regions: Seq<RomRegion>, address: int, value: u16)
    requires
        0 <= address,
        address + 1 < contents.len(),
    ensures
        word_written(contents, regions, address, value).len() == contents.len(),
        !in_rom(regions, address) ==> word_at(word_written(contents, regions, address, value), address)
            == value,
        in_rom(regions, address) ==> word_written(contents, regions, address, value) == contents,
        forall|other: int|
            0 <= other < contents.len() && other != address && other != address + 1
                ==> #[trigger] word_written(contents, regions, address, value)[other] == contents[other],
{
}

/// 16-bit values are stored little-endian: a write outside the read-only
/// regions puts the low byte at `address` and the high byte at `address + 1`,
/// and a read combines them the same way.
pub proof fn lemma_word_is_little_endian(contents: Seq<u8>, regions: Seq<RomRegion>, address: int, value: u16)
    requires
        0 <= address,
        address + 1 < contents.len(),
        !in_rom(regions, address),
    ensures
        word_written(contents, regions, address, value)[address] == value % 256,
        word_written(contents, regions, address, value)[address + 1] == value / 256,
        word_at(contents, address) == contents[address] + 256 * contents[address + 1],
{
}

/// A read-only region covers its start and its end and nothing outside them.
pub proof fn lemma_rom_region_is_inclusive(start: usize, end: usize, address: int)
    ensures
        in_rom(seq![RomRegion { start, end }], address) == (start <= address <= end),
{
    let regions = seq![RomRegion { start, end }];
    if start <= address <= end {
        assert(regions[0].start <= address <= regions[0].end);
    }
}

/// Loading bytes and reading them back: the address `location + i` holds the
/// byte `i` of the buffer, and addresses outside the loaded range keep their values.
pub proof fn lemma_load_then_read(contents: Seq<u8>, buffer: Seq<u8>, location: int)
    requires
        contents.len() == 65536,
        0 <= location,
        location + buffer.len() <= 65536,
    ensures
        forall|i: int|
            0 <= i < buffer.len() ==> #[trigger] (contents.take(location) + buffer + contents.skip(
                location + buffer.len(),
            ))[location + i] == buffer[i],
        forall|k: int|
            0 <= k < 65536 && !(location <= k < location + buffer.len()) ==> #[trigger] (contents.take(
                location,
            ) + buffer + contents.skip(location + buffer.len()))[k] == contents[k],
{
}

proof fn lemma_hex_column_layout(contents: Seq<u8>, address: int, n: nat)
    requires
        0 <= address,
        address + n <= contents.len(),
    ensures
        hex_column(contents, address, n).len() == 3 * n,
        forall|j: int|
            0 <= j < n ==> #[trigger] hex_column(contents, address, n).subrange(3 * j, 3 * j + 2)
                == hex2(contents[address + j] as int) && hex_column(contents, address, n)[3 * j + 2]
                == ' ',
    decreases n,
{
    if n > 0 {
        let m = (n - 1) as nat;
        lemma_hex_column_layout(contents, address, m);
        let prev = hex_column(contents, address, m);
        let col = hex_column(contents, address, n);
        assert(col == prev + hex2(contents[address + m] as int) + seq![' ']);
        assert forall|j: int| 0 <= j < n implies #[trigger] col.subrange(3 * j, 3 * j + 2) == hex2(
            contents[address + j] as int,
        ) && col[3 * j + 2] == ' ' by {
            if j < m {
                assert(col.subrange(3 * j, 3 * j + 2) =~= prev.subrange(3 * j, 3 * j + 2));
            } else {
                assert(col.subrange(3 * j, 3 * j + 2) =~= hex2(contents[address + m] as int));
            }
        }
    }
}

proof fn lemma_text_column_layout(contents: Seq<u8>, address: int, n: nat)
    requires
        0 <= address,
        address + n <= contents.len(),
    ensures
        text_column(contents, address, n).len() == n,
        forall|j: int|
            0 <= j < n ==> #[trigger] text_column(contents, address, n)[j] == printable(
                contents[address + j],
            ),
    decreases n,
{
    if n > 0 {
        lemma_text_column_layout(contents, address, (n - 1) as nat);
    }
}

proof fn lemma_dump_rows_layout(contents: Seq<u8>, base: int, n: nat)
    ensures
        dump_rows(contents, base, n).len() == 71 * n,
        forall|r: int|
            0 <= r < n ==> #[trigger] dump_rows(contents, base, n).subrange(71 * r, 71 * r + 71)
                == dump_row(contents, base + 16 * r),
    decreases n,
{
    if n > 0 {
        let m = (n - 1) as nat;
        lemma_dump_rows_layout(contents, base, m);
        let prev = dump_rows(contents, base, m);
        let rows = dump_rows(contents, base, n);
        let last = dump_row(contents, base + 16 * m);
        assert(hex4(base + 16 * m).len() == 4);
        assert(hex_column(contents, base + 16 * m, 16).len() == 48) by {
            lemma_hex_column_length(contents, base + 16 * m, 16);
        }
        assert(text_column(contents, base + 16 * m, 16).len() == 16) by {
            lemma_text_column_length(contents, base + 16 * m, 16);
        }
        assert(last.len() == 71);
        assert forall|r: int| 0 <= r < n implies #[trigger] rows.subrange(71 * r, 71 * r + 71)
            == dump_row(contents, base + 16 * r) by {
            if r < m {
                assert(rows.subrange(71 * r, 71 * r + 71) =~= prev.subrange(71 * r, 71 * r + 71));
            } else {
                assert(rows.subrange(71 * r, 71 * r + 71) =~= last);
            }
        }
    }
}

proof fn lemma_hex_column_length(contents: Seq<u8>, address: int, n: nat)
    ensures
        hex_column(contents, address, n).len() == 3 * n,
    decreases n,
{
    if n > 0 {
        lemma_hex_column_length(contents, address, (n - 1) as nat);
    }
}

proof fn lemma_text_column_length(contents: Seq<u8>, address: int, n: nat)
    ensures
        text_column(contents, address, n).len() == n,
    decreases n,
{
    if n > 0 {
        lemma_text_column_length(contents, address, (n - 1) as nat);
    }
}

proof fn lemma_dump_row_fields(contents: Seq<u8>, address: int, j: int)
    requires
        0 <= address,
        address + 16 <= contents.len(),
        address < 65536,
        0 <= j < 16,
    ensures
        ({
            let row = dump_row(contents, address);
            let b = contents[address + j] as int;
            &&& row.len() == 71
            &&& hex_value(row.subrange(0, 4)) == address
            &&& row[4] == ' '
            &&& hex_value(row.subrange(5 + 3 * j, 7 + 3 * j)) == b
            &&& row[7 + 3 * j] == ' '
            &&& row[53 + j] == printable(contents[address + j])
            &&& row[69] == '\r' && row[70] == '\n'
        }),
{
    let row = dump_row(contents, address);
    let b = contents[address + j] as int;
    lemma_hex_column_layout(contents, address, 16);
    lemma_text_column_layout(contents, address, 16);
    let hexes = hex_column(contents, address, 16);
    let texts = text_column(contents, address, 16);
    assert(row =~= hex4(address) + seq![' '] + hexes + texts + seq!['\r', '\n']);
    lemma_hex4_reads_back(address);
    lemma_hex2_reads_back(b);
    assert(row.subrange(0, 4) =~= hex4(address));
    assert(hexes.subrange(3 * j, 3 * j + 2) == hex2(b));
    assert(row.subrange(5 + 3 * j, 7 + 3 * j) =~= hexes.subrange(3 * j, 3 * j + 2));
    assert(row[7 + 3 * j] == hexes[3 * j + 2]);
    assert(row[53 + j] == texts[j]);
}

/// A page dump reads back: it has 16 rows of 71 characters; row `r` starts
/// with the address `page * 256 + 16 * r` in hexadecimal; column `j` of the
/// row shows the byte at that address plus `j` in hexadecimal, and the text
/// column shows the same byte as its own character when it is printable ASCII
/// (0x20 to 0x7F) and as `.` otherwise.
pub proof fn lemma_page_hexdump_fields(contents: Seq<u8>, page: u8, r: int, j: int)
    requires
        contents.len() == 65536,
        0 <= r < 16,
        0 <= j < 16,
    ensures
        ({
            let dump = page_hexdump(contents, page);
            let address = page * 256 + 16 * r;
            let b = contents[address + j] as int;
            let start = 71 * r;
            &&& dump.len() == 16 * 71
            &&& hex_value(dump.subrange(start, start + 4)) == address
            &&& dump[start + 4] == ' '
            &&& hex_value(dump.subrange(start + 5 + 3 * j, start + 7 + 3 * j)) == b
            &&& dump[start + 7 + 3 * j] == ' '
            &&& 32 <= b < 128 ==> dump[start + 53 + j] as int == b
            &&& !(32 <= b < 128) ==> dump[start + 53 + j] == '.'
            &&& dump[start + 69] == '\r' && dump[start + 70] == '\n'
        }),
{
    let dump = page_hexdump(contents, page);
    let address = page * 256 + 16 * r;
    let start = 71 * r;
    lemma_dump_rows_layout(contents, page * 256, 16);
    let row = dump_row(contents, address);
    assert(dump.subrange(start, start + 71) == row);
    lemma_dump_row_fields(contents, address, j);
    assert(dump.subrange(start, start + 4) =~= row.subrange(0, 4));
    assert(dump.subrange(start + 5 + 3 * j, start + 7 + 3 * j) =~= row.subrange(5 + 3 * j, 7 + 3 * j));
    assert(dump[start + 4] == row[4]);
    assert(dump[start + 7 + 3 * j] == row[7 + 3 * j]);
    assert(dump[start + 53 + j] == row[53 + j]);
    assert(dump[start + 69] == row[69]);
    assert(dump[start + 70] == row[70]);
}

proof fn lemma_word_from_bytes(lsb: u8, msb: u8)
    ensures
        ((msb as u16) << 8u16 | lsb as u16) as int == lsb + 256 * msb,
{
    assert(((msb as u16) << 8u16 | lsb as u16) == lsb + 256 * msb) by (bit_vector);
}

proof fn lemma_bytes_from_word(value: u16)
    ensures
        (value & 0x00ff) as int == value % 256,
        (value >> 8u16) as int == value / 256,
{
    assert((value & 0x00ff) == value % 256 && (value >> 8u16) == value / 256) by (bit_vector);
}

impl Memory {
    /// True when a read-only region holds `address`.
    pub open spec fn is_rom(&self, address: int) -> bool {
        in_rom(self.rom_regions@, address)
    }

    /// All-zero memory with no read-only region.
    pub fn new() -> (m: Memory)
        ensures
            m.contents@ == Seq::new(65536, |i: int| 0u8),
            m.rom_regions@.len() == 0,
    {
        let m = Memory { contents: [0x00u8; 65536], rom_regions: Vec::new() };
        assert(m.contents@ =~= Seq::new(65536, |i: int| 0u8));
        m
    }

    /// True when a read-only region holds `address` (`start <= address <= end`).
    pub fn is_in_rom_region(&mut self, address: usize) -> (result: bool)
        ensures
            result == old(self).is_rom(address as int),
            *final(self) == *old(self),
    {
        let mut i: usize = 0;
        while i < self.rom_regions.len()
            invariant
                i <= self.rom_regions@.len(),
                forall|j: int|
                    0 <= j < i ==> !(#[trigger] self.rom_regions@[j].start <= address
                        <= self.rom_regions@[j].end),
            decreases self.rom_regions@.len() - i,
        {
            let region = &self.rom_regions[i];
            if address >= region.start && address <= region.end {
                return true;
            }
            i = i + 1;
        }
        false
    }

    /// The byte at `address`.
    pub fn get_8_bit_value(&self, address: usize) -> (value: u8)
        requires
            address < 65536,
        ensures
            value == self.contents@[address as int],
    {
        self.contents[address]
    }

    /// Writes `value` at `address` unless a read-only region holds it.
    pub fn set_8_bit_value(&mut self, address: usize, value: u8)
        requires
            old(self).is_rom(address as int) || address < 65536,
        ensures
            final(self).contents@ == byte_written(
                old(self).contents@,
                old(self).rom_regions@,
                address as int,
                value,
            ),
            final(self).rom_regions == old(self).rom_regions,
    {
        if !self.is_in_rom_region(address) {
            self.contents[address] = value;
        }
    }

    /// The little-endian 16-bit value at `address` and `address + 1`.
    pub fn get_16_bit_value(&self, address: usize) -> (value: u16)
        requires
            address + 1 < 65536,
        ensures
            value as int == word_at(self.contents@, address as int),
    {
        let lsb = self.contents[address];
        let msb = self.contents[address + 1];
        proof {
            lemma_word_from_bytes(lsb, msb);
        }
        (msb as u16) << 8u16 | lsb as u16
    }

    /// Writes `value` little-endian at `address` and `address + 1`, unless a
    /// read-only region holds `address`.
    pub fn set_16_bit_value(&mut self, address: usize, value: u16)
        requires
            old(self).is_rom(address as int) || address + 1 < 65536,
        ensures
            final(self).contents@ == word_written(
                old(self).contents@,
                old(self).rom_regions@,
                address as int,
                value,
            ),
            final(self).rom_regions == old(self).rom_regions,
    {
        if !self.is_in_rom_region(address) {
            let lsb = value & 0x00ff;
            let msb = value >> 8u16;
            proof {
                lemma_bytes_from_word(value);
            }
            self.contents[address] = lsb as u8;
            self.contents[address + 1] = msb as u8;
        }
    }

    /// Copies `buffer` into memory from `location` on, ignoring read-only
    /// regions, and returns the number of bytes copied.
    pub fn load_bytes_into_memory(&mut self, buffer: &[u8], location: usize) -> (length: usize)
        requires
            location + buffer@.len() <= 65536,
        ensures
            length == buffer@.len(),
            final(self).contents@ == old(self).contents@.take(location as int) + buffer@
                + old(self).contents@.skip(location + buffer@.len()),
            final(self).rom_regions == old(self).rom_regions,
    {
        let mut address = location;
        let mut i: usize = 0;
        while i < buffer.len()
            invariant
                location + buffer@.len() <= 65536,
                i <= buffer@.len(),
                address == location + i,
                self.rom_regions == old(self).rom_regions,
                forall|k: int|
                    0 <= k < 65536 ==> #[trigger] self.contents@[k] == if location <= k < location
                        + i {
                        buffer@[k - location]
                    } else {
                        old(self).contents@[k]
                    },
            decreases buffer@.len() - i,
        {
            self.contents[address] = buffer[i];
            address = address + 1;
            i = i + 1;
        }
        assert(self.contents@ =~= old(self).contents@.take(location as int) + buffer@
            + old(self).contents@.skip(location + buffer@.len()));
        buffer.len()
    }

    /// A dump of the 256 bytes of page `page`: 16 rows, each with the row's
    /// address, its bytes in hexadecimal and the same bytes as text.
    pub fn create_page_hexdump(&self, page: u8) -> (dump: String)
        ensures
            dump@ == page_hexdump(self.contents@, page),
    {
        let ghost c = self.contents@;
        let mut result = String::new();
        let mut address: usize = (page as usize) * 256;
        let mut row: usize = 0;
        while row < 16
            invariant
                c == self.contents@,
                row <= 16,
                address == page * 256 + 16 * row,
                result@ == dump_rows(c, page * 256, row as nat),
            decreases 16 - row,
        {
            let row_start = address;
            let mut row_result = String::new();
            push_hex4(&mut row_result, address as u16);
            push_char(&mut row_result, ' ');
            let mut hex_result = String::new();
            let mut ascii_result = String::new();
            let mut col: usize = 0;
            while col < 16
                invariant
                    c == self.contents@,
                    col <= 16,
                    row < 16,
                    row_start == page * 256 + 16 * row,
                    address == row_start + col,
                    hex_result@ == hex_column(c, row_start as int, col as nat),
                    ascii_result@ == text_column(c, row_start as int, col as nat),
                decreases 16 - col,
            {
                let byte = self.contents[address];
                push_hex2(&mut hex_result, byte);
                push_char(&mut hex_result, ' ');
                if byte <= 31 {
                    push_char(&mut ascii_result, '.');
                } else if byte < 128 {
                    push_char(&mut ascii_result, byte as char);
                } else {
                    push_char(&mut ascii_result, '.');
                }
                address = address + 1;
                col = col + 1;
            }
            row_result.append(hex_result.as_str());
            row_result.append(ascii_result.as_str());
            result.append(row_result.as_str());
            push_char(&mut result, '\r');
            push_char(&mut result, '\n');
            assert(result@ =~= dump_rows(c, page * 256, (row + 1) as nat));
            row = row + 1;
        }
        result
    }
}

} // verus!
