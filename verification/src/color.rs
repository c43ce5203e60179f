//! Color to escape sequence: four bits per channel and a table of 4096
//! ready-made sequences.

use vstd::prelude::*;
use crate::text::{decimal, push_decimal};

verus! {

/// How many quantized colors there are: sixteen levels on each of three channels.
pub const COLOR_COUNT: usize = 4096;

/// The level of a channel value: its upper four bits.
pub open spec fn quantized(v: int) -> int {
    v / 16
}

/// The channel value that stands for a level: sixteen levels spread evenly
/// over 0..=255.
pub open spec fn dequantized(level: int) -> int {
    level * 17
}

/// The index of a color in the table: red level, green level, blue level,
/// four bits each, red highest.
pub open spec fn color_index_of(r: int, g: int, b: int) -> int {
    quantized(r) * 256 + quantized(g) * 16 + quantized(b)
}

/// The red, green and blue levels that an index is made of.
pub open spec fn index_levels(index: int) -> (int, int, int) {
    ((index / 256) % 16, (index / 16) % 16, index % 16)
}

/// The sequence that sets the foreground to a 24-bit color:
/// ESC `[38;2;` red `;` green `;` blue `m`, the numbers in decimal.
pub open spec fn escape_of(r: int, g: int, b: int) -> Seq<char> {
    seq!['\x1b', '[', '3', '8', ';', '2', ';'] + decimal(r) + seq![';'] + decimal(g) + seq![';']
        + decimal(b) + seq!['m']
}

/// The sequence that the table holds at `index`: that of the representative
/// color of the index's three levels.
pub open spec fn table_entry(index: int) -> Seq<char> {
    let l = index_levels(index);
    escape_of(dequantized(l.0), dequantized(l.1), dequantized(l.2))
}

/// The level of a channel value.
pub fn quantize(v: u8) -> (level: u8)
    ensures
        level == quantized(v as int),
        level == v >> 4,
        level < 16,
{
    assert(v >> 4 == v / 16) by (bit_vector);
    v >> 4
}

/// The representative channel value of a level.
pub fn dequantize(level: u8) -> (v: u8)
    requires
        level < 16,
    ensures
        v == dequantized(level as int),
{
    level * 17
}

/// The table index of a color.
pub fn color_index(r: u8, g: u8, b: u8) -> (index: usize)
    ensures
        index == color_index_of(r as int, g as int, b as int),
        index == (((r >> 4) as usize) << 8) | (((g >> 4) as usize) << 4) | ((b >> 4) as usize),
        index < COLOR_COUNT,
        index_levels(index as int) == (
            quantized(r as int),
            quantized(g as int),
            quantized(b as int),
        ),
{
    let rq: usize = quantize(r) as usize;
    let gq: usize = quantize(g) as usize;
    let bq: usize = quantize(b) as usize;
    assert((rq << 8) | (gq << 4) | bq == rq * 256 + gq * 16 + bq) by (bit_vector)
        requires
            rq < 16,
            gq < 16,
            bq < 16,
    ;
    (rq << 8) | (gq << 4) | bq
}

/// The escape sequence for a 24-bit foreground color.
pub fn escape_sequence(r: u8, g: u8, b: u8) -> (s: String)
    ensures
        s@ == escape_of(r as int, g as int, b as int),
{
    let mut s = String::new();
    s.push('\x1b');
    s.push('[');
    s.push('3');
    s.push('8');
    s.push(';');
    s.push('2');
    s.push(';');
    push_decimal(&mut s, r);
    s.push(';');
    push_decimal(&mut s, g);
    s.push(';');
    push_decimal(&mut s, b);
    s.push('m');
    assert(s@ =~= escape_of(r as int, g as int, b as int));
    s
}

/// The table of escape sequences, one for each quantized color.
pub struct ColorLookupTable {
    pub entries: Vec<String>,
}

impl ColorLookupTable {
    /// The table holds, at every index, the sequence for that index.
    pub open spec fn wf(&self) -> bool {
        &&& self.entries@.len() == COLOR_COUNT
        &&& forall|i: int| 0 <= i < COLOR_COUNT ==> (#[trigger] self.entries@[i])@ == table_entry(i)
    }

    /// Builds the table.
    pub fn new() -> (table: ColorLookupTable)
        ensures
            table.wf(),
    {
        let mut entries: Vec<String> = Vec::new();
        let mut i: usize = 0;
        while i < COLOR_COUNT
            invariant
                i <= COLOR_COUNT,
                entries@.len() == i,
                forall|k: int| 0 <= k < i ==> (#[trigger] entries@[k])@ == table_entry(k),
            decreases COLOR_COUNT - i,
        {
            let r: u8 = dequantize(((i / 256) % 16) as u8);
            let g: u8 = dequantize(((i / 16) % 16) as u8);
            let b: u8 = dequantize((i % 16) as u8);
            entries.push(escape_sequence(r, g, b));
            i += 1;
        }
        ColorLookupTable { entries }
    }

    /// The sequence at `index`.
    pub fn lookup(&self, index: usize) -> (s: &String)
        requires
            self.wf(),
            index < COLOR_COUNT,
        ensures
            s@ == table_entry(index as int),
    {
        &self.entries[index]
    }

    /// The sequence for a color: that of the representative color of its levels.
    pub fn escape_for(&self, r: u8, g: u8, b: u8) -> (s: &String)
        requires
            self.wf(),
        ensures
            s@ == table_entry(color_index_of(r as int, g as int, b as int)),
            s@ == escape_of(
                dequantized(quantized(r as int)),
                dequantized(quantized(g as int)),
                dequantized(quantized(b as int)),
            ),
    {
        self.lookup(color_index(r, g, b))
    }
}

/// Quantizing the representative value of a level gives the level back, so
/// a representative value passes through quantizing and dequantizing unchanged.
pub proof fn lemma_representative_fixed(level: int)
    requires
        0 <= level < 16,
    ensures
        0 <= dequantized(level) <= 255,
        quantized(dequantized(level)) == level,
        dequantized(quantized(dequantized(level))) == dequantized(level),
        dequantized(quantized(level * 17)) == level * 17,
{
}

} // verus!
