//! Values that take more than one atom: strings, four characters to an
//! atom, and timestamps, 64 bits in two atoms.

use crate::atom::{byte_bits, string_blocks, Atom, STRING};
use vstd::prelude::*;

verus! {

/// The four bytes of a cell, lowest first.
pub open spec fn le_bytes(cell: u32) -> Seq<u8> {
    seq![
        (cell & 0xFF) as u8,
        ((cell >> 8) & 0xFF) as u8,
        ((cell >> 16) & 0xFF) as u8,
        ((cell >> 24) & 0xFF) as u8,
    ]
}

/// The cell made of four bytes, lowest first.
pub open spec fn le_word(b0: u8, b1: u8, b2: u8, b3: u8) -> u32 {
    (b0 as u32) | ((b1 as u32) << 8) | ((b2 as u32) << 16) | ((b3 as u32) << 24)
}

proof fn lemma_le_word_bits(b0: u8, b1: u8, b2: u8, b3: u8)
    by (bit_vector)
    ensures
        ((b0 as u32) | ((b1 as u32) << 8) | ((b2 as u32) << 16) | ((b3 as u32) << 24)) & 0xFF
            == b0 as u32,
        (((b0 as u32) | ((b1 as u32) << 8) | ((b2 as u32) << 16) | ((b3 as u32) << 24)) >> 8)
            & 0xFF == b1 as u32,
        (((b0 as u32) | ((b1 as u32) << 8) | ((b2 as u32) << 16) | ((b3 as u32) << 24)) >> 16)
            & 0xFF == b2 as u32,
        (((b0 as u32) | ((b1 as u32) << 8) | ((b2 as u32) << 16) | ((b3 as u32) << 24)) >> 24)
            & 0xFF == b3 as u32,
        ((b0 as u32) | ((b1 as u32) << 8) | ((b2 as u32) << 16) | ((b3 as u32) << 24)) >> 24
            == b3 as u32,
{
}

/// Four bytes put into a cell come out of it again, in their places, and
/// the last of them is the cell's top byte.
pub proof fn lemma_le_word(b0: u8, b1: u8, b2: u8, b3: u8)
    ensures
        le_bytes(le_word(b0, b1, b2, b3)) == seq![b0, b1, b2, b3],
        (Atom { atom_: le_word(b0, b1, b2, b3) }).descriptor() == b3,
{
    lemma_le_word_bits(b0, b1, b2, b3);
}

/// The byte of `text` at `i`, and zero past its end.
pub open spec fn byte_or_zero(text: Seq<u8>, i: int) -> u8 {
    if 0 <= i < text.len() {
        text[i]
    } else {
        0
    }
}

/// The atom that holds block `k` of `text`: its bytes `4k` to `4k + 3`,
/// lowest first, with zeros where the text has ended.
pub open spec fn string_block(text: Seq<u8>, k: int) -> Atom {
    Atom {
        atom_: le_word(
            byte_or_zero(text, 4 * k),
            byte_or_zero(text, 4 * k + 1),
            byte_or_zero(text, 4 * k + 2),
            byte_or_zero(text, 4 * k + 3),
        ),
    }
}

/// A string of at most 255 bytes as atoms: the header, then its blocks.
pub open spec fn string_atoms(text: Seq<u8>) -> Seq<Atom>
    recommends
        text.len() <= 255,
{
    Seq::new(
        1 + string_blocks(text.len() as u8) as nat,
        |i: int|
            if i == 0 {
                Atom {
                    atom_: byte_bits(STRING, 0, string_blocks(text.len() as u8), text.len() as u8),
                }
            } else {
                string_block(text, i - 1)
            },
    )
}

/// Packs a string into atoms: the header, then the bytes four to an atom.
/// A string header counts its characters in one byte, so a text of more
/// than 255 bytes cannot be packed, and only such a text is turned down.
pub fn pack_string(text: &[u8]) -> (atoms: Option<Vec<Atom>>)
    ensures
        atoms is Some <==> text@.len() <= 255,
        atoms matches Some(packed) ==> packed@ == string_atoms(text@),
{
    let n = text.len();
    if n > 255 {
        return None;
    }
    let header = Atom::String(n as u8);
    let blocks: usize = header.getAtomCount() as usize;
    let mut packed: Vec<Atom> = Vec::new();
    packed.push(header);
    let mut k: usize = 0;
    while k < blocks
        invariant
            n == text@.len(),
            n <= 255,
            blocks == string_blocks(n as u8),
            k <= blocks,
            packed@.len() == k + 1,
            forall|i: int| 0 <= i <= k ==> packed@[i] == #[trigger] string_atoms(text@)[i],
        decreases blocks - k,
    {
        let b0: u8 = if 4 * k < n { text[4 * k] } else { 0 };
        let b1: u8 = if 4 * k + 1 < n { text[4 * k + 1] } else { 0 };
        let b2: u8 = if 4 * k + 2 < n { text[4 * k + 2] } else { 0 };
        let b3: u8 = if 4 * k + 3 < n { text[4 * k + 3] } else { 0 };
        packed.push(
            Atom {
                atom_: (b0 as u32) | ((b1 as u32) << 8) | ((b2 as u32) << 16) | ((b3 as u32) << 24),
            },
        );
        k += 1;
    }
    Some(packed)
}

/// A 64-bit count read as unsigned: itself if it is not negative, else
/// 2^64 more.
pub open spec fn timestamp_bits(t: i64) -> int {
    if t >= 0 {
        t as int
    } else {
        t + 0x1_0000_0000_0000_0000
    }
}

/// The high 32 bits of a timestamp.
pub open spec fn timestamp_high(t: i64) -> u32 {
    (timestamp_bits(t) / 0x1_0000_0000) as u32
}

/// The low 32 bits of a timestamp.
pub open spec fn timestamp_low(t: i64) -> u32 {
    (timestamp_bits(t) % 0x1_0000_0000) as u32
}

/// The count whose 64 bits are `high` followed by `low`, that is
/// `(high << 32) | low` read as a signed number.
pub open spec fn timestamp_join(high: u32, low: u32) -> i64 {
    let bits = high * 0x1_0000_0000 + low;
    if bits >= 0x8000_0000_0000_0000 {
        (bits - 0x1_0000_0000_0000_0000) as i64
    } else {
        bits as i64
    }
}

/// A timestamp as atoms: the header, the high half, the low half.
pub open spec fn timestamp_atoms(t: i64) -> Seq<Atom> {
    seq![
        Atom { atom_: 0xC7000000 },
        Atom { atom_: timestamp_high(t) },
        Atom { atom_: timestamp_low(t) },
    ]
}

/// Splitting a count of microseconds into two atoms and joining them
/// again gives the count back, whatever it is.
pub proof fn lemma_timestamp_round_trip(t: i64)
    ensures
        timestamp_join(timestamp_high(t), timestamp_low(t)) == t,
{
}

/// Packs a count of microseconds into atoms: the timestamp header, then the
/// high and the low 32 bits of the count.
pub fn pack_timestamp(t: i64) -> (atoms: Vec<Atom>)
    ensures
        atoms@ == timestamp_atoms(t),
{
    let bits: u64 = if t >= 0 {
        t as u64
    } else {
        ((t - i64::MIN) as u64) + 0x8000_0000_0000_0000
    };
    let high: u32 = (bits / 0x1_0000_0000) as u32;
    let low: u32 = (bits % 0x1_0000_0000) as u32;
    let mut atoms: Vec<Atom> = Vec::new();
    atoms.push(Atom::Timestamp());
    atoms.push(Atom::new(high));
    atoms.push(Atom::new(low));
    atoms
}

/// Joins the two halves of a timestamp: `(high << 32) | low`, read as a
/// signed count of microseconds.
pub fn join_timestamp(high: u32, low: u32) -> (t: i64)
    ensures
        t == timestamp_join(high, low),
{
    let bits: u64 = (high as u64) * 0x1_0000_0000 + (low as u64);
    if bits >= 0x8000_0000_0000_0000 {
        ((bits - 0x8000_0000_0000_0000) as i64) + i64::MIN
    } else {
        bits as i64
    }
}

} // verus!
