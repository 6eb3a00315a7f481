//! The bit-packed block position: one 64-bit word holding a 26-bit x,
//! a 26-bit y and a 12-bit z, each signed and sign-extended on read.

use vstd::prelude::*;

use crate::cursor::Cursor;
use crate::error::FormatError;
use crate::types::numbers::{be64, be64_val, read_u64, write_u64};

verus! {

/// A block position; x and y span 26 bits each, z the remaining 12.
#[derive(Debug, Clone, Copy, PartialEq, Eq, Structural, Hash)]
pub struct Position(pub i32, pub i32, pub i16);

/// The low 26 bits of x as stored in the packed word.
pub open spec fn field26(v: i32) -> u64 {
    (v as u32 as u64) & 0x3ff_ffff
}

/// The low 12 bits of z as stored in the packed word.
pub open spec fn field12(v: i16) -> u64 {
    (v as u16 as u64) & 0xfff
}

/// The packed word: x in bits 0-25, y in bits 26-51, z in bits 52-63.
pub open spec fn position_word(p: Position) -> u64 {
    field26(p.0) | (field26(p.1) << 26) | (field12(p.2) << 52)
}

/// The wire form: the packed word as eight big-endian bytes.
pub open spec fn position_enc(p: Position) -> Seq<u8> {
    be64(position_word(p))
}

/// Sign extension of a 26-bit field already masked to its width.
pub open spec fn extend26(b: u64) -> i32 {
    if b & 0x200_0000 != 0 {
        ((b | 0xffff_ffff_fc00_0000u64) as i64) as i32
    } else {
        (b as i64) as i32
    }
}

/// Sign extension of a 12-bit field already masked to its width.
pub open spec fn extend12(b: u64) -> i16 {
    if b & 0x800 != 0 {
        ((b | 0xffff_ffff_ffff_f000u64) as i64) as i16
    } else {
        (b as i64) as i16
    }
}

/// The position unpacked from a word.
pub open spec fn position_from_word(w: u64) -> Position {
    Position(extend26(w & 0x3ff_ffff), extend26((w >> 26) & 0x3ff_ffff), extend12((w >> 52) & 0xfff))
}

/// Unpacking a word and packing the result reproduces the word: the three
/// fields partition all 64 bits.
pub proof fn lemma_word_repack(w: u64)
    ensures
        position_word(position_from_word(w)) == w,
{
    assert(((extend26(w & 0x3ff_ffff) as u32 as u64) & 0x3ff_ffff) | (((extend26(
        (w >> 26) & 0x3ff_ffff,
    ) as u32 as u64) & 0x3ff_ffff) << 26) | (((extend12((w >> 52) & 0xfff) as u16 as u64)
        & 0xfff) << 52) == w) by (bit_vector);
}

/// Round trip: a position whose coordinates fit their bit widths is
/// returned exactly by unpacking its own packed word.
pub proof fn lemma_position_round_trip(x: i32, y: i32, z: i16)
    requires
        -0x200_0000 <= x < 0x200_0000,
        -0x200_0000 <= y < 0x200_0000,
        -0x800 <= z < 0x800,
    ensures
        position_from_word(position_word(Position(x, y, z))) == Position(x, y, z),
{
    let w = position_word(Position(x, y, z));
    assert(extend26(w & 0x3ff_ffff) == x && extend26((w >> 26) & 0x3ff_ffff) == y && extend12(
        (w >> 52) & 0xfff,
    ) == z) by (bit_vector)
        requires
            -0x200_0000 <= x < 0x200_0000,
            -0x200_0000 <= y < 0x200_0000,
            -0x800 <= z < 0x800,
            w == ((x as u32 as u64) & 0x3ff_ffff) | (((y as u32 as u64) & 0x3ff_ffff) << 26) | ((
            (z as u16 as u64) & 0xfff) << 52),
    ;
}

/// The sign extension of the low `width` bits of `v`: those bits masked
/// out, with the top one of them replicated across the high bits.
pub open spec fn sign_extend_spec(v: u64, width: u32) -> i64 {
    let mask: u64 = ((1u64 << (width as u64)) - 1) as u64;
    let sign_bit: u64 = 1u64 << (((width as u64) - 1) as u64);
    if (v & mask) & sign_bit != 0 {
        ((v & mask) | !mask) as i64
    } else {
        (v & mask) as i64
    }
}

/// Replicates bit `width - 1` of `v` across the high bits of the result.
pub fn sign_extend(v: u64, width: u32) -> (r: i64)
    requires
        1 <= width <= 63,
    ensures
        r == sign_extend_spec(v, width),
        width == 26 ==> r == extend26(v & 0x3ff_ffff) as i64,
        width == 12 ==> r == extend12(v & 0xfff) as i64,
{
    proof {
        assert(width <= 63 ==> 1u64 << (width as u64) >= 1) by (bit_vector);
        assert(sign_extend_spec(v, 26) == extend26(v & 0x3ff_ffff) as i64) by (bit_vector);
        assert(sign_extend_spec(v, 12) == extend12(v & 0xfff) as i64) by (bit_vector);
    }
    let sign_bit: u64 = 1u64 << ((width - 1) as u64);
    let mask: u64 = (1u64 << (width as u64)) - 1;
    let vm: u64 = v & mask;
    if (vm & sign_bit) != 0 {
        (vm | !mask) as i64
    } else {
        vm as i64
    }
}

impl Position {
    /// Reads the eight-byte packed word and unpacks the coordinates.
    pub fn read(cur: &mut Cursor) -> (r: Result<Position, FormatError>)
        ensures
            r matches Ok(p) ==> old(cur)@.len() >= 8 && p == position_from_word(
                be64_val(old(cur)@),
            ) && position_enc(p) == old(cur)@.subrange(0, 8) && final(cur)@ == old(
                cur,
            )@.subrange(8, old(cur)@.len() as int),
            r is Ok <==> old(cur)@.len() >= 8,
            r is Err ==> r == Err::<Position, FormatError>(FormatError::Underrun) && final(cur)@
                == old(cur)@,
    {
        let word = match read_u64(cur) {
            Ok(w) => w,
            Err(e) => {
                return Err(e);
            },
        };
        let xb: u64 = word & 0x3ff_ffff;
        let yb: u64 = (word >> 26) & 0x3ff_ffff;
        let zb: u64 = (word >> 52) & 0xfff;
        let x: i32 = if xb & 0x200_0000 != 0 {
            ((xb | 0xffff_ffff_fc00_0000u64) as i64) as i32
        } else {
            (xb as i64) as i32
        };
        let y: i32 = if yb & 0x200_0000 != 0 {
            ((yb | 0xffff_ffff_fc00_0000u64) as i64) as i32
        } else {
            (yb as i64) as i32
        };
        let z: i16 = if zb & 0x800 != 0 {
            ((zb | 0xffff_ffff_ffff_f000u64) as i64) as i16
        } else {
            (zb as i64) as i16
        };
        let p = Position(x, y, z);
        proof {
            lemma_word_repack(word);
        }
        Ok(p)
    }

    /// Packs the coordinates into one word and appends its eight bytes.
    pub fn write(self, out: &mut Vec<u8>)
        ensures
            final(out)@ == old(out)@ + position_enc(self),
    {
        let x_bits: u64 = (self.0 as u32 as u64) & 0x3ff_ffff;
        let y_bits: u64 = (self.1 as u32 as u64) & 0x3ff_ffff;
        let z_bits: u64 = (self.2 as u16 as u64) & 0xfff;
        write_u64(x_bits | (y_bits << 26) | (z_bits << 52), out);
    }
}

} // verus!
