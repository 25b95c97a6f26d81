//! A line pointer (item identifier): the 4-byte bit-packed slot descriptor
//! on a buffer page. Bits 0-14 hold the byte offset of the referenced
//! tuple, bits 15-16 the slot state, bits 17-31 the tuple's byte length.
//!
//! A line pointer can be "in use" without owning storage on the page: by
//! convention such a slot has length 0, whatever its state.
use vstd::prelude::*;
use vstd::bytes::{
    lemma_auto_spec_u32_to_from_le_bytes, spec_u32_from_le_bytes, spec_u32_to_le_bytes,
    u32_from_le_bytes, u32_to_le_bytes,
};

use crate::codec::{sp_size_mismatch, size_mismatch_error, ByteEncodeResult, ByteEncoded, ByteReader};

verus! {

/// The states a line pointer can be in.
#[derive(Debug, PartialEq, Eq, Clone, Copy, Structural)]
pub enum LpFlags {
    /// Available for immediate re-use; always has length 0.
    Unused,
    /// In use with storage; always has length greater than 0.
    Normal,
    /// A redirect: the offset field holds the slot index to follow instead
    /// of a byte offset; length is 0.
    Redirect,
    /// Dead; may or may not still have storage.
    Dead,
}

/// The state a two-bit field value names.
pub open spec fn sp_state_of(flags: u8) -> LpFlags {
    if flags == 0 {
        LpFlags::Unused
    } else if flags == 1 {
        LpFlags::Normal
    } else if flags == 2 {
        LpFlags::Redirect
    } else {
        LpFlags::Dead
    }
}

/// A line pointer over a 32-bit backing store; the accessors below mask
/// and shift the three packed fields out of it.
#[derive(Debug, PartialEq, Eq, PartialOrd, Ord, Clone, Copy, Structural)]
pub struct ItemIdData {
    /// The raw packed bits, in the byte order they appear on disk
    /// (little-endian).
    pub lp: u32,
}

impl ItemIdData {
    /// Byte offset from the start of the page to the referenced tuple
    /// (bits 0-14).
    pub open spec fn sp_off(&self) -> u16 {
        (self.lp & 0x7fff) as u16
    }

    /// State of the line pointer (bits 15-16).
    pub open spec fn sp_flags(&self) -> u8 {
        ((self.lp >> 15) & 3) as u8
    }

    /// Byte length of the referenced tuple (bits 17-31).
    pub open spec fn sp_len(&self) -> u16 {
        ((self.lp >> 17) & 0x7fff) as u16
    }

    /// The state as an `LpFlags` value.
    pub open spec fn sp_state(&self) -> LpFlags {
        sp_state_of(self.sp_flags())
    }

    /// Whether the slot is in the Normal state.
    pub open spec fn sp_is_normal(&self) -> bool {
        self.sp_flags() == 1
    }

    pub fn lp_off(&self) -> (r: u16)
        ensures
            r == self.sp_off(),
    {
        let ghost x = self.lp;
        proof {
            assert(x & 0x7fff <= 0x7fff) by (bit_vector);
        }
        (self.lp & 0x7fff) as u16
    }

    pub fn lp_flags(&self) -> (r: u8)
        ensures
            r == self.sp_flags(),
    {
        let ghost x = self.lp;
        proof {
            assert((x >> 15) & 3 <= 3) by (bit_vector);
        }
        ((self.lp >> 15) & 3) as u8
    }

    pub fn lp_len(&self) -> (r: u16)
        ensures
            r == self.sp_len(),
    {
        let ghost x = self.lp;
        proof {
            assert((x >> 17) & 0x7fff <= 0x7fff) by (bit_vector);
        }
        ((self.lp >> 17) & 0x7fff) as u16
    }

    /// Stores a new tuple offset, leaving state and length untouched.
    pub fn set_lp_off(&mut self, off: u16)
        requires
            off <= 0x7fff,
        ensures
            final(self).sp_off() == off,
            final(self).sp_flags() == old(self).sp_flags(),
            final(self).sp_len() == old(self).sp_len(),
    {
        let ghost o = self.lp;
        self.lp = (self.lp & !0x7fffu32) | (off as u32);
        proof {
            let n = self.lp;
            assert((n & 0x7fff) as u16 == off && (n >> 15) & 3 == (o >> 15) & 3 && (n >> 17)
                & 0x7fff == (o >> 17) & 0x7fff) by (bit_vector)
                requires
                    n == (o & !0x7fffu32) | (off as u32),
                    off <= 0x7fff,
            ;
        }
    }

    /// Stores a new slot state, leaving offset and length untouched.
    pub fn set_lp_flags(&mut self, flags: u8)
        requires
            flags <= 3,
        ensures
            final(self).sp_flags() == flags,
            final(self).sp_off() == old(self).sp_off(),
            final(self).sp_len() == old(self).sp_len(),
    {
        let ghost o = self.lp;
        self.lp = (self.lp & 0xfffe_7fffu32) | ((flags as u32) << 15);
        proof {
            let n = self.lp;
            assert(((n >> 15) & 3) as u8 == flags && n & 0x7fff == o & 0x7fff && (n >> 17)
                & 0x7fff == (o >> 17) & 0x7fff) by (bit_vector)
                requires
                    n == (o & 0xfffe_7fffu32) | ((flags as u32) << 15),
                    flags <= 3,
            ;
        }
    }

    /// Stores a new tuple length, leaving offset and state untouched.
    pub fn set_lp_len(&mut self, len: u16)
        requires
            len <= 0x7fff,
        ensures
            final(self).sp_len() == len,
            final(self).sp_off() == old(self).sp_off(),
            final(self).sp_flags() == old(self).sp_flags(),
    {
        let ghost o = self.lp;
        self.lp = (self.lp & 0x0001_ffffu32) | ((len as u32) << 17);
        proof {
            let n = self.lp;
            assert(((n >> 17) & 0x7fff) as u16 == len && n & 0x7fff == o & 0x7fff && (n >> 15) & 3
                == (o >> 15) & 3) by (bit_vector)
                requires
                    n == (o & 0x0001_ffffu32) | ((len as u32) << 17),
                    len <= 0x7fff,
            ;
        }
    }

    /// The slot state as an enum value.
    pub fn flags(&self) -> (r: LpFlags)
        ensures
            r == self.sp_state(),
    {
        match self.lp_flags() {
            0 => LpFlags::Unused,
            1 => LpFlags::Normal,
            2 => LpFlags::Redirect,
            _ => LpFlags::Dead,
        }
    }

    /// Whether the slot is in the Normal state and so references a stored
    /// tuple.
    pub fn is_normal(&self) -> (r: bool)
        ensures
            r == self.sp_is_normal(),
    {
        self.lp_flags() == 1
    }
}

impl Default for ItemIdData {
    /// An all-zero line pointer: offset 0, state Unused, length 0.
    fn default() -> (r: Self)
        ensures
            r.lp == 0,
    {
        ItemIdData { lp: 0 }
    }
}

/// The line pointer a four-byte image holds.
pub open spec fn sp_decode_item_id(b: Seq<u8>) -> ItemIdData
    recommends
        b.len() == 4,
{
    ItemIdData { lp: spec_u32_from_le_bytes(b) }
}

impl ByteEncoded for ItemIdData {
    open spec fn sp_size() -> u16 {
        4
    }

    open spec fn sp_encode(&self) -> Seq<u8> {
        spec_u32_to_le_bytes(self.lp)
    }

    open spec fn sp_valid(b: Seq<u8>) -> bool {
        b.len() == 4
    }

    open spec fn sp_is_decode(b: Seq<u8>, v: &Self) -> bool {
        *v == sp_decode_item_id(b)
    }

    open spec fn sp_err(b: Seq<u8>) -> crate::codec::ByteEncodeError {
        sp_size_mismatch(4, b.len() as int)
    }

    proof fn lemma_fixed_total(b: Seq<u8>) {
    }

    proof fn lemma_encode_len(&self) {
        lemma_auto_spec_u32_to_from_le_bytes();
        assert(spec_u32_to_le_bytes(self.lp).len() == 4);
    }

    fn byte_size() -> (r: u16) {
        4
    }

    fn encode(&self) -> (r: Vec<u8>) {
        u32_to_le_bytes(self.lp)
    }

    fn decode(bytes: &[u8]) -> (r: ByteEncodeResult<Self>) {
        if bytes.len() == 4 {
            Ok(ItemIdData { lp: u32_from_le_bytes(bytes) })
        } else {
            Err(size_mismatch_error(4, bytes.len()))
        }
    }

    fn encode_into_writer(&self, writer: &mut Vec<u8>) {
        let mut piece = u32_to_le_bytes(self.lp);
        writer.append(&mut piece);
    }

    fn decode_from_reader(reader: &mut ByteReader<'_>) -> (r: ByteEncodeResult<Self>) {
        let buf = reader.read_exact(4)?;
        Ok(ItemIdData { lp: u32_from_le_bytes(buf) })
    }
}

/// Round trip: the byte image of any line pointer decodes back to it, so
/// the packed offset, state and length all survive encode then decode.
pub proof fn lemma_round_trip_item_id(v: ItemIdData)
    ensures
        ItemIdData::sp_valid(v.sp_encode()),
        ItemIdData::sp_is_decode(v.sp_encode(), &v),
{
    lemma_auto_spec_u32_to_from_le_bytes();
    assert(spec_u32_to_le_bytes(v.lp).len() == 4);
}

} // verus!
