//! The on-disk form of a block number: two 16-bit halves, kept halved for
//! alignment of the structures that embed it.
use vstd::prelude::*;
use vstd::bytes::{
    lemma_auto_spec_u16_to_from_le_bytes, spec_u16_from_le_bytes, spec_u16_to_le_bytes,
    u16_from_le_bytes, u16_to_le_bytes,
};
use vstd::slice::slice_subrange;

use crate::codec::{sp_size_mismatch, size_mismatch_error, ByteEncodeResult, ByteEncoded, ByteReader};

verus! {

/// A page's position within a logical table file, stored as two 16-bit
/// halves (high first in memory order; each half is little-endian on disk).
#[derive(Debug, PartialEq, Eq, PartialOrd, Ord, Clone, Copy, Structural)]
pub struct BlockIdData {
    /// High half of the block number.
    pub bi_hi: u16,
    /// Low half of the block number.
    pub bi_lo: u16,
}

/// The block identifier a four-byte image holds.
pub open spec fn sp_decode_block_id(b: Seq<u8>) -> BlockIdData
    recommends
        b.len() == 4,
{
    BlockIdData {
        bi_hi: spec_u16_from_le_bytes(b.subrange(0, 2)),
        bi_lo: spec_u16_from_le_bytes(b.subrange(2, 4)),
    }
}

impl ByteEncoded for BlockIdData {
    open spec fn sp_size() -> u16 {
        4
    }

    open spec fn sp_encode(&self) -> Seq<u8> {
        spec_u16_to_le_bytes(self.bi_hi) + spec_u16_to_le_bytes(self.bi_lo)
    }

    open spec fn sp_valid(b: Seq<u8>) -> bool {
        b.len() == 4
    }

    open spec fn sp_is_decode(b: Seq<u8>, v: &Self) -> bool {
        *v == sp_decode_block_id(b)
    }

    open spec fn sp_err(b: Seq<u8>) -> crate::codec::ByteEncodeError {
        sp_size_mismatch(4, b.len() as int)
    }

    proof fn lemma_fixed_total(b: Seq<u8>) {
    }

    proof fn lemma_encode_len(&self) {
        lemma_auto_spec_u16_to_from_le_bytes();
    }

    fn byte_size() -> (r: u16) {
        4
    }

    fn encode(&self) -> (r: Vec<u8>) {
        let mut buf = u16_to_le_bytes(self.bi_hi);
        let mut lo = u16_to_le_bytes(self.bi_lo);
        buf.append(&mut lo);
        buf
    }

    fn decode(bytes: &[u8]) -> (r: ByteEncodeResult<Self>) {
        if bytes.len() == 4 {
            let bi_hi = u16_from_le_bytes(slice_subrange(bytes, 0, 2));
            let bi_lo = u16_from_le_bytes(slice_subrange(bytes, 2, 4));
            Ok(BlockIdData { bi_hi, bi_lo })
        } else {
            Err(size_mismatch_error(4, bytes.len()))
        }
    }

    fn encode_into_writer(&self, writer: &mut Vec<u8>) {
        let mut piece = <BlockIdData as ByteEncoded>::encode(self);
        writer.append(&mut piece);
    }

    fn decode_from_reader(reader: &mut ByteReader<'_>) -> (r: ByteEncodeResult<Self>) {
        let buf = reader.read_exact(4)?;
        let bi_hi = u16_from_le_bytes(slice_subrange(buf, 0, 2));
        let bi_lo = u16_from_le_bytes(slice_subrange(buf, 2, 4));
        Ok(BlockIdData { bi_hi, bi_lo })
    }
}

/// Round trip: the byte image of any block identifier decodes back to it.
pub proof fn lemma_round_trip_block_id(v: BlockIdData)
    ensures
        BlockIdData::sp_valid(v.sp_encode()),
        BlockIdData::sp_is_decode(v.sp_encode(), &v),
{
    lemma_auto_spec_u16_to_from_le_bytes();
    let e = v.sp_encode();
    assert(e.subrange(0, 2) =~= spec_u16_to_le_bytes(v.bi_hi));
    assert(e.subrange(2, 4) =~= spec_u16_to_le_bytes(v.bi_lo));
}

} // verus!
