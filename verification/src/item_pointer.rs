//! The stable logical address of a tuple: a block identifier plus a 16-bit
//! position within the page's slot array.
use vstd::prelude::*;
use vstd::bytes::{
    lemma_auto_spec_u16_to_from_le_bytes, spec_u16_from_le_bytes, spec_u16_to_le_bytes,
    u16_from_le_bytes, u16_to_le_bytes,
};
use vstd::slice::slice_subrange;

use crate::block_id::{lemma_round_trip_block_id, sp_decode_block_id, BlockIdData};
use crate::codec::{sp_size_mismatch, size_mismatch_error, ByteEncodeResult, ByteEncoded, ByteReader};

verus! {

/// A tuple identifier: which page, and which slot on that page. Embedded
/// in tuple headers as a forward-chain pointer to the newest row version.
#[derive(Debug, PartialEq, Eq, PartialOrd, Ord, Clone, Copy, Structural)]
pub struct ItemPointerData {
    /// Block number of the page.
    pub ip_blkid: BlockIdData,
    /// Slot position within the page.
    pub ip_posid: u16,
}

/// The item pointer a six-byte image holds.
pub open spec fn sp_decode_item_pointer(b: Seq<u8>) -> ItemPointerData
    recommends
        b.len() == 6,
{
    ItemPointerData {
        ip_blkid: sp_decode_block_id(b.subrange(0, 4)),
        ip_posid: spec_u16_from_le_bytes(b.subrange(4, 6)),
    }
}

impl ByteEncoded for ItemPointerData {
    open spec fn sp_size() -> u16 {
        6
    }

    open spec fn sp_encode(&self) -> Seq<u8> {
        self.ip_blkid.sp_encode() + spec_u16_to_le_bytes(self.ip_posid)
    }

    open spec fn sp_valid(b: Seq<u8>) -> bool {
        b.len() == 6
    }

    open spec fn sp_is_decode(b: Seq<u8>, v: &Self) -> bool {
        *v == sp_decode_item_pointer(b)
    }

    open spec fn sp_err(b: Seq<u8>) -> crate::codec::ByteEncodeError {
        sp_size_mismatch(6, b.len() as int)
    }

    proof fn lemma_fixed_total(b: Seq<u8>) {
    }

    proof fn lemma_encode_len(&self) {
        lemma_auto_spec_u16_to_from_le_bytes();
        self.ip_blkid.lemma_encode_len();
    }

    fn byte_size() -> (r: u16) {
        6
    }

    fn encode(&self) -> (r: Vec<u8>) {
        let mut buf = <BlockIdData as ByteEncoded>::encode(&self.ip_blkid);
        let mut pos = u16_to_le_bytes(self.ip_posid);
        buf.append(&mut pos);
        buf
    }

    fn decode(bytes: &[u8]) -> (r: ByteEncodeResult<Self>) {
        if bytes.len() == 6 {
            let blk = slice_subrange(bytes, 0, 4);
            let ip_blkid = match <BlockIdData as ByteEncoded>::decode(blk) {
                Ok(v) => v,
                Err(_) => {
                    proof {
                        BlockIdData::lemma_fixed_total(blk@);
                    }
                    return Err(size_mismatch_error(6, bytes.len()));
                },
            };
            let ip_posid = u16_from_le_bytes(slice_subrange(bytes, 4, 6));
            Ok(ItemPointerData { ip_blkid, ip_posid })
        } else {
            Err(size_mismatch_error(6, bytes.len()))
        }
    }

    fn encode_into_writer(&self, writer: &mut Vec<u8>) {
        let mut piece = <ItemPointerData as ByteEncoded>::encode(self);
        writer.append(&mut piece);
    }

    fn decode_from_reader(reader: &mut ByteReader<'_>) -> (r: ByteEncodeResult<Self>) {
        let buf = reader.read_exact(6)?;
        <ItemPointerData as ByteEncoded>::decode(buf)
    }
}

/// Round trip: the byte image of any item pointer decodes back to it.
pub proof fn lemma_round_trip_item_pointer(v: ItemPointerData)
    ensures
        ItemPointerData::sp_valid(v.sp_encode()),
        ItemPointerData::sp_is_decode(v.sp_encode(), &v),
{
    lemma_auto_spec_u16_to_from_le_bytes();
    lemma_round_trip_block_id(v.ip_blkid);
    v.ip_blkid.lemma_encode_len();
    let e = v.sp_encode();
    assert(e.subrange(0, 4) =~= v.ip_blkid.sp_encode());
    assert(e.subrange(4, 6) =~= spec_u16_to_le_bytes(v.ip_posid));
}

} // verus!
