//! The log-sequence pointer stamped on a page at its last modification,
//! stored as two 32-bit halves.
use vstd::prelude::*;
use vstd::bytes::{
    lemma_auto_spec_u32_to_from_le_bytes, spec_u32_from_le_bytes, spec_u32_to_le_bytes,
    u32_from_le_bytes, u32_to_le_bytes,
};
use vstd::slice::slice_subrange;

use crate::codec::{sp_size_mismatch, size_mismatch_error, ByteEncodeResult, ByteEncoded, ByteReader};

verus! {

/// A write-log position: the next byte after the last byte of the log
/// record for the last change to a page.
#[derive(Debug, PartialEq, Eq, PartialOrd, Ord, Clone, Copy, Structural)]
pub struct PageXLogRecPtr {
    /// High half of the log position.
    pub xlogid: u32,
    /// Low half of the log position.
    pub xrecoff: u32,
}

/// The log-sequence pointer an eight-byte image holds.
pub open spec fn sp_decode_xlog_ptr(b: Seq<u8>) -> PageXLogRecPtr
    recommends
        b.len() == 8,
{
    PageXLogRecPtr {
        xlogid: spec_u32_from_le_bytes(b.subrange(0, 4)),
        xrecoff: spec_u32_from_le_bytes(b.subrange(4, 8)),
    }
}

impl ByteEncoded for PageXLogRecPtr {
    open spec fn sp_size() -> u16 {
        8
    }

    open spec fn sp_encode(&self) -> Seq<u8> {
        spec_u32_to_le_bytes(self.xlogid) + spec_u32_to_le_bytes(self.xrecoff)
    }

    open spec fn sp_valid(b: Seq<u8>) -> bool {
        b.len() == 8
    }

    open spec fn sp_is_decode(b: Seq<u8>, v: &Self) -> bool {
        *v == sp_decode_xlog_ptr(b)
    }

    open spec fn sp_err(b: Seq<u8>) -> crate::codec::ByteEncodeError {
        sp_size_mismatch(8, b.len() as int)
    }

    proof fn lemma_fixed_total(b: Seq<u8>) {
    }

    proof fn lemma_encode_len(&self) {
        lemma_auto_spec_u32_to_from_le_bytes();
    }

    fn byte_size() -> (r: u16) {
        8
    }

    fn encode(&self) -> (r: Vec<u8>) {
        let mut buf = u32_to_le_bytes(self.xlogid);
        let mut lo = u32_to_le_bytes(self.xrecoff);
        buf.append(&mut lo);
        buf
    }

    fn decode(bytes: &[u8]) -> (r: ByteEncodeResult<Self>) {
        if bytes.len() == 8 {
            let xlogid = u32_from_le_bytes(slice_subrange(bytes, 0, 4));
            let xrecoff = u32_from_le_bytes(slice_subrange(bytes, 4, 8));
            Ok(PageXLogRecPtr { xlogid, xrecoff })
        } else {
            Err(size_mismatch_error(8, bytes.len()))
        }
    }

    fn encode_into_writer(&self, writer: &mut Vec<u8>) {
        let mut piece = <PageXLogRecPtr as ByteEncoded>::encode(self);
        writer.append(&mut piece);
    }

    fn decode_from_reader(reader: &mut ByteReader<'_>) -> (r: ByteEncodeResult<Self>) {
        let buf = reader.read_exact(8)?;
        let xlogid = u32_from_le_bytes(slice_subrange(buf, 0, 4));
        let xrecoff = u32_from_le_bytes(slice_subrange(buf, 4, 8));
        Ok(PageXLogRecPtr { xlogid, xrecoff })
    }
}

/// Round trip: the byte image of any log-sequence pointer decodes back to it.
pub proof fn lemma_round_trip_xlog_ptr(v: PageXLogRecPtr)
    ensures
        PageXLogRecPtr::sp_valid(v.sp_encode()),
        PageXLogRecPtr::sp_is_decode(v.sp_encode(), &v),
{
    lemma_auto_spec_u32_to_from_le_bytes();
    let e = v.sp_encode();
    assert(e.subrange(0, 4) =~= spec_u32_to_le_bytes(v.xlogid));
    assert(e.subrange(4, 8) =~= spec_u32_to_le_bytes(v.xrecoff));
}

} // verus!
