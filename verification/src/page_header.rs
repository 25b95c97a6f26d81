//! The fixed 24-byte page header: space-management information generic to
//! any page.
//!
//! `pd_lower` and `pd_upper` bracket the free space between the slot array
//! and the tuple storage; `pd_special` marks the access-method trailer; the
//! page size and layout version share one 16-bit field, the size in its
//! high byte-aligned bits and the version in the low 8 bits. Page sizes are
//! therefore multiples of 256, and at most 32768 because slot offsets and
//! lengths are 15-bit.
use vstd::prelude::*;
use vstd::bytes::{
    lemma_auto_spec_u16_to_from_le_bytes, lemma_auto_spec_u32_to_from_le_bytes,
    spec_u16_from_le_bytes, spec_u16_to_le_bytes, spec_u32_from_le_bytes, spec_u32_to_le_bytes,
    u16_from_le_bytes, u16_to_le_bytes, u32_from_le_bytes, u32_to_le_bytes,
};
use vstd::slice::slice_subrange;

use crate::codec::{sp_size_mismatch, size_mismatch_error, ByteEncodeResult, ByteEncoded, ByteReader};
use crate::xlog_ptr::{lemma_round_trip_xlog_ptr, sp_decode_xlog_ptr, PageXLogRecPtr};

verus! {

/// The byte size of the fixed page header.
pub const PAGE_HEADER_SIZE: u16 = 24;

/// The page header, in its on-disk field order.
#[derive(Debug, PartialEq, Eq, PartialOrd, Ord, Clone, Copy, Structural)]
pub struct PageHeaderData {
    /// Log position of the last change to this page.
    pub pd_lsn: PageXLogRecPtr,
    /// Page checksum, if one was set; zero is a valid checksum value.
    pub pd_checksum: u16,
    /// Flag bits.
    pub pd_flags: u16,
    /// Offset to the start of free space (end of the slot array).
    pub pd_lower: u16,
    /// Offset to the end of free space (start of tuple storage).
    pub pd_upper: u16,
    /// Offset to the start of the special space.
    pub pd_special: u16,
    /// Page size and layout version, packed into one field.
    pub pd_pagesize_version: u16,
    /// Oldest transaction id among potentially prunable tuples, 0 if none.
    pub pd_prune_xid: u32,
}

impl PageHeaderData {
    /// The page size: the high byte-aligned bits of the packed field.
    pub open spec fn sp_page_size(&self) -> int {
        (self.pd_pagesize_version & 0xff00) as int
    }

    /// The layout version: the low 8 bits of the packed field.
    pub open spec fn sp_page_version(&self) -> u16 {
        self.pd_pagesize_version & 0x00ff
    }

    /// The header invariant of a well-formed page: the slot array begins
    /// after the header, free space lies between `pd_lower` and `pd_upper`,
    /// the special space follows, and everything fits in the page.
    pub open spec fn sp_wf(&self) -> bool {
        &&& PAGE_HEADER_SIZE <= self.pd_lower <= self.pd_upper <= self.pd_special
        &&& self.pd_special <= self.sp_page_size()
        &&& self.sp_page_size() % 256 == 0
        &&& self.sp_page_size() <= 32768
    }

    pub fn page_size(&self) -> (r: usize)
        ensures
            r as int == self.sp_page_size(),
    {
        (self.pd_pagesize_version & 0xff00) as usize
    }

    pub fn page_version(&self) -> (r: u16)
        ensures
            r == self.sp_page_version(),
    {
        self.pd_pagesize_version & 0x00ff
    }

    /// Whether the header invariant holds, as executable code, so that a
    /// caller holding a header from an untrusted source can test it before
    /// leaning on it.
    pub fn wf(&self) -> (r: bool)
        ensures
            r == self.sp_wf(),
    {
        let ps = self.page_size();
        24 <= self.pd_lower && self.pd_lower <= self.pd_upper && self.pd_upper <= self.pd_special
            && self.pd_special as usize <= ps && ps % 256 == 0 && ps <= 32768
    }
}

/// The page header a 24-byte image holds.
pub open spec fn sp_decode_page_header(b: Seq<u8>) -> PageHeaderData
    recommends
        b.len() == 24,
{
    PageHeaderData {
        pd_lsn: sp_decode_xlog_ptr(b.subrange(0, 8)),
        pd_checksum: spec_u16_from_le_bytes(b.subrange(8, 10)),
        pd_flags: spec_u16_from_le_bytes(b.subrange(10, 12)),
        pd_lower: spec_u16_from_le_bytes(b.subrange(12, 14)),
        pd_upper: spec_u16_from_le_bytes(b.subrange(14, 16)),
        pd_special: spec_u16_from_le_bytes(b.subrange(16, 18)),
        pd_pagesize_version: spec_u16_from_le_bytes(b.subrange(18, 20)),
        pd_prune_xid: spec_u32_from_le_bytes(b.subrange(20, 24)),
    }
}

impl ByteEncoded for PageHeaderData {
    open spec fn sp_size() -> u16 {
        24
    }

    open spec fn sp_encode(&self) -> Seq<u8> {
        self.pd_lsn.sp_encode() + spec_u16_to_le_bytes(self.pd_checksum) + spec_u16_to_le_bytes(
            self.pd_flags,
        ) + spec_u16_to_le_bytes(self.pd_lower) + spec_u16_to_le_bytes(self.pd_upper)
            + spec_u16_to_le_bytes(self.pd_special) + spec_u16_to_le_bytes(
            self.pd_pagesize_version,
        ) + spec_u32_to_le_bytes(self.pd_prune_xid)
    }

    open spec fn sp_valid(b: Seq<u8>) -> bool {
        b.len() == 24
    }

    open spec fn sp_is_decode(b: Seq<u8>, v: &Self) -> bool {
        *v == sp_decode_page_header(b)
    }

    open spec fn sp_err(b: Seq<u8>) -> crate::codec::ByteEncodeError {
        sp_size_mismatch(24, b.len() as int)
    }

    proof fn lemma_fixed_total(b: Seq<u8>) {
    }

    proof fn lemma_encode_len(&self) {
        lemma_page_header_encode_len(self);
    }

    fn byte_size() -> (r: u16) {
        24
    }

    fn encode(&self) -> (r: Vec<u8>) {
        let mut buf = <PageXLogRecPtr as ByteEncoded>::encode(&self.pd_lsn);
        let mut piece = u16_to_le_bytes(self.pd_checksum);
        buf.append(&mut piece);
        let mut piece = u16_to_le_bytes(self.pd_flags);
        buf.append(&mut piece);
        let mut piece = u16_to_le_bytes(self.pd_lower);
        buf.append(&mut piece);
        let mut piece = u16_to_le_bytes(self.pd_upper);
        buf.append(&mut piece);
        let mut piece = u16_to_le_bytes(self.pd_special);
        buf.append(&mut piece);
        let mut piece = u16_to_le_bytes(self.pd_pagesize_version);
        buf.append(&mut piece);
        let mut piece = u32_to_le_bytes(self.pd_prune_xid);
        buf.append(&mut piece);
        buf
    }

    fn decode(bytes: &[u8]) -> (r: ByteEncodeResult<Self>) {
        if bytes.len() == 24 {
            let pd_lsn = PageXLogRecPtr {
                xlogid: u32_from_le_bytes(slice_subrange(bytes, 0, 4)),
                xrecoff: u32_from_le_bytes(slice_subrange(bytes, 4, 8)),
            };
            let pd_checksum = u16_from_le_bytes(slice_subrange(bytes, 8, 10));
            let pd_flags = u16_from_le_bytes(slice_subrange(bytes, 10, 12));
            let pd_lower = u16_from_le_bytes(slice_subrange(bytes, 12, 14));
            let pd_upper = u16_from_le_bytes(slice_subrange(bytes, 14, 16));
            let pd_special = u16_from_le_bytes(slice_subrange(bytes, 16, 18));
            let pd_pagesize_version = u16_from_le_bytes(slice_subrange(bytes, 18, 20));
            let pd_prune_xid = u32_from_le_bytes(slice_subrange(bytes, 20, 24));
            proof {
                assert(bytes@.subrange(0, 8).subrange(0, 4) =~= bytes@.subrange(0, 4));
                assert(bytes@.subrange(0, 8).subrange(4, 8) =~= bytes@.subrange(4, 8));
            }
            Ok(PageHeaderData {
                pd_lsn,
                pd_checksum,
                pd_flags,
                pd_lower,
                pd_upper,
                pd_special,
                pd_pagesize_version,
                pd_prune_xid,
            })
        } else {
            Err(size_mismatch_error(24, bytes.len()))
        }
    }

    fn encode_into_writer(&self, writer: &mut Vec<u8>) {
        let mut piece = <PageHeaderData as ByteEncoded>::encode(self);
        writer.append(&mut piece);
    }

    fn decode_from_reader(reader: &mut ByteReader<'_>) -> (r: ByteEncodeResult<Self>) {
        let buf = reader.read_exact(24)?;
        <PageHeaderData as ByteEncoded>::decode(buf)
    }
}

/// The byte image of a page header is 24 bytes long.
pub proof fn lemma_page_header_encode_len(h: &PageHeaderData)
    ensures
        h.sp_encode().len() == 24,
{
    lemma_auto_spec_u16_to_from_le_bytes();
    lemma_auto_spec_u32_to_from_le_bytes();
    h.pd_lsn.lemma_encode_len();
    assert(spec_u16_to_le_bytes(h.pd_checksum).len() == 2);
    assert(spec_u16_to_le_bytes(h.pd_flags).len() == 2);
    assert(spec_u16_to_le_bytes(h.pd_lower).len() == 2);
    assert(spec_u16_to_le_bytes(h.pd_upper).len() == 2);
    assert(spec_u16_to_le_bytes(h.pd_special).len() == 2);
    assert(spec_u16_to_le_bytes(h.pd_pagesize_version).len() == 2);
    assert(spec_u32_to_le_bytes(h.pd_prune_xid).len() == 4);
}

/// Round trip: the byte image of any page header decodes back to it,
/// field for field.
pub proof fn lemma_round_trip_page_header(v: PageHeaderData)
    ensures
        PageHeaderData::sp_valid(v.sp_encode()),
        PageHeaderData::sp_is_decode(v.sp_encode(), &v),
{
    lemma_auto_spec_u16_to_from_le_bytes();
    lemma_auto_spec_u32_to_from_le_bytes();
    lemma_round_trip_xlog_ptr(v.pd_lsn);
    lemma_page_header_encode_len(&v);
    v.pd_lsn.lemma_encode_len();
    assert(spec_u16_to_le_bytes(v.pd_checksum).len() == 2);
    assert(spec_u16_to_le_bytes(v.pd_flags).len() == 2);
    assert(spec_u16_to_le_bytes(v.pd_lower).len() == 2);
    assert(spec_u16_to_le_bytes(v.pd_upper).len() == 2);
    assert(spec_u16_to_le_bytes(v.pd_special).len() == 2);
    assert(spec_u16_to_le_bytes(v.pd_pagesize_version).len() == 2);
    assert(spec_u32_to_le_bytes(v.pd_prune_xid).len() == 4);
    let e = v.sp_encode();
    assert(e.subrange(0, 8) =~= v.pd_lsn.sp_encode());
    assert(e.subrange(8, 10) =~= spec_u16_to_le_bytes(v.pd_checksum));
    assert(e.subrange(10, 12) =~= spec_u16_to_le_bytes(v.pd_flags));
    assert(e.subrange(12, 14) =~= spec_u16_to_le_bytes(v.pd_lower));
    assert(e.subrange(14, 16) =~= spec_u16_to_le_bytes(v.pd_upper));
    assert(e.subrange(16, 18) =~= spec_u16_to_le_bytes(v.pd_special));
    assert(e.subrange(18, 20) =~= spec_u16_to_le_bytes(v.pd_pagesize_version));
    assert(e.subrange(20, 24) =~= spec_u32_to_le_bytes(v.pd_prune_xid));
}

} // verus!
