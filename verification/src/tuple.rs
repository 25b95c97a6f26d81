//! The heap tuple header: a 23-byte fixed prefix followed by the raw user
//! data. The final field is an explicit variable-length byte span, decoded
//! by the "declared length minus fixed prefix" rule.
//!
//! Whenever a new tuple is stored on disk, its `t_ctid` is initialised with
//! its own address; an update rewrites it to the replacement version's
//! address. A follower of that chain must check that the referenced slot's
//! insert id equals the current tuple's delete id before trusting the link,
//! because space reclamation may have reused the slot.
use vstd::prelude::*;
use vstd::bytes::{
    lemma_auto_spec_u16_to_from_le_bytes, lemma_auto_spec_u32_to_from_le_bytes,
    spec_u16_from_le_bytes, spec_u16_to_le_bytes, spec_u32_from_le_bytes, spec_u32_to_le_bytes,
    u16_from_le_bytes, u16_to_le_bytes, u32_from_le_bytes, u32_to_le_bytes,
};
use vstd::slice::{slice_subrange, slice_to_vec};

use crate::codec::{ByteEncodeError, ByteEncodeResult, ByteEncoded, ByteReader};
use crate::item_pointer::{
    lemma_round_trip_item_pointer, sp_decode_item_pointer, ItemPointerData,
};

verus! {

/// The byte size of the fixed tuple header prefix.
pub const TUPLE_HEADER_SIZE: u16 = 23;

/// `t_infomask` bit: the tuple has null attributes (a null bitmap follows
/// the fixed header).
pub const HEAP_HASNULL: u16 = 0x0001;

/// `t_infomask` bit: the tuple has variable-width attributes.
pub const HEAP_HASVARWIDTH: u16 = 0x0002;

/// `t_infomask` bit: the tuple has externally stored attributes.
pub const HEAP_HASEXTERNAL: u16 = 0x0004;

/// `t_infomask` bit: the tuple carries a legacy object-id field.
pub const HEAP_HASOID_OLD: u16 = 0x0008;

/// `t_infomask` bit: the delete id is a key-shared locker.
pub const HEAP_XMAX_KEYSHR_LOCK: u16 = 0x0010;

/// `t_infomask` bit: the command id is a combo command id.
pub const HEAP_COMBOCID: u16 = 0x0020;

/// `t_infomask` bit: the delete id is an exclusive locker.
pub const HEAP_XMAX_EXCL_LOCK: u16 = 0x0040;

/// `t_infomask` bit: the delete id, if valid, is only a locker.
pub const HEAP_XMAX_LOCK_ONLY: u16 = 0x0080;

/// `t_infomask` bits: the delete id is a shared locker.
pub const HEAP_XMAX_SHR_LOCK: u16 = HEAP_XMAX_EXCL_LOCK | HEAP_XMAX_KEYSHR_LOCK;

/// `t_infomask` bits: the lock-type mask.
pub const HEAP_LOCK_MASK: u16 = HEAP_XMAX_SHR_LOCK | HEAP_XMAX_EXCL_LOCK
    | HEAP_XMAX_KEYSHR_LOCK;

/// `t_infomask` bit: the insert transaction committed.
pub const HEAP_XMIN_COMMITTED: u16 = 0x0100;

/// `t_infomask` bit: the insert transaction aborted.
pub const HEAP_XMIN_INVALID: u16 = 0x0200;

/// `t_infomask` bits: the tuple is frozen.
pub const HEAP_XMIN_FROZEN: u16 = HEAP_XMIN_COMMITTED | HEAP_XMIN_INVALID;

/// `t_infomask` bit: the delete transaction committed.
pub const HEAP_XMAX_COMMITTED: u16 = 0x0400;

/// `t_infomask` bit: the delete transaction aborted.
pub const HEAP_XMAX_INVALID: u16 = 0x0800;

/// `t_infomask` bit: the delete id is a multi-transaction id.
pub const HEAP_XMAX_IS_MULTI: u16 = 0x1000;

/// `t_infomask` bit: this is an updated version of the row.
pub const HEAP_UPDATED: u16 = 0x2000;

/// `t_infomask` bit: moved away by a legacy page mover; kept only for
/// backward-compatible decoding, never produced on encode.
pub const HEAP_MOVED_OFF: u16 = 0x4000;

/// `t_infomask` bit: moved in by a legacy page mover; kept only for
/// backward-compatible decoding, never produced on encode.
pub const HEAP_MOVED_IN: u16 = 0x8000;

/// `t_infomask` bits: either legacy page-move bit.
pub const HEAP_MOVED: u16 = HEAP_MOVED_OFF | HEAP_MOVED_IN;

/// `t_infomask` bits: all visibility-related bits.
pub const HEAP_XACT_MASK: u16 = 0xFFF0;

/// A minimal tuple: the trailing part of a heap tuple header prefixed by
/// its own length, used where the transaction fields are not needed.
#[derive(Debug, PartialEq, Eq, Clone)]
pub struct MinimalTupleData {
    /// Actual length of the minimal tuple.
    pub t_len: u32,
    /// Padding that keeps the fields below aligned with
    /// `HeapTupleHeaderData`.
    pub mt_padding: Vec<u8>,
    /// Number of attributes, plus various flag bits.
    pub t_infomask2: u16,
    /// Various flag bits.
    pub t_infomask: u16,
    /// Offset from tuple start to user data.
    pub t_hoff: u8,
    /// Bitmap of null attributes.
    pub t_bits: Vec<u8>,
}

/// The fields that overlay the transaction fields when a tuple is built
/// in memory as a datum of a composite type.
#[derive(Debug, PartialEq, Eq, Clone, Copy, Structural)]
pub struct DatumTupleFields {
    /// Total length word.
    pub datum_len_: u32,
    /// Identifier of a record type, or the value for "none".
    pub datum_typmod: u32,
    /// Composite type identifier.
    pub datum_typeid: u32,
}

/// What the overloaded third header field holds: either a command id or
/// the transaction id of a legacy whole-row move.
#[derive(Debug, PartialEq, Eq, Clone, Copy, Structural)]
pub enum TField3 {
    /// Inserting or deleting command id, or both as a combo.
    CommandId(u32),
    /// Transaction id of a legacy vacuum operation moving a row version.
    Xvac(u32),
}

/// The heap tuple header and its user data.
#[derive(Debug, PartialEq, Eq, PartialOrd, Ord, Clone)]
pub struct HeapTupleHeaderData {
    /// Insert transaction id stamp.
    pub t_xmin: u32,
    /// Delete transaction id stamp.
    pub t_xmax: u32,
    /// Overloaded field: command id or legacy vacuum transaction id.
    pub t_field3: u32,
    /// Current address of this or the newer version of the row.
    pub t_ctid: ItemPointerData,
    /// Number of attributes, plus various flag bits.
    pub t_infomask2: u16,
    /// Various flag bits.
    pub t_infomask: u16,
    /// Offset from tuple start to user data.
    pub t_hoff: u8,
    /// The raw user data.
    pub data: Vec<u8>,
}

/// The mathematical value of a tuple: its header fields and the user data
/// as a byte sequence.
pub struct TupleModel {
    pub t_xmin: u32,
    pub t_xmax: u32,
    pub t_field3: u32,
    pub t_ctid: ItemPointerData,
    pub t_infomask2: u16,
    pub t_infomask: u16,
    pub t_hoff: u8,
    pub data: Seq<u8>,
}

/// The tuple a byte image of at least 23 bytes holds.
pub open spec fn sp_decode_tuple(b: Seq<u8>) -> TupleModel
    recommends
        b.len() >= 23,
{
    TupleModel {
        t_xmin: spec_u32_from_le_bytes(b.subrange(0, 4)),
        t_xmax: spec_u32_from_le_bytes(b.subrange(4, 8)),
        t_field3: spec_u32_from_le_bytes(b.subrange(8, 12)),
        t_ctid: sp_decode_item_pointer(b.subrange(12, 18)),
        t_infomask2: spec_u16_from_le_bytes(b.subrange(18, 20)),
        t_infomask: spec_u16_from_le_bytes(b.subrange(20, 22)),
        t_hoff: b[22],
        data: b.subrange(23, b.len() as int),
    }
}

impl HeapTupleHeaderData {
    /// The mathematical value of this tuple.
    pub open spec fn sp_model(&self) -> TupleModel {
        TupleModel {
            t_xmin: self.t_xmin,
            t_xmax: self.t_xmax,
            t_field3: self.t_field3,
            t_ctid: self.t_ctid,
            t_infomask2: self.t_infomask2,
            t_infomask: self.t_infomask,
            t_hoff: self.t_hoff,
            data: self.data@,
        }
    }

    /// The deliberately reduced visibility rule this crate models: the
    /// tuple was inserted by transaction `xid` or an earlier one, and not
    /// yet deleted as of `xid` (a delete stamp of 0 means none). Commit
    /// state and snapshots belong to the transaction machinery outside
    /// this crate.
    pub open spec fn sp_visible_to_tx(&self, xid: u32) -> bool {
        self.t_xmin <= xid && (self.t_xmax == 0 || xid < self.t_xmax)
    }

    /// Whether this tuple version is visible to transaction `xid`, under
    /// the reduced rule `sp_visible_to_tx`.
    pub fn visible_to_tx(&self, xid: u32) -> (r: bool)
        ensures
            r == self.sp_visible_to_tx(xid),
    {
        self.t_xmin <= xid && (self.t_xmax == 0 || xid < self.t_xmax)
    }
}

impl ByteEncoded for HeapTupleHeaderData {
    open spec fn sp_size() -> u16 {
        0
    }

    open spec fn sp_encode(&self) -> Seq<u8> {
        spec_u32_to_le_bytes(self.t_xmin) + spec_u32_to_le_bytes(self.t_xmax)
            + spec_u32_to_le_bytes(self.t_field3) + self.t_ctid.sp_encode()
            + spec_u16_to_le_bytes(self.t_infomask2) + spec_u16_to_le_bytes(self.t_infomask)
            + seq![self.t_hoff] + self.data@
    }

    open spec fn sp_valid(b: Seq<u8>) -> bool {
        b.len() >= 23
    }

    open spec fn sp_is_decode(b: Seq<u8>, v: &Self) -> bool {
        v.sp_model() == sp_decode_tuple(b)
    }

    open spec fn sp_err(b: Seq<u8>) -> ByteEncodeError {
        ByteEncodeError::NotEnoughBytes { expected: 23, actual: b.len() as usize }
    }

    proof fn lemma_fixed_total(b: Seq<u8>) {
    }

    proof fn lemma_encode_len(&self) {
    }

    fn byte_size() -> (r: u16) {
        0
    }

    fn encode(&self) -> (r: Vec<u8>) {
        let mut buf = u32_to_le_bytes(self.t_xmin);
        let mut piece = u32_to_le_bytes(self.t_xmax);
        buf.append(&mut piece);
        let mut piece = u32_to_le_bytes(self.t_field3);
        buf.append(&mut piece);
        let mut piece = <ItemPointerData as ByteEncoded>::encode(&self.t_ctid);
        buf.append(&mut piece);
        let mut piece = u16_to_le_bytes(self.t_infomask2);
        buf.append(&mut piece);
        let mut piece = u16_to_le_bytes(self.t_infomask);
        buf.append(&mut piece);
        buf.push(self.t_hoff);
        proof {
            assert(buf@ =~= spec_u32_to_le_bytes(self.t_xmin) + spec_u32_to_le_bytes(self.t_xmax)
                + spec_u32_to_le_bytes(self.t_field3) + self.t_ctid.sp_encode()
                + spec_u16_to_le_bytes(self.t_infomask2) + spec_u16_to_le_bytes(self.t_infomask)
                + seq![self.t_hoff]);
        }
        let mut piece = slice_to_vec(self.data.as_slice());
        buf.append(&mut piece);
        proof {
            assert(buf@ =~= self.sp_encode());
        }
        buf
    }

    fn decode(bytes: &[u8]) -> (r: ByteEncodeResult<Self>) {
        if bytes.len() < 23 {
            return Err(ByteEncodeError::NotEnoughBytes { expected: 23, actual: bytes.len() });
        }
        let t_xmin = u32_from_le_bytes(slice_subrange(bytes, 0, 4));
        let t_xmax = u32_from_le_bytes(slice_subrange(bytes, 4, 8));
        let t_field3 = u32_from_le_bytes(slice_subrange(bytes, 8, 12));
        let t_ctid = ItemPointerData {
            ip_blkid: crate::block_id::BlockIdData {
                bi_hi: u16_from_le_bytes(slice_subrange(bytes, 12, 14)),
                bi_lo: u16_from_le_bytes(slice_subrange(bytes, 14, 16)),
            },
            ip_posid: u16_from_le_bytes(slice_subrange(bytes, 16, 18)),
        };
        let t_infomask2 = u16_from_le_bytes(slice_subrange(bytes, 18, 20));
        let t_infomask = u16_from_le_bytes(slice_subrange(bytes, 20, 22));
        let t_hoff = *slice_subrange(bytes, 22, 23).first().unwrap();
        let data = slice_to_vec(slice_subrange(bytes, 23, bytes.len()));
        proof {
            let b = bytes@;
            assert(b.subrange(12, 18).subrange(0, 4).subrange(0, 2) =~= b.subrange(12, 14));
            assert(b.subrange(12, 18).subrange(0, 4).subrange(2, 4) =~= b.subrange(14, 16));
            assert(b.subrange(12, 18).subrange(4, 6) =~= b.subrange(16, 18));
        }
        Ok(HeapTupleHeaderData {
            t_xmin,
            t_xmax,
            t_field3,
            t_ctid,
            t_infomask2,
            t_infomask,
            t_hoff,
            data,
        })
    }

    fn encode_into_writer(&self, writer: &mut Vec<u8>) {
        let mut piece = <HeapTupleHeaderData as ByteEncoded>::encode(self);
        writer.append(&mut piece);
    }

    fn decode_from_reader(reader: &mut ByteReader<'_>) -> (r: ByteEncodeResult<Self>) {
        let rest = reader.read_to_end();
        <HeapTupleHeaderData as ByteEncoded>::decode(rest)
    }
}

/// Round trip: the byte image of any tuple decodes back to its value,
/// header fields and user data alike.
pub proof fn lemma_round_trip_tuple(v: HeapTupleHeaderData)
    ensures
        HeapTupleHeaderData::sp_valid(v.sp_encode()),
        HeapTupleHeaderData::sp_is_decode(v.sp_encode(), &v),
{
    lemma_auto_spec_u16_to_from_le_bytes();
    lemma_auto_spec_u32_to_from_le_bytes();
    lemma_round_trip_item_pointer(v.t_ctid);
    v.t_ctid.lemma_encode_len();
    assert(spec_u32_to_le_bytes(v.t_xmin).len() == 4);
    assert(spec_u32_to_le_bytes(v.t_xmax).len() == 4);
    assert(spec_u32_to_le_bytes(v.t_field3).len() == 4);
    assert(spec_u16_to_le_bytes(v.t_infomask2).len() == 2);
    assert(spec_u16_to_le_bytes(v.t_infomask).len() == 2);
    let e = v.sp_encode();
    assert(e.subrange(0, 4) =~= spec_u32_to_le_bytes(v.t_xmin));
    assert(e.subrange(4, 8) =~= spec_u32_to_le_bytes(v.t_xmax));
    assert(e.subrange(8, 12) =~= spec_u32_to_le_bytes(v.t_field3));
    assert(e.subrange(12, 18) =~= v.t_ctid.sp_encode());
    assert(e.subrange(18, 20) =~= spec_u16_to_le_bytes(v.t_infomask2));
    assert(e.subrange(20, 22) =~= spec_u16_to_le_bytes(v.t_infomask));
    assert(e[22] == v.t_hoff);
    assert(e.subrange(23, e.len() as int) =~= v.data@);
}

} // verus!
