//! The materialized page: header, the full slot array, and the decoded
//! tuples of the Normal slots in slot order. Constructed by a full decode;
//! mutated only through the free-space allocator and compaction.
use vstd::prelude::*;
use vstd::seq_lib::group_seq_properties;
use vstd::slice::slice_subrange;

use crate::codec::{ByteEncodeError, ByteEncodeResult, ByteEncoded, ByteReader};
use crate::item_id::{sp_decode_item_id, ItemIdData, LpFlags};
use crate::page_header::{sp_decode_page_header, PageHeaderData};
use crate::tuple::{sp_decode_tuple, HeapTupleHeaderData, TupleModel, TUPLE_HEADER_SIZE};

verus! {

/// The byte size of one line pointer in the slot array.
pub const ITEM_ID_SIZE: u16 = 4;

/// The line pointers a dense slot-array image holds, one per 4-byte chunk.
pub open spec fn sp_decode_slots(b: Seq<u8>) -> Seq<ItemIdData>
    recommends
        b.len() as int % 4 == 0,
{
    Seq::new((b.len() / 4) as nat, |j: int| sp_decode_item_id(b.subrange(4 * j, 4 * j + 4)))
}

/// The header a full page image begins with.
pub open spec fn sp_page_header_of(pb: Seq<u8>) -> PageHeaderData
    recommends
        pb.len() >= 24,
{
    sp_decode_page_header(pb.take(24))
}

/// The slot array of a full page image: the line pointers between the
/// header and `pd_lower`.
pub open spec fn sp_page_slots(pb: Seq<u8>) -> Seq<ItemIdData> {
    sp_decode_slots(pb.subrange(24, sp_page_header_of(pb).pd_lower as int))
}

/// The byte image of the tuple a line pointer references, sliced out of
/// the full page image.
pub open spec fn sp_tuple_bytes(pb: Seq<u8>, lp: ItemIdData) -> Seq<u8> {
    pb.subrange(lp.sp_off() as int, lp.sp_off() + lp.sp_len())
}

/// Whether a slot would send the eager decode out of bounds: a Normal slot
/// whose tuple range starts inside the header, runs past the page, or is
/// too short to hold a tuple header. Slots in the other states carry no
/// tuple and are never bad.
pub open spec fn sp_slot_bad(pb: Seq<u8>, lp: ItemIdData) -> bool {
    lp.sp_is_normal() && (lp.sp_off() < 24 || lp.sp_off() + lp.sp_len() > pb.len()
        || lp.sp_len() < 23)
}

/// The error the eager decode reports for a bad slot.
pub open spec fn sp_slot_err(pb: Seq<u8>, lp: ItemIdData) -> ByteEncodeError {
    if lp.sp_off() < 24 {
        ByteEncodeError::NotEnoughBytes { expected: 24, actual: lp.sp_off() as usize }
    } else if lp.sp_off() + lp.sp_len() > pb.len() {
        ByteEncodeError::NotEnoughBytes {
            expected: (lp.sp_off() - 24 + lp.sp_len()) as usize,
            actual: (pb.len() - 24) as usize,
        }
    } else {
        ByteEncodeError::NotEnoughBytes { expected: 23, actual: lp.sp_len() as usize }
    }
}

/// Whether a full page image decodes eagerly: the header's page size
/// matches the image, the slot array lies between the header and
/// `pd_lower` and is dense, and every Normal slot references a tuple image
/// inside the page.
pub open spec fn sp_page_decodable(pb: Seq<u8>) -> bool {
    let h = sp_page_header_of(pb);
    let ps = h.sp_page_size();
    &&& pb.len() >= 24
    &&& ps >= 24
    &&& pb.len() == ps
    &&& 24 <= h.pd_lower <= ps
    &&& (h.pd_lower - 24) as int % 4 == 0
    &&& forall|j: int| 0 <= j < sp_page_slots(pb).len() ==> !sp_slot_bad(
        pb,
        #[trigger] sp_page_slots(pb)[j],
    )
}

/// The tuples of a page image: one per Normal slot, in slot order.
pub open spec fn sp_page_tuples(pb: Seq<u8>) -> Seq<TupleModel> {
    sp_page_slots(pb).filter(|lp: ItemIdData| lp.sp_is_normal()).map_values(
        |lp: ItemIdData| sp_decode_tuple(sp_tuple_bytes(pb, lp)),
    )
}

/// The error the eager decode reports for the page image beginning at
/// `pos0` of `b0`, when it fails.
pub open spec fn sp_page_decode_err(b0: Seq<u8>, pos0: int, e: ByteEncodeError) -> bool {
    let avail = b0.len() - pos0;
    if avail < 24 {
        e == (ByteEncodeError::NotEnoughBytes { expected: 24, actual: avail as usize })
    } else {
        let h = sp_decode_page_header(b0.subrange(pos0, pos0 + 24));
        let ps = h.sp_page_size();
        if ps < 24 {
            e == (ByteEncodeError::NotEnoughBytes { expected: 24, actual: ps as usize })
        } else if avail < ps {
            e == (ByteEncodeError::NotEnoughBytes {
                expected: (ps - 24) as usize,
                actual: (avail - 24) as usize,
            })
        } else {
            let pb = b0.subrange(pos0, pos0 + ps);
            let lower = h.pd_lower as int;
            if lower < 24 {
                e == (ByteEncodeError::NotEnoughBytes {
                    expected: 24,
                    actual: h.pd_lower as usize,
                })
            } else if lower > ps {
                e == (ByteEncodeError::NotEnoughBytes {
                    expected: (lower - 24) as usize,
                    actual: (ps - 24) as usize,
                })
            } else if (lower - 24) % 4 != 0 {
                e == (ByteEncodeError::InvalidSize { expected: 4, actual: (lower - 24) as usize })
            } else {
                let slots = sp_page_slots(pb);
                exists|k: int|
                    0 <= k < slots.len() && sp_slot_bad(pb, #[trigger] slots[k]) && (forall|j: int|
                        0 <= j < k ==> !sp_slot_bad(pb, slots[j])) && e == sp_slot_err(pb, slots[k])
            }
        }
    }
}

/// A fully materialized page.
#[derive(Debug, PartialEq, Eq, Clone)]
pub struct Page {
    /// The fixed page header.
    pub header_data: PageHeaderData,
    /// The whole slot array, in on-disk order.
    pub item_id_data: Vec<ItemIdData>,
    /// The decoded tuples of the Normal slots, in slot order.
    pub items: Vec<HeapTupleHeaderData>,
    /// The special-space payload, when one is modeled.
    pub special: Option<()>,
}

impl Page {
    /// Eagerly decodes one page from the reader: the fixed header, then
    /// the rest of the page, then the slot array up to `pd_lower`, then
    /// one tuple per Normal slot. Slots in the Unused, Redirect and Dead
    /// states are skipped and contribute no tuple.
    #[verifier::loop_isolation(false)]
    pub fn from_reader(reader: &mut ByteReader<'_>) -> (r: ByteEncodeResult<Page>)
        requires
            old(reader).wf(),
        ensures
            final(reader).wf(),
            final(reader).bytes() == old(reader).bytes(),
            ({
                let b0 = old(reader).bytes();
                let pos0 = old(reader).pos();
                match r {
                    Ok(p) => {
                        let h = sp_decode_page_header(b0.subrange(pos0, pos0 + 24));
                        let ps = h.sp_page_size();
                        let pb = b0.subrange(pos0, pos0 + ps);
                        &&& b0.len() - pos0 >= 24
                        &&& ps >= 24
                        &&& b0.len() - pos0 >= ps
                        &&& final(reader).pos() == pos0 + ps
                        &&& sp_page_decodable(pb)
                        &&& p.header_data == h
                        &&& p.item_id_data@ == sp_page_slots(pb)
                        &&& p.items@.map_values(|t: HeapTupleHeaderData| t.sp_model())
                            == sp_page_tuples(pb)
                        &&& p.special is None
                    },
                    Err(e) => sp_page_decode_err(b0, pos0, e),
                }
            }),
    {
        broadcast use group_seq_properties;

        let ghost b0 = old(reader).bytes();
        let ghost pos0 = old(reader).pos();
        let header_buf = reader.read_exact(24)?;
        let header_data = match <PageHeaderData as ByteEncoded>::decode(header_buf) {
            Ok(h) => h,
            Err(e) => {
                proof {
                    assert(false);
                }
                return Err(e);
            },
        };
        let page_size = header_data.page_size();
        if page_size < 24 {
            return Err(ByteEncodeError::NotEnoughBytes { expected: 24, actual: page_size });
        }
        let body = reader.read_exact(page_size - 24)?;
        let ghost pb = b0.subrange(pos0, pos0 + page_size as int);
        proof {
            assert(pb.take(24) =~= b0.subrange(pos0, pos0 + 24));
            assert(body@ =~= pb.subrange(24, page_size as int));
        }
        let lower = header_data.pd_lower as usize;
        if lower < 24 {
            return Err(ByteEncodeError::NotEnoughBytes { expected: 24, actual: lower });
        }
        if lower > page_size {
            return Err(ByteEncodeError::NotEnoughBytes {
                expected: lower - 24,
                actual: page_size - 24,
            });
        }
        let slot_bytes = slice_subrange(body, 0, lower - 24);
        proof {
            assert(slot_bytes@ =~= pb.subrange(24, lower as int));
        }
        let item_id_data = match <Vec<ItemIdData> as ByteEncoded>::decode(slot_bytes) {
            Ok(v) => v,
            Err(e) => {
                return Err(e);
            },
        };
        proof {
            lemma_slots_of_chunks(slot_bytes@, item_id_data@);
            assert(item_id_data@ =~= sp_page_slots(pb));
        }
        let ghost slots = sp_page_slots(pb);
        let ghost normal = |lp: ItemIdData| lp.sp_is_normal();
        let ghost tuple_at = |lp: ItemIdData| sp_decode_tuple(sp_tuple_bytes(pb, lp));
        let ghost model_of = |t: HeapTupleHeaderData| t.sp_model();
        let mut items: Vec<HeapTupleHeaderData> = Vec::new();
        let mut k: usize = 0;
        while k < item_id_data.len()
            invariant
                reader.wf(),
                reader.bytes() == b0,
                item_id_data@ == slots,
                k <= slots.len(),
                24 <= lower <= page_size,
                page_size - 24 == body@.len(),
                body@ == pb.subrange(24, page_size as int),
                pb.len() == page_size as int,
                forall|j: int| 0 <= j < k ==> !sp_slot_bad(pb, #[trigger] slots[j]),
                items@.map_values(model_of) == slots.take(k as int).filter(normal).map_values(
                    tuple_at,
                ),
            decreases slots.len() - k,
        {
            let item_id = item_id_data[k];
            let ghost old_items = items@;
            if item_id.is_normal() {
                let off = item_id.lp_off() as usize;
                let len = item_id.lp_len() as usize;
                if off < 24 {
                    proof {
                        assert(sp_slot_bad(pb, slots[k as int]));
                        assert(sp_slot_err(pb, slots[k as int])
                            == (ByteEncodeError::NotEnoughBytes {
                            expected: 24,
                            actual: off,
                        }));
                    }
                    return Err(ByteEncodeError::NotEnoughBytes { expected: 24, actual: off });
                }
                if off > page_size || len > page_size - off {
                    proof {
                        assert(sp_slot_bad(pb, slots[k as int]));
                        assert(sp_slot_err(pb, slots[k as int])
                            == (ByteEncodeError::NotEnoughBytes {
                            expected: (off - 24 + len) as usize,
                            actual: (page_size - 24) as usize,
                        }));
                    }
                    return Err(ByteEncodeError::NotEnoughBytes {
                        expected: off - 24 + len,
                        actual: page_size - 24,
                    });
                }
                let tuple_bytes = slice_subrange(body, off - 24, off - 24 + len);
                proof {
                    assert(tuple_bytes@ =~= sp_tuple_bytes(pb, slots[k as int]));
                }
                let tup = match <HeapTupleHeaderData as ByteEncoded>::decode(tuple_bytes) {
                    Ok(t) => t,
                    Err(e) => {
                        proof {
                            assert(sp_slot_bad(pb, slots[k as int]));
                            assert(sp_slot_err(pb, slots[k as int]) == e);
                        }
                        return Err(e);
                    },
                };
                items.push(tup);
            }
            proof {
                reveal(Seq::filter);
                assert(slots.take(k + 1).drop_last() =~= slots.take(k as int));
                assert(slots.take(k + 1).last() == slots[k as int]);
                if normal(slots[k as int]) {
                    assert(items@ =~= old_items.push(items@.last()));
                    assert(items@.map_values(model_of) =~= old_items.map_values(model_of).push(
                        model_of(items@.last()),
                    ));
                } else {
                    assert(slots.take(k + 1).filter(normal) == slots.take(k as int).filter(normal));
                }
            }
            k = k + 1;
        }
        proof {
            assert(slots.take(slots.len() as int) =~= slots);
        }
        Ok(Page { header_data, item_id_data, items, special: None })
    }
}

/// Chunked line-pointer decode agrees with `sp_decode_slots`.
proof fn lemma_slots_of_chunks(b: Seq<u8>, v: Seq<ItemIdData>)
    requires
        b.len() as int % 4 == 0,
        v.len() as int == b.len() as int / 4,
        forall|j: int| 0 <= j < v.len() ==> #[trigger] crate::codec::sp_elem_is_decode::<
            ItemIdData,
        >(b, v, j),
    ensures
        v =~= sp_decode_slots(b),
{
    assert forall|j: int| 0 <= j < v.len() implies v[j] == sp_decode_slots(b)[j] by {
        assert(crate::codec::sp_elem_is_decode::<ItemIdData>(b, v, j));
        assert(crate::codec::sp_chunk::<ItemIdData>(b, j) =~= b.subrange(4 * j, 4 * j + 4));
    }
}

} // verus!

verus! {

/// The free-space allocator's transition: what one successful
/// `reserve_tuple` call for `data_size` payload bytes does to a page. The
/// new tuple body is placed immediately below `pd_upper`, one Normal line
/// pointer covering it is appended at the end of the slot array, and the
/// free-space bounds move toward each other accordingly.
pub open spec fn sp_reserve_step(p0: Page, data_size: u16, p1: Page, lp: ItemIdData) -> bool {
    let ts = TUPLE_HEADER_SIZE as int + data_size as int;
    &&& p0.header_data.pd_upper - p0.header_data.pd_lower >= ts + ITEM_ID_SIZE as int
    &&& lp.sp_off() as int == p0.header_data.pd_upper - ts
    &&& lp.sp_len() as int == ts
    &&& lp.sp_flags() == 1
    &&& p1.header_data == (PageHeaderData {
        pd_lower: (p0.header_data.pd_lower + ITEM_ID_SIZE) as u16,
        pd_upper: (p0.header_data.pd_upper - ts) as u16,
        ..p0.header_data
    })
    &&& p1.item_id_data@ == p0.item_id_data@.push(lp)
    &&& p1.items == p0.items
    &&& p1.special == p0.special
}

impl Page {
    /// Reserves room for one tuple of `data_size` payload bytes: appends a
    /// Normal line pointer at `pd_lower` and carves the tuple body out of
    /// the top of the free space, or reports "no space" (and changes
    /// nothing) when the free space cannot hold the tuple and its line
    /// pointer.
    pub fn reserve_tuple(&mut self, data_size: u16) -> (r: Option<ItemIdData>)
        requires
            old(self).header_data.sp_wf(),
        ensures
            match r {
                Some(lp) => sp_reserve_step(*old(self), data_size, *final(self), lp)
                    && final(self).header_data.sp_wf(),
                None => *final(self) == *old(self) && old(self).header_data.pd_upper - old(
                    self,
                ).header_data.pd_lower < TUPLE_HEADER_SIZE as int + data_size as int
                    + ITEM_ID_SIZE as int,
            },
    {
        let tuple_size: u32 = TUPLE_HEADER_SIZE as u32 + data_size as u32;
        let free: u32 = (self.header_data.pd_upper - self.header_data.pd_lower) as u32;
        if free < tuple_size + ITEM_ID_SIZE as u32 {
            None
        } else {
            let ts = tuple_size as u16;
            let mut item_id = ItemIdData::default();
            item_id.set_lp_off(self.header_data.pd_upper - ts);
            item_id.set_lp_len(ts);
            item_id.set_lp_flags(1);
            self.item_id_data.push(item_id);
            self.header_data.pd_lower = self.header_data.pd_lower + ITEM_ID_SIZE;
            self.header_data.pd_upper = self.header_data.pd_upper - ts;
            Some(item_id)
        }
    }

    /// Compaction: converts every Dead slot in place to an Unused slot
    /// with no storage. Slot positions are deliberately not renumbered, so
    /// item pointers into this page stay valid; Normal slots and their
    /// tuples are untouched, and the freed slots become available for
    /// re-use. Mid-page tuple storage is not moved.
    pub fn vacuum(&mut self)
        ensures
            final(self).header_data == old(self).header_data,
            final(self).items == old(self).items,
            final(self).special == old(self).special,
            final(self).item_id_data@.len() == old(self).item_id_data@.len(),
            forall|j: int|
                0 <= j < old(self).item_id_data@.len() ==> #[trigger] final(self).item_id_data@[j]
                    == (if old(self).item_id_data@[j].sp_state() is Dead {
                    ItemIdData { lp: 0 }
                } else {
                    old(self).item_id_data@[j]
                }),
            forall|j: int|
                0 <= j < final(self).item_id_data@.len() ==> !(
                #[trigger] final(self).item_id_data@[j].sp_state() is Dead),
    {
        let ghost slots0 = self.item_id_data@;
        let mut k: usize = 0;
        while k < self.item_id_data.len()
            invariant
                self.header_data == old(self).header_data,
                self.items == old(self).items,
                self.special == old(self).special,
                slots0 == old(self).item_id_data@,
                self.item_id_data@.len() == slots0.len(),
                k <= slots0.len(),
                forall|j: int|
                    0 <= j < k ==> #[trigger] self.item_id_data@[j] == (if slots0[j].sp_state()
                        is Dead {
                        ItemIdData { lp: 0 }
                    } else {
                        slots0[j]
                    }),
                forall|j: int|
                    k <= j < slots0.len() ==> #[trigger] self.item_id_data@[j] == slots0[j],
            decreases slots0.len() - k,
        {
            let lp = self.item_id_data[k];
            match lp.flags() {
                LpFlags::Dead => {
                    self.item_id_data.set(k, ItemIdData { lp: 0 });
                },
                _ => {},
            }
            k = k + 1;
        }
        proof {
            assert forall|j: int|
                0 <= j < self.item_id_data@.len() implies !(
            #[trigger] self.item_id_data@[j].sp_state() is Dead) by {
                assert((0u32 >> 15) & 3 == 0) by (bit_vector);
                if slots0[j].sp_state() is Dead {
                    assert(self.item_id_data@[j] == ItemIdData { lp: 0 });
                }
            }
        }
    }
}

/// Law: a successful reservation keeps the header invariant, in
/// particular `pd_upper >= pd_lower`, and the new slot's byte range
/// `[offset, offset + length)` lies entirely inside the old free space,
/// ending exactly at the old `pd_upper`.
pub proof fn lemma_reserve_keeps_invariant(p0: Page, data_size: u16, p1: Page, lp: ItemIdData)
    requires
        p0.header_data.sp_wf(),
        sp_reserve_step(p0, data_size, p1, lp),
    ensures
        p1.header_data.sp_wf(),
        p1.header_data.pd_upper >= p1.header_data.pd_lower,
        p0.header_data.pd_lower <= lp.sp_off(),
        lp.sp_off() + lp.sp_len() == p0.header_data.pd_upper,
{
}

/// Law: the byte ranges of two successive successful reservations do not
/// overlap; the later one ends where the earlier one begins or lower.
pub proof fn lemma_reserve_ranges_disjoint(
    p0: Page,
    d1: u16,
    p1: Page,
    a: ItemIdData,
    d2: u16,
    p2: Page,
    b: ItemIdData,
)
    requires
        p0.header_data.sp_wf(),
        sp_reserve_step(p0, d1, p1, a),
        sp_reserve_step(p1, d2, p2, b),
    ensures
        b.sp_off() + b.sp_len() <= a.sp_off(),
{
}

} // verus!

