//! The lazy page: the decoded header plus the raw page body. Line
//! pointers and tuples are decoded on demand by slicing the body, so the
//! lazy form never eagerly allocates tuple values.
use vstd::prelude::*;
use vstd::bytes::u32_to_le_bytes;
use vstd::slice::{slice_subrange, slice_to_vec};

use crate::codec::{ByteEncodeError, ByteEncodeResult, ByteEncoded, ByteReader};
use crate::item_id::{sp_decode_item_id, ItemIdData, LpFlags};
use crate::page_header::{sp_decode_page_header, PageHeaderData};
use crate::tuple::{sp_decode_tuple, HeapTupleHeaderData};
use crate::Error;

verus! {

/// The error the lazy page decode reports for the page image beginning at
/// `pos0` of `b0`, when it fails: a short header, a page size smaller than
/// the header, or a short body.
pub open spec fn sp_lazy_decode_err(b0: Seq<u8>, pos0: int, e: ByteEncodeError) -> bool {
    let avail = b0.len() - pos0;
    if avail < 24 {
        e == (ByteEncodeError::NotEnoughBytes { expected: 24, actual: avail as usize })
    } else {
        let h = sp_decode_page_header(b0.subrange(pos0, pos0 + 24));
        let ps = h.sp_page_size();
        if ps < 24 {
            e == (ByteEncodeError::NotEnoughBytes { expected: 24, actual: ps as usize })
        } else {
            avail < ps && e == (ByteEncodeError::NotEnoughBytes {
                expected: (ps - 24) as usize,
                actual: (avail - 24) as usize,
            })
        }
    }
}

/// How many bytes of slot array the page body holds: the iteration limit
/// of the lazy tuple iterator.
pub open spec fn sp_lazy_limit(h: PageHeaderData) -> int {
    h.pd_lower - 24
}

/// The tuple image a line pointer references, sliced out of the page body
/// (offsets on the slot are relative to the page start, the body starts
/// after the 24-byte header).
pub open spec fn sp_lazy_tuple_bytes(body: Seq<u8>, lp: ItemIdData) -> Seq<u8> {
    body.subrange(lp.sp_off() - 24, lp.sp_off() - 24 + lp.sp_len())
}

/// Whether decoding the tuple a slot references must fail: the range
/// starts inside the header, runs past the body, or is too short for a
/// tuple header. The lazy iterator does not filter by slot state, so this
/// also covers the storage-less slot states, whose length 0 is short.
pub open spec fn sp_lazy_slot_bad(body: Seq<u8>, lp: ItemIdData) -> bool {
    lp.sp_off() < 24 || lp.sp_off() - 24 + lp.sp_len() > body.len() || lp.sp_len() < 23
}

/// The error the lazy iterator reports for a bad slot.
pub open spec fn sp_lazy_slot_err(body: Seq<u8>, lp: ItemIdData) -> ByteEncodeError {
    if lp.sp_off() < 24 {
        ByteEncodeError::NotEnoughBytes { expected: 24, actual: lp.sp_off() as usize }
    } else if lp.sp_off() - 24 + lp.sp_len() > body.len() {
        ByteEncodeError::NotEnoughBytes {
            expected: (lp.sp_off() - 24 + lp.sp_len()) as usize,
            actual: body.len() as usize,
        }
    } else {
        ByteEncodeError::NotEnoughBytes { expected: 23, actual: lp.sp_len() as usize }
    }
}

/// A page kept lazy: the header is decoded, the body stays raw.
#[derive(Debug, PartialEq, Eq, Clone)]
pub struct PageLazy {
    /// The fixed page header.
    pub header_data: PageHeaderData,
    /// The raw page body: everything after the header, `page size - 24`
    /// bytes.
    pub data: Vec<u8>,
}

impl PageLazy {
    /// A lazy page is well formed when its header invariant holds and the
    /// body has exactly the bytes the header's page size calls for.
    pub open spec fn sp_wf(&self) -> bool {
        &&& self.header_data.sp_wf()
        &&& self.data@.len() == self.header_data.sp_page_size() - 24
    }

    /// Decodes the header and keeps the rest of the page raw.
    pub fn from_reader(reader: &mut ByteReader<'_>) -> (r: ByteEncodeResult<PageLazy>)
        requires
            old(reader).wf(),
        ensures
            final(reader).wf(),
            final(reader).bytes() == old(reader).bytes(),
            ({
                let b0 = old(reader).bytes();
                let pos0 = old(reader).pos();
                match r {
                    Ok(p) => {
                        let h = sp_decode_page_header(b0.subrange(pos0, pos0 + 24));
                        let ps = h.sp_page_size();
                        &&& b0.len() - pos0 >= 24
                        &&& ps >= 24
                        &&& b0.len() - pos0 >= ps
                        &&& final(reader).pos() == pos0 + ps
                        &&& p.header_data == h
                        &&& p.data@ == b0.subrange(pos0 + 24, pos0 + ps)
                    },
                    Err(e) => sp_lazy_decode_err(b0, pos0, e),
                }
            }),
    {
        let header_buf = reader.read_exact(24)?;
        let header_data = match <PageHeaderData as ByteEncoded>::decode(header_buf) {
            Ok(h) => h,
            Err(e) => {
                proof {
                    assert(false);
                }
                return Err(e);
            },
        };
        let page_size = header_data.page_size();
        if page_size < 24 {
            return Err(ByteEncodeError::NotEnoughBytes { expected: 24, actual: page_size });
        }
        let body = reader.read_exact(page_size - 24)?;
        Ok(PageLazy { header_data, data: slice_to_vec(body) })
    }

    /// Whether this lazy page is well formed, as executable code: a page
    /// read from an untrusted source can be tested before its tuples are
    /// iterated or space is reserved on it.
    pub fn wf(&self) -> (r: bool)
        ensures
            r == self.sp_wf(),
    {
        self.header_data.wf() && self.data.len() == self.header_data.page_size() - 24
    }

    /// A fresh cursor over the `(line pointer, tuple)` pairs of this page.
    pub fn iter_tuples(&self) -> (r: PageLazyTuplesIter<'_>)
        ensures
            r.page == self,
            r.cursor == 0,
    {
        PageLazyTuplesIter { page: self, cursor: 0 }
    }
}

/// The on-demand tuple iterator over a lazy page. The cursor advances by
/// one line-pointer width per step until it reaches the end of the slot
/// array; each step decodes the line pointer at the cursor and then the
/// tuple it references.
///
/// The iterator does not filter by slot state: a slot whose state carries
/// no storage has length 0, its tuple decode fails, and the step yields an
/// error item. The cursor advances past an error, so each slot is
/// attempted exactly once and corrupted input is never re-read.
#[derive(Debug, PartialEq, Eq, Clone)]
pub struct PageLazyTuplesIter<'a> {
    /// The page being iterated.
    pub page: &'a PageLazy,
    /// Byte offset of the next line pointer within the page body.
    pub cursor: u16,
}

impl<'a> PageLazyTuplesIter<'a> {
    /// The next `(line pointer, tuple)` pair: `None` once the cursor has
    /// passed the slot array, an error item for a slot whose tuple cannot
    /// be decoded.
    pub fn next(&mut self) -> (r: Option<
        Result<(ItemIdData, HeapTupleHeaderData), Error>,
    >)
        requires
            old(self).page.sp_wf(),
        ensures
            final(self).page == old(self).page,
            ({
                let body = old(self).page.data@;
                let limit = sp_lazy_limit(old(self).page.header_data);
                let cur = old(self).cursor as int;
                match r {
                    None => cur >= limit && final(self).cursor == old(self).cursor,
                    Some(item) => {
                        &&& cur < limit
                        &&& final(self).cursor as int == cur + 4
                        &&& if cur + 4 > body.len() {
                            item == Err::<(ItemIdData, HeapTupleHeaderData), Error>(
                                Error::ByteEncoding(
                                    ByteEncodeError::NotEnoughBytes {
                                        expected: (cur + 4) as usize,
                                        actual: body.len() as usize,
                                    },
                                ),
                            )
                        } else {
                            let lp = sp_decode_item_id(body.subrange(cur, cur + 4));
                            if sp_lazy_slot_bad(body, lp) {
                                item == Err::<(ItemIdData, HeapTupleHeaderData), Error>(
                                    Error::ByteEncoding(sp_lazy_slot_err(body, lp)),
                                )
                            } else {
                                item matches Ok(pair) && pair.0 == lp && pair.1.sp_model()
                                    == sp_decode_tuple(sp_lazy_tuple_bytes(body, lp))
                            }
                        }
                    },
                }
            }),
    {
        let limit = self.page.header_data.pd_lower - 24;
        if self.cursor >= limit {
            return None;
        }
        let cursor = self.cursor as usize;
        self.cursor = self.cursor + 4;
        if cursor + 4 > self.page.data.len() {
            return Some(
                Err(
                    Error::ByteEncoding(
                        ByteEncodeError::NotEnoughBytes {
                            expected: cursor + 4,
                            actual: self.page.data.len(),
                        },
                    ),
                ),
            );
        }
        let slot_bytes = slice_subrange(self.page.data.as_slice(), cursor, cursor + 4);
        let item_id = match <ItemIdData as ByteEncoded>::decode(slot_bytes) {
            Ok(v) => v,
            Err(e) => {
                proof {
                    assert(false);
                }
                return Some(Err(Error::ByteEncoding(e)));
            },
        };
        let off = item_id.lp_off() as usize;
        let len = item_id.lp_len() as usize;
        let body_len = self.page.data.len();
        if off < 24 {
            return Some(
                Err(
                    Error::ByteEncoding(
                        ByteEncodeError::NotEnoughBytes { expected: 24, actual: off },
                    ),
                ),
            );
        }
        if off - 24 > body_len || len > body_len - (off - 24) {
            return Some(
                Err(
                    Error::ByteEncoding(
                        ByteEncodeError::NotEnoughBytes {
                            expected: off - 24 + len,
                            actual: body_len,
                        },
                    ),
                ),
            );
        }
        let tuple_bytes = slice_subrange(self.page.data.as_slice(), off - 24, off - 24 + len);
        match <HeapTupleHeaderData as ByteEncoded>::decode(tuple_bytes) {
            Ok(t) => Some(Ok((item_id, t))),
            Err(e) => Some(Err(Error::ByteEncoding(e))),
        }
    }
}

} // verus!

verus! {

/// The free-space allocator's transition on a lazy page: as on the
/// materialized page, but the new Normal line pointer is written into the
/// raw body at the end of the slot array instead of being appended to a
/// decoded slot vector.
pub open spec fn sp_lazy_reserve_step(
    p0: PageLazy,
    data_size: u16,
    p1: PageLazy,
    lp: ItemIdData,
) -> bool {
    let ts = crate::tuple::TUPLE_HEADER_SIZE as int + data_size as int;
    let base = p0.header_data.pd_lower - 24;
    &&& p0.header_data.pd_upper - p0.header_data.pd_lower >= ts + crate::page::ITEM_ID_SIZE as int
    &&& lp.sp_off() as int == p0.header_data.pd_upper - ts
    &&& lp.sp_len() as int == ts
    &&& lp.sp_flags() == 1
    &&& p1.header_data == (PageHeaderData {
        pd_lower: (p0.header_data.pd_lower + crate::page::ITEM_ID_SIZE) as u16,
        pd_upper: (p0.header_data.pd_upper - ts) as u16,
        ..p0.header_data
    })
    &&& p1.data@ == p0.data@.take(base) + lp.sp_encode() + p0.data@.skip(base + 4)
}

impl PageLazy {
    /// Reserves room for one tuple of `data_size` payload bytes: writes a
    /// Normal line pointer into the body at `pd_lower` and carves the
    /// tuple body out of the top of the free space, or reports "no space"
    /// (and changes nothing) when the free space cannot hold the tuple
    /// and its line pointer.
    pub fn reserve_tuple(&mut self, data_size: u16) -> (r: Option<ItemIdData>)
        requires
            old(self).sp_wf(),
        ensures
            match r {
                Some(lp) => sp_lazy_reserve_step(*old(self), data_size, *final(self), lp)
                    && final(self).sp_wf(),
                None => *final(self) == *old(self) && old(self).header_data.pd_upper - old(
                    self,
                ).header_data.pd_lower < crate::tuple::TUPLE_HEADER_SIZE as int + data_size as int
                    + crate::page::ITEM_ID_SIZE as int,
            },
    {
        let tuple_size: u32 = crate::tuple::TUPLE_HEADER_SIZE as u32 + data_size as u32;
        let free: u32 = (self.header_data.pd_upper - self.header_data.pd_lower) as u32;
        if free < tuple_size + crate::page::ITEM_ID_SIZE as u32 {
            None
        } else {
            let ts = tuple_size as u16;
            let mut item_id = ItemIdData::default();
            item_id.set_lp_off(self.header_data.pd_upper - ts);
            item_id.set_lp_len(ts);
            item_id.set_lp_flags(1);
            let enc = u32_to_le_bytes(item_id.lp);
            let base = (self.header_data.pd_lower - 24) as usize;
            let ghost data0 = self.data@;
            self.data.set(base, enc[0]);
            self.data.set(base + 1, enc[1]);
            self.data.set(base + 2, enc[2]);
            self.data.set(base + 3, enc[3]);
            proof {
                assert(self.data@ =~= data0.take(base as int) + item_id.sp_encode() + data0.skip(
                    base + 4,
                ));
            }
            self.header_data.pd_lower = self.header_data.pd_lower + crate::page::ITEM_ID_SIZE;
            self.header_data.pd_upper = self.header_data.pd_upper - ts;
            Some(item_id)
        }
    }

    /// Compaction: converts every Dead slot in the body's slot array in
    /// place to an Unused slot with no storage. Slot positions are
    /// deliberately not renumbered, so item pointers into this page stay
    /// valid; all other bytes of the body, tuple storage included, are
    /// untouched.
    #[verifier::loop_isolation(false)]
    pub fn vacuum(&mut self)
        requires
            old(self).sp_wf(),
        ensures
            final(self).header_data == old(self).header_data,
            final(self).sp_wf(),
            final(self).data@.len() == old(self).data@.len(),
            forall|i: int|
                4 * sp_lazy_slot_count(old(self).header_data) <= i < old(self).data@.len()
                    ==> final(self).data@[i] == old(self).data@[i],
            forall|k: int|
                0 <= k < sp_lazy_slot_count(old(self).header_data)
                    ==> #[trigger] final(self).data@.subrange(4 * k, 4 * k + 4) == (if sp_decode_item_id(
                    old(self).data@.subrange(4 * k, 4 * k + 4),
                ).sp_state() is Dead {
                    (ItemIdData { lp: 0 }).sp_encode()
                } else {
                    old(self).data@.subrange(4 * k, 4 * k + 4)
                }),
            forall|k: int|
                0 <= k < sp_lazy_slot_count(old(self).header_data) ==> !(sp_decode_item_id(
                    #[trigger] final(self).data@.subrange(4 * k, 4 * k + 4),
                ).sp_state() is Dead),
    {
        let count = (self.header_data.pd_lower as usize - 24) / 4;
        let ghost data0 = self.data@;
        proof {
            assert(4 * sp_lazy_slot_count(self.header_data) <= self.header_data.pd_lower - 24);
        }
        let mut k: usize = 0;
        while k < count
            invariant
                self.header_data == old(self).header_data,
                self.data@.len() == data0.len(),
                k <= count,
                forall|i: int| 4 * count <= i < data0.len() ==> self.data@[i] == data0[i],
                forall|i: int| 4 * k <= i < data0.len() ==> self.data@[i] == data0[i],
                forall|j: int|
                    0 <= j < k ==> #[trigger] self.data@.subrange(4 * j, 4 * j + 4) == (if sp_decode_item_id(
                        data0.subrange(4 * j, 4 * j + 4),
                    ).sp_state() is Dead {
                        (ItemIdData { lp: 0 }).sp_encode()
                    } else {
                        data0.subrange(4 * j, 4 * j + 4)
                    }),
            decreases count - k,
        {
            let base = 4 * k;
            let slot_bytes = slice_subrange(self.data.as_slice(), base, base + 4);
            proof {
                assert(slot_bytes@ =~= data0.subrange(4 * k as int, 4 * k as int + 4));
            }
            let item_id = match <ItemIdData as ByteEncoded>::decode(slot_bytes) {
                Ok(v) => v,
                Err(e) => {
                    proof {
                        assert(false);
                    }
                    return ;
                },
            };
            let ghost before = self.data@;
            match item_id.flags() {
                LpFlags::Dead => {
                    let zero = u32_to_le_bytes(0);
                    self.data.set(base, zero[0]);
                    self.data.set(base + 1, zero[1]);
                    self.data.set(base + 2, zero[2]);
                    self.data.set(base + 3, zero[3]);
                    proof {
                        assert(self.data@.subrange(4 * k as int, 4 * k as int + 4)
                            =~= (ItemIdData { lp: 0 }).sp_encode());
                    }
                },
                _ => {},
            }
            proof {
                assert forall|j: int| 0 <= j < k + 1 implies #[trigger] self.data@.subrange(
                    4 * j,
                    4 * j + 4,
                ) == (if sp_decode_item_id(data0.subrange(4 * j, 4 * j + 4)).sp_state() is Dead {
                    (ItemIdData { lp: 0 }).sp_encode()
                } else {
                    data0.subrange(4 * j, 4 * j + 4)
                }) by {
                    if j < k {
                        assert(self.data@.subrange(4 * j, 4 * j + 4) =~= before.subrange(
                            4 * j,
                            4 * j + 4,
                        ));
                    } else {
                        assert(self.data@.subrange(4 * j, 4 * j + 4) =~= self.data@.subrange(
                            4 * k as int,
                            4 * k as int + 4,
                        ));
                    }
                }
            }
            k = k + 1;
        }
        proof {
            assert forall|k2: int|
                0 <= k2 < sp_lazy_slot_count(old(self).header_data) implies !(sp_decode_item_id(
                #[trigger] self.data@.subrange(4 * k2, 4 * k2 + 4),
            ).sp_state() is Dead) by {
                vstd::bytes::lemma_auto_spec_u32_to_from_le_bytes();
                assert(vstd::bytes::spec_u32_to_le_bytes(0u32).len() == 4);
                assert(sp_decode_item_id((ItemIdData { lp: 0 }).sp_encode()) == (ItemIdData {
                    lp: 0,
                }));
                assert((0u32 >> 15) & 3 == 0) by (bit_vector);
                if sp_decode_item_id(data0.subrange(4 * k2, 4 * k2 + 4)).sp_state() is Dead {
                    assert(self.data@.subrange(4 * k2, 4 * k2 + 4) == (ItemIdData {
                        lp: 0,
                    }).sp_encode());
                }
            }
        }
    }
}

/// How many whole line pointers the slot array holds.
pub open spec fn sp_lazy_slot_count(h: PageHeaderData) -> int {
    (h.pd_lower - 24) / 4
}

} // verus!

verus! {

/// The line pointers the lazy iterator walks: dense 4-byte chunks of the
/// body up to the iteration limit.
pub open spec fn sp_lazy_slots(h: PageHeaderData, body: Seq<u8>) -> Seq<ItemIdData> {
    crate::page::sp_decode_slots(body.take(sp_lazy_limit(h)))
}

/// The `(line pointer, tuple)` pairs the lazy iterator yields `Ok` for
/// the Normal slots of a page, in slot order.
pub open spec fn sp_lazy_normal_pairs(h: PageHeaderData, body: Seq<u8>) -> Seq<
    (ItemIdData, crate::tuple::TupleModel),
> {
    sp_lazy_slots(h, body).filter(|lp: ItemIdData| lp.sp_is_normal()).map_values(
        |lp: ItemIdData| (lp, sp_decode_tuple(sp_lazy_tuple_bytes(body, lp))),
    )
}

/// Elements kept by a filter inherit any property that all elements of
/// the sequence had.
proof fn lemma_filter_elems<A>(s: Seq<A>, pred: spec_fn(A) -> bool, prop: spec_fn(A) -> bool)
    requires
        forall|j: int| 0 <= j < s.len() ==> #[trigger] prop(s[j]),
    ensures
        forall|i: int| 0 <= i < s.filter(pred).len() ==> #[trigger] prop(s.filter(pred)[i]),
    decreases s.len(),
{
    reveal(Seq::filter);
    if s.len() > 0 {
        let d = s.drop_last();
        assert(forall|j: int| 0 <= j < d.len() ==> #[trigger] prop(d[j]));
        lemma_filter_elems(d, pred, prop);
        assert(prop(s.last()));
        if pred(s.last()) {
            assert(s.filter(pred) == d.filter(pred).push(s.last()));
        }
    }
}

/// Law: lazy versus eager equivalence. For a page image that decodes
/// eagerly, the lazy iterator walks exactly the eager slot array, and the
/// pairs it yields for the Normal slots carry the same line pointers and,
/// field for field, the same tuples as the eager decode, in the same
/// order.
pub proof fn lemma_lazy_eager_equivalence(pb: Seq<u8>)
    requires
        crate::page::sp_page_decodable(pb),
    ensures
        ({
            let h = crate::page::sp_page_header_of(pb);
            let body = pb.skip(24);
            let pairs = sp_lazy_normal_pairs(h, body);
            &&& sp_lazy_slots(h, body) == crate::page::sp_page_slots(pb)
            &&& pairs.map_values(|p: (ItemIdData, crate::tuple::TupleModel)| p.0)
                == crate::page::sp_page_slots(pb).filter(|lp: ItemIdData| lp.sp_is_normal())
            &&& pairs.map_values(|p: (ItemIdData, crate::tuple::TupleModel)| p.1)
                == crate::page::sp_page_tuples(pb)
        }),
{
    let h = crate::page::sp_page_header_of(pb);
    let body = pb.skip(24);
    assert(body.take(sp_lazy_limit(h)) =~= pb.subrange(24, h.pd_lower as int));
    assert(sp_lazy_slots(h, body) == crate::page::sp_page_slots(pb));
    let slots = crate::page::sp_page_slots(pb);
    let normal = |lp: ItemIdData| lp.sp_is_normal();
    let good = |lp: ItemIdData| !crate::page::sp_slot_bad(pb, lp);
    let flt = slots.filter(normal);
    assert(forall|j: int| 0 <= j < slots.len() ==> #[trigger] good(slots[j]));
    lemma_filter_elems(slots, normal, good);
    let pairs = sp_lazy_normal_pairs(h, body);
    assert(pairs.map_values(|p: (ItemIdData, crate::tuple::TupleModel)| p.0) =~= flt);
    assert forall|i: int| 0 <= i < flt.len() implies pairs.map_values(
        |p: (ItemIdData, crate::tuple::TupleModel)| p.1,
    )[i] == crate::page::sp_page_tuples(pb)[i] by {
        let lp = flt[i];
        slots.lemma_filter_pred(normal, i);
        assert(good(lp));
        assert(sp_lazy_tuple_bytes(body, lp) =~= crate::page::sp_tuple_bytes(pb, lp));
    }
    assert(pairs.map_values(|p: (ItemIdData, crate::tuple::TupleModel)| p.1)
        =~= crate::page::sp_page_tuples(pb));
}

} // verus!

verus! {

/// Law: a successful lazy reservation keeps the header invariant, in
/// particular `pd_upper >= pd_lower`, and the new slot's byte range lies
/// entirely inside the old free space, ending exactly at the old
/// `pd_upper`.
pub proof fn lemma_lazy_reserve_keeps_invariant(
    p0: PageLazy,
    data_size: u16,
    p1: PageLazy,
    lp: ItemIdData,
)
    requires
        p0.sp_wf(),
        sp_lazy_reserve_step(p0, data_size, p1, lp),
    ensures
        p1.header_data.sp_wf(),
        p1.header_data.pd_upper >= p1.header_data.pd_lower,
        p0.header_data.pd_lower <= lp.sp_off(),
        lp.sp_off() + lp.sp_len() == p0.header_data.pd_upper,
{
}

/// Law: the byte ranges of two successive successful lazy reservations do
/// not overlap; the later one ends where the earlier one begins or lower.
pub proof fn lemma_lazy_reserve_ranges_disjoint(
    p0: PageLazy,
    d1: u16,
    p1: PageLazy,
    a: ItemIdData,
    d2: u16,
    p2: PageLazy,
    b: ItemIdData,
)
    requires
        p0.sp_wf(),
        sp_lazy_reserve_step(p0, d1, p1, a),
        sp_lazy_reserve_step(p1, d2, p2, b),
    ensures
        b.sp_off() + b.sp_len() <= a.sp_off(),
{
}

} // verus!
