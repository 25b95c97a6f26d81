//! The multi-page stream reader: walks a byte source of pages
//! sequentially or by explicit seek, discovers each page's size from its
//! header, filters pages by a header predicate without materializing
//! their bodies, and tracks a logical cursor independent of the source's
//! own position.
//!
//! Hitting the end of the input while looking for the next page header,
//! or finding the last page's body truncated (a likely trailing partial
//! write), is the designed termination signal: the reader ends cleanly
//! with "no page" rather than an error.
use vstd::prelude::*;
use vstd::slice::{slice_subrange, slice_to_vec};

use crate::codec::{ByteEncodeError, ByteEncodeResult, ByteEncoded};
use crate::page_header::{sp_decode_page_header, PageHeaderData};
use crate::page_lazy::PageLazy;

verus! {

/// Positions `from` and `to` of the byte source are linked by a chain of
/// whole pages, each of whose headers the filter may reject.
pub open spec fn sp_skipped_chain<F: Fn(&PageHeaderData) -> bool>(
    f: F,
    data: Seq<u8>,
    from: int,
    to: int,
) -> bool
    decreases to - from,
{
    if from == to {
        true
    } else if from > to || from + 24 > data.len() {
        false
    } else {
        let h = sp_decode_page_header(data.subrange(from, from + 24));
        let ps = h.sp_page_size();
        if ps >= 24 && from + ps <= to {
            f.ensures((&h,), false) && sp_skipped_chain(f, data, from + ps, to)
        } else {
            false
        }
    }
}

/// What one page-read attempt at position `pos0` of the source does:
/// clean end on end-of-input or a truncated body, an error on a partial
/// header or an impossible page size, otherwise one lazy page and an
/// advance by the page's size.
pub open spec fn sp_one_page_outcome(
    data: Seq<u8>,
    pos0: int,
    cur0: int,
    pos1: int,
    cur1: int,
    ended1: bool,
    r: ByteEncodeResult<Option<PageLazy>>,
) -> bool {
    let len = data.len() as int;
    let h = sp_decode_page_header(data.subrange(pos0, pos0 + 24));
    let ps = h.sp_page_size();
    match r {
        Ok(Some(p)) => {
            &&& pos0 + 24 <= len
            &&& ps >= 24
            &&& pos0 + ps <= len
            &&& p.header_data == h
            &&& p.data@ == data.subrange(pos0 + 24, pos0 + ps)
            &&& pos1 == pos0 + ps
            &&& cur1 == cur0 + ps
            &&& !ended1
        },
        Ok(None) => {
            ||| (pos0 >= len && ended1 && pos1 == pos0 && cur1 == cur0)
            ||| (pos0 + 24 <= len && ps >= 24 && pos0 + ps > len && ended1 && pos1 == pos0 + 24
                && cur1 == cur0)
        },
        Err(e) => {
            ||| (pos0 < len < pos0 + 24 && e == (ByteEncodeError::NotEnoughBytes {
                expected: 24,
                actual: (len - pos0) as usize,
            }))
            ||| (pos0 + 24 <= len && ps < 24 && e == (ByteEncodeError::NotEnoughBytes {
                expected: 24,
                actual: ps as usize,
            }))
        },
    }
}

/// What a filtered page read does to the reader: if it was already ended
/// nothing happens and no page comes; otherwise some chain of rejected
/// pages is skipped and one page-read attempt is made where the chain
/// ends, on a page whose header the filter accepted if one is yielded.
pub open spec fn sp_filtered_read_post<F: Fn(&PageHeaderData) -> bool>(
    filter: F,
    s0: PageReader,
    s1: PageReader,
    r: ByteEncodeResult<Option<PageLazy>>,
) -> bool {
    &&& s1.sp_bytes() == s0.sp_bytes()
    &&& (s0.sp_ended() ==> r == Ok::<Option<PageLazy>, ByteEncodeError>(None) && s1 == s0)
    &&& (!s0.sp_ended() ==> exists|mid: int|
        {
            &&& #[trigger] sp_skipped_chain(filter, s0.sp_bytes(), s0.sp_pos(), mid)
            &&& sp_one_page_outcome(
                s0.sp_bytes(),
                mid,
                s0.sp_cursor() + (mid - s0.sp_pos()),
                s1.sp_pos(),
                s1.sp_cursor(),
                s1.sp_ended(),
                r,
            )
            &&& (r matches Ok(Some(p)) ==> filter.ensures(
                (&sp_decode_page_header(s0.sp_bytes().subrange(mid, mid + 24)),),
                true,
            ))
        })
}

/// A sequential page reader over a byte source, with an explicit seek and
/// a logical cursor. Once ended, it stays ended and yields no more pages.
pub struct PageReader {
    data: Vec<u8>,
    pos: u64,
    cursor: u64,
    ended: bool,
}

impl PageReader {
    /// The whole byte source.
    pub closed spec fn sp_bytes(&self) -> Seq<u8> {
        self.data@
    }

    /// The source's own read position.
    pub closed spec fn sp_pos(&self) -> int {
        self.pos as int
    }

    /// The logical cursor: how many bytes of pages have been walked, as
    /// tracked for the caller.
    pub closed spec fn sp_cursor(&self) -> int {
        self.cursor as int
    }

    /// Whether the reader has reached its terminal state.
    pub closed spec fn sp_ended(&self) -> bool {
        self.ended
    }

    /// Room to advance once past the end without overflowing the position
    /// or the cursor; a page size never exceeds `0xff00`.
    pub open spec fn sp_can_advance(&self) -> bool {
        &&& self.sp_pos() + self.sp_bytes().len() + 0x10000 <= u64::MAX
        &&& self.sp_cursor() + self.sp_bytes().len() + 0x10000 <= u64::MAX
    }

    pub fn new(data: Vec<u8>) -> (r: PageReader)
        ensures
            r.sp_bytes() == data@,
            r.sp_pos() == 0,
            r.sp_cursor() == 0,
            !r.sp_ended(),
    {
        PageReader { data, pos: 0, cursor: 0, ended: false }
    }

    /// The logical cursor, a byte offset from the start of the source.
    pub fn cursor(&self) -> (r: u64)
        ensures
            r as int == self.sp_cursor(),
    {
        self.cursor
    }

    /// Repositions the source and the logical cursor to an absolute byte
    /// offset. An in-memory source accepts any offset, as a file seek
    /// would.
    pub fn seek(&mut self, offset: u64) -> (r: ByteEncodeResult<()>)
        ensures
            r is Ok,
            final(self).sp_bytes() == old(self).sp_bytes(),
            final(self).sp_pos() == offset,
            final(self).sp_cursor() == offset,
            final(self).sp_ended() == old(self).sp_ended(),
    {
        self.pos = offset;
        self.cursor = offset;
        Ok(())
    }

    /// Moves the source position and the logical cursor by a relative
    /// byte offset.
    pub fn seek_relative(&mut self, offset: i64) -> (r: ByteEncodeResult<()>)
        requires
            0 <= old(self).sp_pos() + offset <= u64::MAX,
            0 <= old(self).sp_cursor() + offset <= u64::MAX,
        ensures
            r is Ok,
            final(self).sp_bytes() == old(self).sp_bytes(),
            final(self).sp_pos() == old(self).sp_pos() + offset,
            final(self).sp_cursor() == old(self).sp_cursor() + offset,
            final(self).sp_ended() == old(self).sp_ended(),
    {
        if offset >= 0 {
            self.pos = self.pos + (offset as u64);
            self.cursor = self.cursor + (offset as u64);
        } else {
            let back = (-(offset as i128)) as u64;
            self.pos = self.pos - back;
            self.cursor = self.cursor - back;
        }
        Ok(())
    }

    /// Reads the next page whose header the filter accepts, skipping the
    /// bodies of rejected pages without materializing them. Yields no
    /// page, and ends the reader, on a clean end of input or a truncated
    /// body; propagates a partial header or an impossible page size as an
    /// error.
    #[verifier::loop_isolation(false)]
    pub fn read_next_page_filtered<F: Fn(&PageHeaderData) -> bool>(
        &mut self,
        filter: F,
    ) -> (r: ByteEncodeResult<Option<PageLazy>>)
        requires
            old(self).sp_can_advance(),
            forall|h: PageHeaderData| filter.requires((&h,)),
        ensures
            sp_filtered_read_post(filter, *old(self), *final(self), r),
    {
        if self.ended {
            return Ok(None);
        }
        let ghost data = self.data@;
        let ghost pos0 = self.pos as int;
        let ghost cur0 = self.cursor as int;
        loop
            invariant
                self.data@ == data,
                !self.ended,
                pos0 <= self.pos as int,
                self.cursor as int == cur0 + (self.pos as int - pos0),
                sp_skipped_chain(filter, data, pos0, self.pos as int),
                self.pos as int == pos0 || self.pos as int <= data.len() + 0xff00,
            decreases data.len() + 0xff00 - self.pos as int,
        {
            let ghost mid = self.pos as int;
            let len = self.data.len();
            if self.pos >= len as u64 {
                self.ended = true;
                return Ok(None);
            }
            let start = self.pos as usize;
            if len - start < 24 {
                return Err(ByteEncodeError::NotEnoughBytes { expected: 24, actual: len - start });
            }
            let header_buf = slice_subrange(self.data.as_slice(), start, start + 24);
            let header_data = match <PageHeaderData as ByteEncoded>::decode(header_buf) {
                Ok(h) => h,
                Err(e) => {
                    proof {
                        assert(false);
                    }
                    return Err(e);
                },
            };
            let page_size = header_data.page_size();
            proof {
                let ghost w = header_data.pd_pagesize_version;
                assert(w & 0xff00 <= 0xff00) by (bit_vector);
            }
            if page_size < 24 {
                return Err(ByteEncodeError::NotEnoughBytes { expected: 24, actual: page_size });
            }
            if !filter(&header_data) {
                self.pos = self.pos + page_size as u64;
                self.cursor = self.cursor + page_size as u64;
                proof {
                    lemma_chain_snoc(filter, data, pos0, mid, self.pos as int);
                }
                continue ;
            }
            if page_size > len - start {
                self.pos = self.pos + 24;
                self.ended = true;
                return Ok(None);
            }
            let body = slice_subrange(self.data.as_slice(), start + 24, start + page_size);
            self.pos = self.pos + page_size as u64;
            self.cursor = self.cursor + page_size as u64;
            return Ok(Some(PageLazy { header_data, data: slice_to_vec(body) }));
        }
    }

    /// Reads the next page, whatever its header says.
    pub fn read_next_page(&mut self) -> (r: ByteEncodeResult<Option<PageLazy>>)
        requires
            old(self).sp_can_advance(),
        ensures
            final(self).sp_bytes() == old(self).sp_bytes(),
            old(self).sp_ended() ==> r == Ok::<Option<PageLazy>, ByteEncodeError>(None)
                && *final(self) == *old(self),
            !old(self).sp_ended() ==> sp_one_page_outcome(
                old(self).sp_bytes(),
                old(self).sp_pos(),
                old(self).sp_cursor(),
                final(self).sp_pos(),
                final(self).sp_cursor(),
                final(self).sp_ended(),
                r,
            ),
    {
        let ghost pos0 = self.pos as int;
        let accept_all = (|_h: &PageHeaderData| -> (b: bool)
            ensures
                b,
            { true });
        let r = self.read_next_page_filtered(accept_all);
        proof {
            if !old(self).sp_ended() {
                let data = old(self).sp_bytes();
                assert forall|mid: int| #[trigger] sp_skipped_chain(
                    accept_all,
                    data,
                    pos0,
                    mid,
                ) implies mid == pos0 by {
                    if mid != pos0 {
                        lemma_chain_first_rejected(accept_all, data, pos0, mid);
                        assert(false);
                    }
                }
            }
        }
        r
    }

    /// Seeks to an absolute byte offset and reads the single page there.
    /// The logical cursor is deliberately left alone by the seek, as it
    /// tracks sequential consumption only.
    pub fn read_page_at(&mut self, offset: u64) -> (r: ByteEncodeResult<Option<PageLazy>>)
        requires
            offset + old(self).sp_bytes().len() + 0x10000 <= u64::MAX,
            old(self).sp_cursor() + old(self).sp_bytes().len() + 0x10000 <= u64::MAX,
        ensures
            final(self).sp_bytes() == old(self).sp_bytes(),
            old(self).sp_ended() ==> r == Ok::<Option<PageLazy>, ByteEncodeError>(None)
                && final(self).sp_pos() == offset && final(self).sp_cursor() == old(
                self,
            ).sp_cursor() && final(self).sp_ended(),
            !old(self).sp_ended() ==> sp_one_page_outcome(
                old(self).sp_bytes(),
                offset as int,
                old(self).sp_cursor(),
                final(self).sp_pos(),
                final(self).sp_cursor(),
                final(self).sp_ended(),
                r,
            ),
    {
        self.pos = offset;
        self.read_next_page()
    }
}

/// A non-trivial skip chain begins with a page whose header the filter
/// rejected.
proof fn lemma_chain_first_rejected<F: Fn(&PageHeaderData) -> bool>(
    f: F,
    data: Seq<u8>,
    from: int,
    to: int,
)
    requires
        sp_skipped_chain(f, data, from, to),
        from != to,
    ensures
        from < to && from + 24 <= data.len() && f.ensures(
            (&sp_decode_page_header(data.subrange(from, from + 24)),),
            false,
        ),
{
}

/// A rejected whole page appended at the end of a skip chain extends the
/// chain.
proof fn lemma_chain_snoc<F: Fn(&PageHeaderData) -> bool>(
    f: F,
    data: Seq<u8>,
    from: int,
    mid: int,
    to: int,
)
    requires
        sp_skipped_chain(f, data, from, mid),
        mid + 24 <= data.len(),
        ({
            let h = sp_decode_page_header(data.subrange(mid, mid + 24));
            let ps = h.sp_page_size();
            ps >= 24 && to == mid + ps && f.ensures((&h,), false)
        }),
    ensures
        sp_skipped_chain(f, data, from, to),
    decreases mid - from,
{
    assert(sp_skipped_chain(f, data, to, to));
    if from == mid {
        assert(sp_skipped_chain(f, data, mid, to));
    } else {
        let h0 = sp_decode_page_header(data.subrange(from, from + 24));
        let ps0 = h0.sp_page_size();
        lemma_chain_snoc(f, data, from + ps0, mid, to);
    }
}

} // verus!

verus! {

/// An iterating adapter over a `PageReader`, with a swappable header
/// filter and a swappable pre-run hook that is handed the current cursor
/// before each page attempt (callers use it for progress reporting).
pub struct PageReaderIter<F, P> {
    /// The underlying page reader.
    pub reader: PageReader,
    /// The header predicate: pages whose header it rejects are skipped.
    pub filter: F,
    /// The side-effect hook run with the cursor before each attempt.
    pub prerun: P,
}

impl PageReaderIter<(), ()> {
    /// An adapter that accepts every page and runs no hook.
    pub fn new(reader: PageReader) -> (r: PageReaderIter<
        impl Fn(&PageHeaderData) -> bool,
        impl Fn(u64),
    >)
        ensures
            r.reader == reader,
            forall|h: PageHeaderData| r.filter.requires((&h,)),
            forall|h: PageHeaderData, b: bool| r.filter.ensures((&h,), b) ==> b,
            forall|c: u64| r.prerun.requires((c,)),
    {
        let filter = (|_h: &PageHeaderData| -> (b: bool)
            ensures
                b,
            { true });
        let prerun = (|_c: u64| {
        });
        PageReaderIter { reader, filter, prerun }
    }
}

impl<F: Fn(&PageHeaderData) -> bool, P: Fn(u64)> PageReaderIter<F, P> {
    /// The same adapter with another pre-run hook.
    pub fn with_prerun<P2: Fn(u64)>(self, prerun: P2) -> (r: PageReaderIter<F, P2>)
        ensures
            r.reader == self.reader,
            r.filter == self.filter,
            r.prerun == prerun,
    {
        PageReaderIter { reader: self.reader, filter: self.filter, prerun }
    }

    /// The same adapter with another header filter.
    pub fn with_filter<F2: Fn(&PageHeaderData) -> bool>(self, filter: F2) -> (r: PageReaderIter<
        F2,
        P,
    >)
        ensures
            r.reader == self.reader,
            r.filter == filter,
            r.prerun == self.prerun,
    {
        PageReaderIter { reader: self.reader, filter, prerun: self.prerun }
    }

    /// The next page the filter accepts: `None` once the reader has
    /// ended, an error item where the reader failed. The hook sees the
    /// cursor first.
    pub fn next(&mut self) -> (r: Option<ByteEncodeResult<PageLazy>>)
        requires
            old(self).reader.sp_can_advance(),
            forall|h: PageHeaderData| old(self).filter.requires((&h,)),
            forall|c: u64| old(self).prerun.requires((c,)),
        ensures
            final(self).filter == old(self).filter,
            final(self).prerun == old(self).prerun,
            ({
                let r0: ByteEncodeResult<Option<PageLazy>> = match r {
                    None => Ok(None),
                    Some(Ok(p)) => Ok(Some(p)),
                    Some(Err(e)) => Err(e),
                };
                sp_filtered_read_post(
                    &old(self).filter,
                    old(self).reader,
                    final(self).reader,
                    r0,
                )
            }),
    {
        let c = self.reader.cursor();
        (self.prerun)(c);
        match self.reader.read_next_page_filtered(&self.filter) {
            Ok(Some(p)) => Some(Ok(p)),
            Ok(None) => None,
            Err(e) => Some(Err(e)),
        }
    }
}

} // verus!

verus! {

/// A filter is unambiguous when no header admits both verdicts: what it
/// rejected it did not also accept.
pub open spec fn sp_filter_pure<F: Fn(&PageHeaderData) -> bool>(f: F) -> bool {
    forall|h: PageHeaderData| #[trigger] f.ensures((&h,), false) ==> !f.ensures((&h,), true)
}

/// The byte source holds a whole number of well-formed pages from `pos`
/// to its end.
pub open spec fn sp_well_formed_file(data: Seq<u8>, pos: int) -> bool
    decreases data.len() - pos,
{
    if pos == data.len() {
        true
    } else if pos > data.len() || pos + 24 > data.len() {
        false
    } else {
        let h = sp_decode_page_header(data.subrange(pos, pos + 24));
        let ps = h.sp_page_size();
        if ps >= 24 && pos + ps <= data.len() {
            sp_well_formed_file(data, pos + ps)
        } else {
            false
        }
    }
}

/// The headers of the pages from `pos` on that the filter accepts, in
/// file order.
pub open spec fn sp_accepted_headers<F: Fn(&PageHeaderData) -> bool>(
    f: F,
    data: Seq<u8>,
    pos: int,
) -> Seq<PageHeaderData>
    decreases data.len() - pos,
{
    if pos >= data.len() || pos + 24 > data.len() {
        seq![]
    } else {
        let h = sp_decode_page_header(data.subrange(pos, pos + 24));
        let ps = h.sp_page_size();
        if ps >= 24 && pos + ps <= data.len() {
            let rest = sp_accepted_headers(f, data, pos + ps);
            if f.ensures((&h,), true) {
                seq![h] + rest
            } else {
                rest
            }
        } else {
            seq![]
        }
    }
}

/// Over a well-formed file, skipping a chain of rejected pages lands on a
/// page boundary and drops no accepted page: the accepted headers ahead
/// are unchanged.
proof fn lemma_chain_skips_rejected<F: Fn(&PageHeaderData) -> bool>(
    f: F,
    data: Seq<u8>,
    from: int,
    to: int,
)
    requires
        sp_filter_pure(f),
        sp_well_formed_file(data, from),
        sp_skipped_chain(f, data, from, to),
    ensures
        sp_well_formed_file(data, to),
        to <= data.len(),
        sp_accepted_headers(f, data, to) == sp_accepted_headers(f, data, from),
    decreases to - from,
{
    if from != to {
        let h = sp_decode_page_header(data.subrange(from, from + 24));
        let ps = h.sp_page_size();
        lemma_chain_skips_rejected(f, data, from + ps, to);
    }
}

/// Law: over a source that is a whole number of pages, a filtered read
/// with an unambiguous filter never errs. It yields exactly the first
/// remaining page whose header the filter accepts, leaving behind
/// precisely the accepted pages after it — so repeated calls yield the
/// accepted pages in file order, none skipped and none repeated — and the
/// logical cursor keeps pace with the bytes walked. Once no accepted page
/// remains, the call yields no page, ends the reader, and leaves the
/// cursor advanced past every remaining page: after full consumption it
/// has moved by the sum of all the pages' sizes.
pub proof fn lemma_filtered_reads_in_order<F: Fn(&PageHeaderData) -> bool>(
    f: F,
    s0: PageReader,
    s1: PageReader,
    r: ByteEncodeResult<Option<PageLazy>>,
)
    requires
        sp_filter_pure(f),
        !s0.sp_ended(),
        sp_well_formed_file(s0.sp_bytes(), s0.sp_pos()),
        sp_filtered_read_post(f, s0, s1, r),
    ensures
        ({
            let expected = sp_accepted_headers(f, s0.sp_bytes(), s0.sp_pos());
            match r {
                Ok(Some(p)) => {
                    &&& expected.len() > 0
                    &&& p.header_data == expected[0]
                    &&& !s1.sp_ended()
                    &&& sp_well_formed_file(s1.sp_bytes(), s1.sp_pos())
                    &&& sp_accepted_headers(f, s1.sp_bytes(), s1.sp_pos())
                        == expected.drop_first()
                    &&& s1.sp_cursor() - s0.sp_cursor() == s1.sp_pos() - s0.sp_pos()
                },
                Ok(None) => expected.len() == 0 && s1.sp_ended() && s1.sp_cursor() == s0.sp_cursor()
                    + (s0.sp_bytes().len() - s0.sp_pos()),
                Err(e) => false,
            }
        }),
{
    let data = s0.sp_bytes();
    let pos0 = s0.sp_pos();
    let expected = sp_accepted_headers(f, data, pos0);
    assert forall|mid: int|
        (#[trigger] sp_skipped_chain(f, data, pos0, mid) && sp_one_page_outcome(
            data,
            mid,
            s0.sp_cursor() + (mid - pos0),
            s1.sp_pos(),
            s1.sp_cursor(),
            s1.sp_ended(),
            r,
        ) && (r matches Ok(Some(p)) ==> f.ensures(
            (&sp_decode_page_header(data.subrange(mid, mid + 24)),),
            true,
        ))) implies ({
        match r {
            Ok(Some(p)) => {
                &&& expected.len() > 0
                &&& p.header_data == expected[0]
                &&& !s1.sp_ended()
                &&& sp_well_formed_file(s1.sp_bytes(), s1.sp_pos())
                &&& sp_accepted_headers(f, s1.sp_bytes(), s1.sp_pos()) == expected.drop_first()
                &&& s1.sp_cursor() - s0.sp_cursor() == s1.sp_pos() - s0.sp_pos()
            },
            Ok(None) => expected.len() == 0 && s1.sp_ended() && s1.sp_cursor() == s0.sp_cursor() + (
            s0.sp_bytes().len() - s0.sp_pos()),
            Err(e) => false,
        }
    }) by {
        lemma_chain_skips_rejected(f, data, pos0, mid);
        let h = sp_decode_page_header(data.subrange(mid, mid + 24));
        let ps = h.sp_page_size();
        match r {
            Ok(op) => {
                match op {
                    Some(p) => {
                        assert(mid < data.len());
                        assert(sp_accepted_headers(f, data, mid) == seq![h]
                            + sp_accepted_headers(f, data, mid + ps));
                        assert(expected[0] == h);
                        assert(expected.drop_first() =~= sp_accepted_headers(f, data, mid + ps));
                    },
                    None => {
                        assert(mid == data.len());
                    },
                }
            },
            Err(e) => {
                if mid < data.len() {
                    assert(mid + 24 <= data.len());
                }
                assert(false);
            },
        }
    }
}

} // verus!

