use pg_page::block_id::BlockIdData;
use pg_page::codec::{ByteEncoded, ByteReader};
use pg_page::item_id::{ItemIdData, LpFlags};
use pg_page::item_pointer::ItemPointerData;
use pg_page::page::Page;
use pg_page::page_header::PageHeaderData;
use pg_page::page_lazy::PageLazy;
use pg_page::tuple::HeapTupleHeaderData;
use pg_page::xlog_ptr::PageXLogRecPtr;

fn header(page_size: u16, lower: u16, upper: u16) -> PageHeaderData {
    PageHeaderData {
        pd_lsn: PageXLogRecPtr {
            xlogid: 0,
            xrecoff: 0,
        },
        pd_checksum: 0,
        pd_flags: 0,
        pd_lower: lower,
        pd_upper: upper,
        pd_special: page_size,
        pd_pagesize_version: page_size,
        pd_prune_xid: 0,
    }
}

fn tuple(payload: &[u8]) -> HeapTupleHeaderData {
    HeapTupleHeaderData {
        t_xmin: 1,
        t_xmax: 0,
        t_field3: 0,
        t_ctid: ItemPointerData {
            ip_blkid: BlockIdData { bi_hi: 0, bi_lo: 0 },
            ip_posid: 1,
        },
        t_infomask2: 2,
        t_infomask: 0,
        t_hoff: 24,
        data: payload.to_vec(),
    }
}

fn slot(off: u16, state: u8, len: u16) -> ItemIdData {
    let mut lp = ItemIdData::default();
    lp.set_lp_off(off);
    lp.set_lp_flags(state);
    lp.set_lp_len(len);
    lp
}

/// A 512-byte page with two Normal tuples, one Unused slot and one Dead
/// slot without storage, as raw bytes.
fn two_tuple_page() -> (Vec<u8>, Vec<ItemIdData>, Vec<HeapTupleHeaderData>) {
    let page_size: usize = 512;
    let t1 = tuple(b"abc");
    let t2 = tuple(b"defg");
    let e1 = t1.encode();
    let e2 = t2.encode();
    let off1 = (page_size - e1.len()) as u16;
    let off2 = off1 - e2.len() as u16;
    let slots = vec![
        slot(off1, 1, e1.len() as u16),
        slot(0, 0, 0),
        slot(off2, 1, e2.len() as u16),
        slot(0, 3, 0),
    ];
    let lower = 24 + 4 * slots.len() as u16;
    let mut bytes = header(page_size as u16, lower, off2).encode();
    for lp in &slots {
        bytes.extend(lp.encode());
    }
    bytes.resize(off2 as usize, 0);
    bytes.extend(e2);
    bytes.extend(e1);
    assert_eq!(bytes.len(), page_size);
    (bytes, slots, vec![t1, t2])
}

#[test]
fn eager_decode_reads_slots_and_normal_tuples() {
    let (bytes, slots, tuples) = two_tuple_page();
    let mut reader = ByteReader::new(&bytes);
    let page = Page::from_reader(&mut reader).unwrap();
    assert_eq!(page.header_data, PageHeaderData::decode(&bytes[..24]).unwrap());
    assert_eq!(page.item_id_data, slots);
    assert_eq!(page.items, tuples);
    assert_eq!(page.special, None);
}

#[test]
fn lazy_and_eager_agree_on_normal_slots() {
    let (bytes, _, _) = two_tuple_page();

    let mut reader = ByteReader::new(&bytes);
    let eager = Page::from_reader(&mut reader).unwrap();

    let mut reader = ByteReader::new(&bytes);
    let lazy = PageLazy::from_reader(&mut reader).unwrap();
    assert_eq!(lazy.header_data, eager.header_data);

    let mut pairs = Vec::new();
    let mut iter = lazy.iter_tuples();
    while let Some(item) = iter.next() {
        if let Ok(pair) = item {
            pairs.push(pair);
        }
    }
    let normal: Vec<&ItemIdData> = eager
        .item_id_data
        .iter()
        .filter(|lp| lp.is_normal())
        .collect();
    assert_eq!(pairs.len(), normal.len());
    assert_eq!(pairs.len(), eager.items.len());
    for (i, (lp, tup)) in pairs.iter().enumerate() {
        assert_eq!(lp, normal[i]);
        assert_eq!(tup, &eager.items[i]);
    }
}

#[test]
fn lazy_iterator_reports_storage_less_slots_as_errors() {
    let (bytes, slots, _) = two_tuple_page();
    let mut reader = ByteReader::new(&bytes);
    let lazy = PageLazy::from_reader(&mut reader).unwrap();
    let mut outcomes = Vec::new();
    let mut iter = lazy.iter_tuples();
    while let Some(item) = iter.next() {
        outcomes.push(item.is_ok());
    }
    assert_eq!(outcomes, vec![true, false, true, false]);
    assert_eq!(outcomes.len(), slots.len());
}

#[test]
fn eager_decode_rejects_out_of_bounds_slot() {
    let page_size: u16 = 256;
    let mut bytes = header(page_size, 28, page_size).encode();
    bytes.extend(slot(250, 1, 50).encode());
    bytes.resize(page_size as usize, 0);
    let mut reader = ByteReader::new(&bytes);
    assert!(Page::from_reader(&mut reader).is_err());
}

#[test]
fn eager_decode_rejects_truncated_input() {
    let (bytes, _, _) = two_tuple_page();
    let mut reader = ByteReader::new(&bytes[..100]);
    assert!(Page::from_reader(&mut reader).is_err());
}

#[test]
fn reserve_tuple_keeps_free_space_invariant() {
    let mut page = Page {
        header_data: header(8192, 24, 8192),
        item_id_data: Vec::new(),
        items: Vec::new(),
        special: None,
    };
    let free0 = page.header_data.pd_upper - page.header_data.pd_lower;
    let mut ranges: Vec<(u16, u16)> = Vec::new();
    let mut used: u16 = 0;
    while let Some(lp) = page.reserve_tuple(100) {
        assert!(page.header_data.pd_upper >= page.header_data.pd_lower);
        assert_eq!(lp.lp_len(), 123);
        assert!(matches!(lp.flags(), LpFlags::Normal));
        let start = lp.lp_off();
        let end = start + lp.lp_len();
        for (s, e) in &ranges {
            assert!(end <= *s || *e <= start);
        }
        ranges.push((start, end));
        used += 123 + 4;
    }
    assert_eq!(ranges.len(), 64);
    assert!(free0 - used < 123 + 4);
    assert_eq!(
        page.item_id_data.len(),
        ranges.len(),
        "one slot appended per successful reservation"
    );
}

#[test]
fn reserve_tuple_rejects_oversized_request() {
    let mut page = Page {
        header_data: header(256, 24, 256),
        item_id_data: Vec::new(),
        items: Vec::new(),
        special: None,
    };
    assert!(page.reserve_tuple(4000).is_none());
    assert_eq!(page.header_data.pd_lower, 24);
    assert_eq!(page.header_data.pd_upper, 256);
    assert!(page.item_id_data.is_empty());
}

#[test]
fn lazy_reserve_writes_the_line_pointer_into_the_body() {
    let mut lazy = PageLazy {
        header_data: header(8192, 24, 8192),
        data: vec![0; 8192 - 24],
    };
    let lp = lazy.reserve_tuple(100).unwrap();
    assert_eq!(lp.lp_off(), 8192 - 123);
    assert_eq!(lp.lp_len(), 123);
    assert_eq!(lp.lp_flags(), 1);
    assert_eq!(lazy.header_data.pd_lower, 28);
    assert_eq!(lazy.header_data.pd_upper, 8192 - 123);
    let written = ItemIdData::decode(&lazy.data[0..4]).unwrap();
    assert_eq!(written, lp);
}

#[test]
fn lazy_reserve_matches_eager_reserve() {
    let mut page = Page {
        header_data: header(512, 24, 512),
        item_id_data: Vec::new(),
        items: Vec::new(),
        special: None,
    };
    let mut lazy = PageLazy {
        header_data: header(512, 24, 512),
        data: vec![0; 512 - 24],
    };
    for size in [10u16, 20, 300] {
        let a = page.reserve_tuple(size);
        let b = lazy.reserve_tuple(size);
        assert_eq!(a, b);
        assert_eq!(page.header_data, lazy.header_data);
    }
}

#[test]
fn vacuum_converts_dead_slots_to_unused() {
    let keep = slot(400, 1, 30);
    let redirect = slot(2, 2, 0);
    let dead = slot(300, 3, 40);
    let mut page = Page {
        header_data: header(512, 36, 300),
        item_id_data: vec![keep, dead, redirect],
        items: vec![tuple(b"abc")],
        special: None,
    };
    let items_before = page.items.clone();
    let header_before = page.header_data;
    page.vacuum();
    assert_eq!(page.header_data, header_before);
    assert_eq!(page.items, items_before);
    assert_eq!(page.item_id_data[0], keep);
    assert_eq!(page.item_id_data[2], redirect);
    let cleared = page.item_id_data[1];
    assert!(matches!(cleared.flags(), LpFlags::Unused));
    assert_eq!(cleared.lp_off(), 0);
    assert_eq!(cleared.lp_len(), 0);
    for lp in &page.item_id_data {
        assert!(!matches!(lp.flags(), LpFlags::Dead));
    }
}

#[test]
fn lazy_vacuum_clears_dead_slots_in_the_body() {
    let page_size: u16 = 512;
    let keep = slot(486, 1, 26);
    let dead = slot(300, 3, 40);
    let lower = 24 + 8;
    let mut bytes = header(page_size, lower, 300).encode();
    bytes.extend(keep.encode());
    bytes.extend(dead.encode());
    bytes.resize(page_size as usize, 7);
    let mut reader = ByteReader::new(&bytes);
    let mut lazy = PageLazy::from_reader(&mut reader).unwrap();
    lazy.vacuum();
    assert_eq!(ItemIdData::decode(&lazy.data[0..4]).unwrap(), keep);
    let cleared = ItemIdData::decode(&lazy.data[4..8]).unwrap();
    assert!(matches!(cleared.flags(), LpFlags::Unused));
    assert_eq!(cleared.lp_len(), 0);
    assert_eq!(lazy.data[8], 7, "bytes outside the slot array stay put");
}

#[test]
fn reserve_tuple_works_at_the_largest_page_size() {
    let mut page = Page {
        header_data: header(32768, 24, 32768),
        item_id_data: Vec::new(),
        items: Vec::new(),
        special: None,
    };
    let lp = page.reserve_tuple(100).unwrap();
    assert_eq!(lp.lp_off(), 32768 - 123);
    assert!(page.header_data.pd_upper >= page.header_data.pd_lower);
}

#[test]
fn header_well_formedness_is_testable() {
    assert!(header(8192, 24, 8192).wf());
    assert!(header(512, 32, 400).wf());
    assert!(!header(512, 10, 400).wf(), "slot array inside the header");
    assert!(!header(512, 300, 200).wf(), "free space inverted");
    assert!(!header(256, 24, 300).wf(), "upper past the page");
    let mut h = header(512, 24, 512);
    h.pd_pagesize_version = 0;
    assert!(!h.wf(), "page size zero");
}

#[test]
fn lazy_page_well_formedness_is_testable() {
    let good = PageLazy {
        header_data: header(512, 24, 512),
        data: vec![0; 512 - 24],
    };
    assert!(good.wf());
    let short_body = PageLazy {
        header_data: header(512, 24, 512),
        data: vec![0; 100],
    };
    assert!(!short_body.wf());
    let bad_header = PageLazy {
        header_data: header(512, 10, 512),
        data: vec![0; 512 - 24],
    };
    assert!(!bad_header.wf());
}

#[test]
fn slot_offset_inside_the_header_is_insufficient_bytes() {
    let page_size: u16 = 256;
    let mut bytes = header(page_size, 28, page_size).encode();
    bytes.extend(slot(10, 1, 30).encode());
    bytes.resize(page_size as usize, 0);
    let mut reader = ByteReader::new(&bytes);
    assert_eq!(
        Page::from_reader(&mut reader),
        Err(pg_page::codec::ByteEncodeError::NotEnoughBytes {
            expected: 24,
            actual: 10
        })
    );
}

#[test]
fn page_size_under_the_header_is_insufficient_bytes() {
    let mut h = header(256, 24, 256);
    h.pd_pagesize_version = 0;
    let mut bytes = h.encode();
    bytes.resize(256, 0);
    let mut reader = ByteReader::new(&bytes);
    assert_eq!(
        Page::from_reader(&mut reader),
        Err(pg_page::codec::ByteEncodeError::NotEnoughBytes {
            expected: 24,
            actual: 0
        })
    );
    let mut reader = ByteReader::new(&bytes);
    assert_eq!(
        PageLazy::from_reader(&mut reader),
        Err(pg_page::codec::ByteEncodeError::NotEnoughBytes {
            expected: 24,
            actual: 0
        })
    );
}

#[test]
fn lazy_iterator_reports_header_offsets_as_insufficient_bytes() {
    let page_size: u16 = 256;
    let mut bytes = header(page_size, 28, 200).encode();
    bytes.extend(slot(10, 1, 30).encode());
    bytes.resize(page_size as usize, 0);
    let mut reader = ByteReader::new(&bytes);
    let lazy = PageLazy::from_reader(&mut reader).unwrap();
    let mut iter = lazy.iter_tuples();
    let item = iter.next().unwrap();
    assert_eq!(
        item,
        Err(pg_page::Error::ByteEncoding(
            pg_page::codec::ByteEncodeError::NotEnoughBytes {
                expected: 24,
                actual: 10
            }
        ))
    );
}
