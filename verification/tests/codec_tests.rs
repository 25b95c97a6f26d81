use pg_page::block_id::BlockIdData;
use pg_page::codec::{ByteEncodeError, ByteEncoded, ByteEncodedSized, ByteReader, GetByteSliceExt};
use pg_page::item_id::{ItemIdData, LpFlags};
use pg_page::item_pointer::ItemPointerData;
use pg_page::page_header::PageHeaderData;
use pg_page::tuple::HeapTupleHeaderData;
use pg_page::xlog_ptr::PageXLogRecPtr;

fn sample_header() -> PageHeaderData {
    PageHeaderData {
        pd_lsn: PageXLogRecPtr {
            xlogid: 1,
            xrecoff: 2,
        },
        pd_checksum: 2,
        pd_flags: 3,
        pd_lower: 4,
        pd_upper: 5,
        pd_special: 6,
        pd_pagesize_version: 7,
        pd_prune_xid: 8,
    }
}

#[test]
fn test_item() {
    let item = HeapTupleHeaderData {
        t_xmin: 1,
        t_xmax: 2,
        t_field3: 3,
        t_ctid: ItemPointerData {
            ip_blkid: BlockIdData { bi_hi: 5, bi_lo: 6 },
            ip_posid: 6,
        },
        t_infomask2: 7,
        t_infomask: 8,
        t_hoff: 9,
        data: vec![1, 2, 3, 4, 5],
    };
    let encoded = item.encode();
    let decoded = HeapTupleHeaderData::decode(&encoded).unwrap();
    assert_eq!(item, decoded);
}

#[test]
fn test_item_pointer() {
    let item_pointer = ItemPointerData {
        ip_blkid: BlockIdData { bi_hi: 1, bi_lo: 2 },
        ip_posid: 2,
    };
    let encoded = item_pointer.encode();
    let decoded = ItemPointerData::decode(&encoded).unwrap();
    assert_eq!(item_pointer, decoded);
}

#[test]
fn test_offset_length_pair() {
    let mut offset_length_pair = ItemIdData::default();
    offset_length_pair.set_lp_flags(1);
    offset_length_pair.set_lp_len(2);
    offset_length_pair.set_lp_off(3);
    let encoded = offset_length_pair.encode();
    let decoded = ItemIdData::decode(&encoded).unwrap();
    assert_eq!(offset_length_pair, decoded);
}

#[test]
fn test_page_header() {
    let page_header = sample_header();
    let encoded = page_header.encode();
    let decoded = PageHeaderData::decode(&encoded).unwrap();
    assert_eq!(page_header, decoded);
}

#[test]
fn test_page_header_encode_into_writer() {
    let page_header = sample_header();
    let mut buf = Vec::new();
    page_header.encode_into_writer(&mut buf);
    let decoded = PageHeaderData::decode(&buf).unwrap();
    assert_eq!(page_header, decoded);
}

#[test]
fn test_page_header_decode_from_reader() {
    let page_header = sample_header();
    let encoded = page_header.encode();
    let mut reader = ByteReader::new(&encoded);
    let decoded = PageHeaderData::decode_from_reader(&mut reader).unwrap();
    assert_eq!(page_header, decoded);
}

#[test]
fn test_page_header_decode_from_reader_with_extra_bytes() {
    let page_header = sample_header();
    let encoded = page_header.encode();
    let mut reader = ByteReader::new(&encoded);
    let decoded = PageHeaderData::decode_from_reader(&mut reader).unwrap();
    assert_eq!(page_header, decoded);
}

#[test]
fn test_page_header_decode_from_reader_with_not_enough_bytes() {
    let page_header = sample_header();
    let encoded = page_header.encode();
    let mut reader = ByteReader::new(&encoded[..10]);
    let decoded = PageHeaderData::decode_from_reader(&mut reader);
    assert!(decoded.is_err());
}

#[test]
fn primitive_round_trips_at_boundaries() {
    for v in [0u8, 1, u8::MAX] {
        assert_eq!(u8::decode(&v.encode()).unwrap(), v);
    }
    for v in [0u16, 1, 0x1234, u16::MAX] {
        assert_eq!(u16::decode(&v.encode()).unwrap(), v);
    }
    for v in [0u32, 1, 0xdead_beef, u32::MAX] {
        assert_eq!(u32::decode(&v.encode()).unwrap(), v);
    }
    for v in [0u64, 1, 0x0123_4567_89ab_cdef, u64::MAX] {
        assert_eq!(u64::decode(&v.encode()).unwrap(), v);
    }
}

#[test]
fn primitive_encoding_is_little_endian() {
    assert_eq!(0x1234u16.encode(), vec![0x34, 0x12]);
    assert_eq!(0x0102_0304u32.encode(), vec![4, 3, 2, 1]);
    assert_eq!(u16::decode(&[0x34, 0x12]).unwrap(), 0x1234);
}

#[test]
fn short_slice_fails_with_insufficient_bytes() {
    assert_eq!(
        u32::decode(&[1, 2, 3]),
        Err(ByteEncodeError::NotEnoughBytes {
            expected: 4,
            actual: 3
        })
    );
    assert_eq!(
        PageHeaderData::decode(&[0; 23]),
        Err(ByteEncodeError::NotEnoughBytes {
            expected: 24,
            actual: 23
        })
    );
}

#[test]
fn long_slice_fails_with_excess_bytes() {
    assert_eq!(
        u32::decode(&[1, 2, 3, 4, 5]),
        Err(ByteEncodeError::TooManyBytes {
            expected: 4,
            actual: 5
        })
    );
    assert_eq!(
        ItemIdData::decode(&[0; 6]),
        Err(ByteEncodeError::TooManyBytes {
            expected: 4,
            actual: 6
        })
    );
}

#[test]
fn sized_decode_enforces_the_given_size() {
    let bytes = 7u32.encode();
    assert_eq!(u32::decode_sized(&bytes, 4).unwrap(), 7);
    assert_eq!(
        u32::decode_sized(&bytes, 5),
        Err(ByteEncodeError::NotEnoughBytes {
            expected: 5,
            actual: 4
        })
    );
    assert_eq!(
        u32::decode_sized(&bytes, 3),
        Err(ByteEncodeError::TooManyBytes {
            expected: 3,
            actual: 4
        })
    );
}

#[test]
fn line_pointer_packs_offset_state_length() {
    let mut lp = ItemIdData::default();
    lp.set_lp_off(3);
    lp.set_lp_flags(1);
    lp.set_lp_len(2);
    let decoded = ItemIdData::decode(&lp.encode()).unwrap();
    assert_eq!(decoded.lp_off(), 3);
    assert_eq!(decoded.lp_flags(), 1);
    assert_eq!(decoded.lp_len(), 2);
    assert!(matches!(decoded.flags(), LpFlags::Normal));
}

#[test]
fn line_pointer_states_round_trip() {
    for (state, expect) in [
        (0u8, LpFlags::Unused),
        (1, LpFlags::Normal),
        (2, LpFlags::Redirect),
        (3, LpFlags::Dead),
    ] {
        let mut lp = ItemIdData::default();
        lp.set_lp_off(100);
        lp.set_lp_len(50);
        lp.set_lp_flags(state);
        let decoded = ItemIdData::decode(&lp.encode()).unwrap();
        assert_eq!(decoded.lp_flags(), state);
        assert_eq!(decoded.flags(), expect);
        assert_eq!(decoded.lp_off(), 100);
        assert_eq!(decoded.lp_len(), 50);
    }
}

#[test]
fn line_pointer_boundary_fields_round_trip() {
    let mut lp = ItemIdData::default();
    lp.set_lp_off(0x7fff);
    lp.set_lp_len(0x7fff);
    lp.set_lp_flags(3);
    assert_eq!(lp.lp_off(), 0x7fff);
    assert_eq!(lp.lp_len(), 0x7fff);
    assert_eq!(lp.lp_flags(), 3);
    let decoded = ItemIdData::decode(&lp.encode()).unwrap();
    assert_eq!(lp, decoded);
}

#[test]
fn block_id_and_xlog_ptr_round_trip() {
    let blk = BlockIdData {
        bi_hi: u16::MAX,
        bi_lo: 0,
    };
    assert_eq!(BlockIdData::decode(&blk.encode()).unwrap(), blk);
    let lsn = PageXLogRecPtr {
        xlogid: u32::MAX,
        xrecoff: 7,
    };
    assert_eq!(PageXLogRecPtr::decode(&lsn.encode()).unwrap(), lsn);
}

#[test]
fn vector_of_fixed_elements_decodes_by_chunking() {
    let values: Vec<u16> = vec![1, 2, 0xffff];
    let encoded = values.encode();
    assert_eq!(encoded.len(), 6);
    let decoded = Vec::<u16>::decode(&encoded).unwrap();
    assert_eq!(decoded, values);
}

#[test]
fn vector_decode_rejects_misaligned_length() {
    assert_eq!(
        Vec::<u32>::decode(&[1, 2, 3, 4, 5]),
        Err(ByteEncodeError::InvalidSize {
            expected: 4,
            actual: 5
        })
    );
}

#[test]
fn string_codec_round_trips_utf8() {
    let s = String::from("héllo wörld");
    let encoded = ByteEncoded::encode(&s);
    let decoded = <String as ByteEncoded>::decode(&encoded).unwrap();
    assert_eq!(decoded, s);
}

#[test]
fn invalid_utf8_fails_decoding() {
    let bytes = [0xff, 0xfe, 0x41];
    assert_eq!(
        <String as ByteEncoded>::decode(&bytes),
        Err(ByteEncodeError::FromUtf8Error)
    );
    assert_eq!(
        pg_page::codec::read_string(&bytes),
        Err(ByteEncodeError::FromUtf8Error)
    );
}

#[test]
fn read_write_integers_use_little_endian() {
    assert_eq!(pg_page::codec::read_u16(&[0x34, 0x12]), 0x1234);
    assert_eq!(pg_page::codec::read_u32(&[4, 3, 2, 1]), 0x0102_0304);
    assert_eq!(pg_page::codec::read_u64(&[1, 0, 0, 0, 0, 0, 0, 0]), 1);
    assert_eq!(pg_page::codec::read_u8(&[9]), 9);
    assert_eq!(pg_page::codec::read_i16(&[0xff, 0xff]), -1);
    assert_eq!(pg_page::codec::read_i32(&[0xfe, 0xff, 0xff, 0xff]), -2);
    assert_eq!(
        pg_page::codec::read_i64(&[0xff; 8]),
        -1
    );

    let mut buf = vec![0u8; 2];
    pg_page::codec::write_u16(&mut buf, 0x1234);
    assert_eq!(buf, vec![0x34, 0x12]);
    let mut buf = vec![0u8; 4];
    pg_page::codec::write_u32(&mut buf, 0x0102_0304);
    assert_eq!(buf, vec![4, 3, 2, 1]);
    let mut buf = vec![0u8; 8];
    pg_page::codec::write_u64(&mut buf, 1);
    assert_eq!(buf, vec![1, 0, 0, 0, 0, 0, 0, 0]);
    let mut buf = vec![0u8; 1];
    pg_page::codec::write_u8(&mut buf, 0xab);
    assert_eq!(buf, vec![0xab]);
    let mut buf = vec![0u8; 1];
    pg_page::codec::write_i8(&mut buf, -1);
    assert_eq!(buf, vec![0xff]);
    let mut buf = vec![0u8; 2];
    pg_page::codec::write_i16(&mut buf, -1);
    assert_eq!(buf, vec![0xff, 0xff]);
    let mut buf = vec![0u8; 4];
    pg_page::codec::write_i32(&mut buf, -2);
    assert_eq!(buf, vec![0xfe, 0xff, 0xff, 0xff]);
    let mut buf = vec![0u8; 8];
    pg_page::codec::write_i64(&mut buf, -1);
    assert_eq!(buf, vec![0xff; 8]);
}

#[test]
fn write_and_read_string_round_trip() {
    let text = "page";
    let mut buf = vec![0u8; 4];
    pg_page::codec::write_string(&mut buf, text);
    assert_eq!(buf, b"page".to_vec());
    assert_eq!(pg_page::codec::read_string(&buf).unwrap(), "page");
}

#[test]
fn get_byte_slice_checks_bounds() {
    let bytes = [1u8, 2, 3, 4];
    assert_eq!(bytes.get_byte_slice(1, 3).unwrap(), &[2, 3]);
    assert_eq!(
        bytes[..].get_byte_slice(2, 5),
        Err(ByteEncodeError::NotEnoughBytes {
            expected: 5,
            actual: 4
        })
    );
}

#[test]
fn streaming_decode_consumes_exactly_the_fixed_size() {
    let mut bytes = 0xaabbu16.encode();
    bytes.extend(0x11223344u32.encode());
    let mut reader = ByteReader::new(&bytes);
    assert_eq!(u16::decode_from_reader(&mut reader).unwrap(), 0xaabb);
    assert_eq!(u32::decode_from_reader(&mut reader).unwrap(), 0x11223344);
    assert!(u8::decode_from_reader(&mut reader).is_err());
}

#[test]
fn tuple_header_fields_survive_the_byte_image() {
    let item = HeapTupleHeaderData {
        t_xmin: u32::MAX,
        t_xmax: 0,
        t_field3: 77,
        t_ctid: ItemPointerData {
            ip_blkid: BlockIdData { bi_hi: 0, bi_lo: 9 },
            ip_posid: 1,
        },
        t_infomask2: 0x8000,
        t_infomask: 0x0001,
        t_hoff: 24,
        data: Vec::new(),
    };
    let encoded = item.encode();
    assert_eq!(encoded.len(), 23);
    let decoded = HeapTupleHeaderData::decode(&encoded).unwrap();
    assert_eq!(item, decoded);
    assert_eq!(
        HeapTupleHeaderData::decode(&encoded[..22]),
        Err(ByteEncodeError::NotEnoughBytes {
            expected: 23,
            actual: 22
        })
    );
}

#[test]
fn visibility_follows_the_reduced_rule() {
    let mut item = HeapTupleHeaderData {
        t_xmin: 10,
        t_xmax: 20,
        t_field3: 0,
        t_ctid: ItemPointerData {
            ip_blkid: BlockIdData { bi_hi: 0, bi_lo: 0 },
            ip_posid: 0,
        },
        t_infomask2: 0,
        t_infomask: 0,
        t_hoff: 24,
        data: Vec::new(),
    };
    assert!(!item.visible_to_tx(9));
    assert!(item.visible_to_tx(10));
    assert!(item.visible_to_tx(19));
    assert!(!item.visible_to_tx(20));
    item.t_xmax = 0;
    assert!(item.visible_to_tx(u32::MAX));
}

#[test]
fn page_size_and_version_unpack_the_shared_field() {
    let mut h = sample_header();
    h.pd_pagesize_version = 0x2004;
    assert_eq!(h.page_size(), 0x2000);
    assert_eq!(h.page_version(), 4);
}

#[test]
fn line_pointer_bit_layout_matches_the_disk_format() {
    let mut lp = ItemIdData::default();
    lp.set_lp_off(3);
    lp.set_lp_flags(1);
    lp.set_lp_len(2);
    // offset in bits 0-14, state in bits 15-16, length in bits 17-31,
    // little-endian: 0x3 | 0x8000 | 0x40000 == 0x0004_8003.
    assert_eq!(lp.encode(), vec![0x03, 0x80, 0x04, 0x00]);
}
