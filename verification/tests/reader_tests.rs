use pg_page::codec::ByteEncoded;
use pg_page::page_header::PageHeaderData;
use pg_page::page_reader::{PageReader, PageReaderIter};
use pg_page::xlog_ptr::PageXLogRecPtr;

fn page_bytes(page_size: u16, flags: u16) -> Vec<u8> {
    let header = PageHeaderData {
        pd_lsn: PageXLogRecPtr {
            xlogid: 0,
            xrecoff: 0,
        },
        pd_checksum: 0,
        pd_flags: flags,
        pd_lower: 24,
        pd_upper: page_size,
        pd_special: page_size,
        pd_pagesize_version: page_size,
        pd_prune_xid: 0,
    };
    let mut bytes = header.encode();
    bytes.resize(page_size as usize, 0);
    bytes
}

/// Five pages of varying sizes, tagged 1 to 5 through their flag field.
fn five_page_file() -> (Vec<u8>, u64) {
    let sizes: [u16; 5] = [256, 512, 256, 512, 256];
    let mut file = Vec::new();
    for (i, size) in sizes.iter().enumerate() {
        file.extend(page_bytes(*size, (i + 1) as u16));
    }
    let total: u64 = sizes.iter().map(|s| *s as u64).sum();
    (file, total)
}

#[test]
fn filtered_iteration_keeps_order_and_cursor() {
    let (file, total) = five_page_file();
    let reader = PageReader::new(file);
    let mut iter = PageReaderIter::new(reader)
        .with_filter(|h: &PageHeaderData| h.pd_flags != 2 && h.pd_flags != 4);
    let mut tags = Vec::new();
    while let Some(page) = iter.next() {
        tags.push(page.unwrap().header_data.pd_flags);
    }
    assert_eq!(tags, vec![1, 3, 5]);
    assert_eq!(iter.reader.cursor(), total);
}

#[test]
fn unfiltered_iteration_yields_every_page() {
    let (file, total) = five_page_file();
    let reader = PageReader::new(file);
    let mut iter = PageReaderIter::new(reader);
    let mut count: u16 = 0;
    while let Some(page) = iter.next() {
        let page = page.unwrap();
        count += 1;
        assert_eq!(page.header_data.pd_flags, count);
        assert_eq!(
            page.data.len(),
            page.header_data.page_size() - 24
        );
    }
    assert_eq!(count, 5);
    assert_eq!(iter.reader.cursor(), total);
}

#[test]
fn prerun_hook_is_not_required_for_iteration() {
    let (file, _) = five_page_file();
    let reader = PageReader::new(file);
    let mut iter = PageReaderIter::new(reader).with_prerun(|_cursor: u64| {});
    let mut count = 0;
    while let Some(page) = iter.next() {
        assert!(page.is_ok());
        count += 1;
    }
    assert_eq!(count, 5);
}

#[test]
fn truncated_body_ends_cleanly() {
    let mut file = page_bytes(256, 1);
    let second = page_bytes(512, 2);
    file.extend(&second[..100]);
    let mut reader = PageReader::new(file);
    let first = reader.read_next_page().unwrap();
    assert_eq!(first.unwrap().header_data.pd_flags, 1);
    assert_eq!(reader.read_next_page().unwrap(), None);
    assert_eq!(reader.read_next_page().unwrap(), None, "the reader stays ended");
}

#[test]
fn truncated_first_body_yields_no_page_and_no_error() {
    let page = page_bytes(512, 1);
    let mut reader = PageReader::new(page[..200].to_vec());
    let got = reader.read_next_page_filtered(|_h: &PageHeaderData| true);
    assert_eq!(got.unwrap(), None);
}

#[test]
fn empty_input_is_a_clean_end() {
    let mut reader = PageReader::new(Vec::new());
    assert_eq!(reader.read_next_page().unwrap(), None);
}

#[test]
fn partial_header_is_an_error_not_an_end() {
    let mut file = page_bytes(256, 1);
    file.extend([0u8; 10]);
    let mut reader = PageReader::new(file);
    assert!(reader.read_next_page().unwrap().is_some());
    assert!(reader.read_next_page().is_err());
}

#[test]
fn read_page_at_seeks_to_the_given_offset() {
    let (file, _) = five_page_file();
    let mut reader = PageReader::new(file);
    let page = reader.read_page_at(256 + 512).unwrap().unwrap();
    assert_eq!(page.header_data.pd_flags, 3);
}

#[test]
fn seek_moves_position_and_cursor_together() {
    let (file, _) = five_page_file();
    let mut reader = PageReader::new(file);
    reader.seek(256).unwrap();
    assert_eq!(reader.cursor(), 256);
    let page = reader.read_next_page().unwrap().unwrap();
    assert_eq!(page.header_data.pd_flags, 2);
    assert_eq!(reader.cursor(), 256 + 512);
    reader.seek_relative(-512).unwrap();
    assert_eq!(reader.cursor(), 256);
    let again = reader.read_next_page().unwrap().unwrap();
    assert_eq!(again.header_data.pd_flags, 2);
}

#[test]
fn filtered_read_skips_rejected_pages_without_yielding() {
    let (file, total) = five_page_file();
    let mut reader = PageReader::new(file);
    let page = reader
        .read_next_page_filtered(|h: &PageHeaderData| h.pd_flags >= 4)
        .unwrap()
        .unwrap();
    assert_eq!(page.header_data.pd_flags, 4);
    assert_eq!(reader.cursor(), (256 + 512 + 256 + 512) as u64);
    let page = reader
        .read_next_page_filtered(|h: &PageHeaderData| h.pd_flags >= 4)
        .unwrap();
    assert_eq!(page.unwrap().header_data.pd_flags, 5);
    assert_eq!(reader.cursor(), total);
    let done = reader
        .read_next_page_filtered(|h: &PageHeaderData| h.pd_flags >= 4)
        .unwrap();
    assert_eq!(done, None);
}

#[test]
fn rejecting_every_page_ends_cleanly_after_skipping_all() {
    let (file, total) = five_page_file();
    let mut reader = PageReader::new(file);
    let got = reader
        .read_next_page_filtered(|_h: &PageHeaderData| false)
        .unwrap();
    assert_eq!(got, None);
    assert_eq!(reader.cursor(), total);
}

#[test]
fn page_size_under_the_header_stops_the_reader_with_an_error() {
    let mut bytes = page_bytes(256, 1);
    let mut second = page_bytes(256, 2);
    second[18] = 0;
    second[19] = 0;
    bytes.extend(second);
    let mut reader = PageReader::new(bytes);
    assert!(reader.read_next_page().unwrap().is_some());
    assert_eq!(
        reader.read_next_page(),
        Err(pg_page::codec::ByteEncodeError::NotEnoughBytes {
            expected: 24,
            actual: 0
        })
    );
}
