//! Byte-exact decoder/encoder for the on-disk page format of a row-store
//! database engine: fixed-size pages holding a header, a forward-growing
//! array of bit-packed line pointers, and backward-growing tuple records.
//!
//! The crate is organised leaf-first: `codec` holds the binary codec
//! abstraction and the primitive field codecs; the data-model modules
//! (`block_id`, `xlog_ptr`, `item_pointer`, `item_id`, `page_header`,
//! `tuple`) build the fixed composite records on top of it; `page` and
//! `page_lazy` give the two page representations together with the
//! free-space allocator and the on-demand tuple iterator; `page_reader`
//! walks a byte stream of pages with seeking and header-based filtering.
use vstd::prelude::*;

pub mod codec;
pub mod block_id;
pub mod xlog_ptr;
pub mod item_pointer;
pub mod item_id;
pub mod page_header;
pub mod tuple;
pub mod page;
pub mod page_lazy;
pub mod page_reader;

use crate::codec::ByteEncodeError;

verus! {

/// Crate-level error: either a codec failure or a page whose header fields
/// are out of range. The variants that carry a `u16` name the offending
/// header field value. I/O failures belong to the caller that owns the byte
/// source, so `Io` carries no payload here.
#[derive(Debug, Clone, PartialEq, Eq)]
pub enum Error {
    Io,
    ByteEncoding(ByteEncodeError),
    InvalidByteEncoding(String),
    InvalidPageSize(u16),
    InvalidPageHeaderSize(u16),
    InvalidPageHeaderLowerBound(u16),
    InvalidPageHeaderUpperBound(u16),
    InvalidPageHeaderSpecialBound(u16),
    InvalidPageHeaderSpecialSize(u16),
    InvalidPageHeaderSpecialOffset(u16),
}

} // verus!
