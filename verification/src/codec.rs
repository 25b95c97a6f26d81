//! The binary codec abstraction: how a fixed- or variable-length value is
//! turned into little-endian bytes and back, composably, over in-memory
//! buffers and over a streaming byte reader.
use vstd::prelude::*;
use vstd::bytes::{
    spec_u16_from_le_bytes, spec_u16_to_le_bytes, spec_u32_from_le_bytes, spec_u32_to_le_bytes,
    spec_u64_from_le_bytes, spec_u64_to_le_bytes, u16_from_le_bytes, u16_to_le_bytes,
    u32_from_le_bytes, u32_to_le_bytes, u64_from_le_bytes, u64_to_le_bytes,
};
use vstd::slice::{slice_subrange, slice_to_vec};
use vstd::utf8::{decode_utf8, encode_utf8, valid_utf8};

verus! {

/// Why a decode or encode step failed. Sizes speak in bytes. `IoError` is
/// kept for callers that drive the codec from a fallible byte source; the
/// in-memory paths of this crate never produce it.
#[derive(Debug, Clone, Copy, PartialEq, Eq, Structural)]
pub enum ByteEncodeError {
    /// Fewer bytes were available than the value requires.
    NotEnoughBytes { expected: usize, actual: usize },
    /// More bytes were supplied than the value's declared fixed size.
    TooManyBytes { expected: usize, actual: usize },
    /// A sequence's byte length is not a multiple of its element size.
    InvalidSize { expected: usize, actual: usize },
    /// Propagated from a byte source or sink outside this crate.
    IoError,
    /// A payload declared as text is not valid UTF-8.
    Utf8Error,
    /// A payload declared as text is not valid UTF-16.
    Utf16Error,
    /// An owned byte buffer declared as text is not valid UTF-8.
    FromUtf8Error,
}

pub type ByteEncodeResult<T> = Result<T, ByteEncodeError>;

/// The size-mismatch error for a value of fixed size `expected` decoded
/// from `actual` bytes: insufficient bytes when short, excess bytes when
/// long.
pub open spec fn sp_size_mismatch(expected: int, actual: int) -> ByteEncodeError {
    if actual < expected {
        ByteEncodeError::NotEnoughBytes { expected: expected as usize, actual: actual as usize }
    } else {
        ByteEncodeError::TooManyBytes { expected: expected as usize, actual: actual as usize }
    }
}

/// Bounds-checked slicing of a byte buffer: `[start, end)` of `self`, or
/// insufficient-bytes when the range does not lie inside the buffer.
pub trait GetByteSliceExt {
    /// The whole byte content the slice is taken from.
    spec fn sp_all(&self) -> Seq<u8>;

    fn get_byte_slice(&self, start: usize, end: usize) -> (r: ByteEncodeResult<&[u8]>)
        ensures
            match r {
                Ok(s) => start <= end <= self.sp_all().len()
                    && s@ == self.sp_all().subrange(start as int, end as int),
                Err(e) => !(start <= end <= self.sp_all().len())
                    && e == (ByteEncodeError::NotEnoughBytes {
                        expected: end,
                        actual: self.sp_all().len() as usize,
                    }),
            },
    ;
}

impl GetByteSliceExt for [u8] {
    open spec fn sp_all(&self) -> Seq<u8> {
        self@
    }

    fn get_byte_slice(&self, start: usize, end: usize) -> (r: ByteEncodeResult<&[u8]>) {
        if start <= end && end <= self.len() {
            Ok(slice_subrange(self, start, end))
        } else {
            Err(ByteEncodeError::NotEnoughBytes { expected: end, actual: self.len() })
        }
    }
}

/// A streaming byte source over a borrowed buffer: the position advances as
/// values are decoded. Running out of bytes is reported as
/// insufficient-bytes and leaves the position unchanged.
pub struct ByteReader<'a> {
    data: &'a [u8],
    pos: usize,
}

impl<'a> ByteReader<'a> {
    /// The whole underlying buffer.
    pub closed spec fn bytes(&self) -> Seq<u8> {
        self.data@
    }

    /// The current read position.
    pub closed spec fn pos(&self) -> int {
        self.pos as int
    }

    /// How many bytes are left to read.
    pub open spec fn remaining(&self) -> int {
        self.bytes().len() - self.pos()
    }

    /// The position never passes the end of the buffer.
    pub open spec fn wf(&self) -> bool {
        0 <= self.pos() <= self.bytes().len()
    }

    pub fn new(data: &'a [u8]) -> (r: Self)
        ensures
            r.bytes() == data@,
            r.pos() == 0,
            r.wf(),
    {
        ByteReader { data, pos: 0 }
    }

    pub fn position(&self) -> (r: usize)
        ensures
            r as int == self.pos(),
    {
        self.pos
    }

    /// Reads exactly `n` bytes, advancing the position; fails without
    /// moving when fewer than `n` bytes remain.
    pub fn read_exact(&mut self, n: usize) -> (r: ByteEncodeResult<&'a [u8]>)
        requires
            old(self).wf(),
        ensures
            final(self).wf(),
            final(self).bytes() == old(self).bytes(),
            match r {
                Ok(s) => old(self).remaining() >= n
                    && s@ == old(self).bytes().subrange(old(self).pos(), old(self).pos() + n)
                    && final(self).pos() == old(self).pos() + n,
                Err(e) => old(self).remaining() < n
                    && e == (ByteEncodeError::NotEnoughBytes {
                        expected: n,
                        actual: old(self).remaining() as usize,
                    })
                    && final(self).pos() == old(self).pos(),
            },
    {
        if n <= self.data.len() - self.pos {
            let s = slice_subrange(self.data, self.pos, self.pos + n);
            self.pos = self.pos + n;
            Ok(s)
        } else {
            Err(ByteEncodeError::NotEnoughBytes {
                expected: n,
                actual: self.data.len() - self.pos,
            })
        }
    }

    /// Reads whatever remains, advancing the position to the end.
    pub fn read_to_end(&mut self) -> (r: &'a [u8])
        requires
            old(self).wf(),
        ensures
            final(self).wf(),
            final(self).bytes() == old(self).bytes(),
            final(self).pos() == old(self).bytes().len(),
            r@ == old(self).bytes().subrange(old(self).pos(), old(self).bytes().len() as int),
    {
        let s = slice_subrange(self.data, self.pos, self.data.len());
        self.pos = self.data.len();
        s
    }
}

/// Every encodable type supports encode to bytes, decode from an exact byte
/// slice, streaming encode to a sink, streaming decode from a source, and
/// an optional fixed byte size, with 0 meaning "variable: consumes the rest
/// of the input".
///
/// A fixed-size type decodes from exactly `sp_size()` bytes and fails with
/// a size-mismatch error on a shorter or longer slice; every content of the
/// right length is accepted. A variable-size type consumes the whole input
/// and may reject its content (`sp_valid`).
pub trait ByteEncoded: Sized {
    /// The fixed byte size, or 0 for a variable-size type.
    spec fn sp_size() -> u16;

    /// The exact byte image of a value.
    spec fn sp_encode(&self) -> Seq<u8>;

    /// Whether the bytes decode to some value.
    spec fn sp_valid(b: Seq<u8>) -> bool;

    /// Whether `v` is the value the bytes decode to.
    spec fn sp_is_decode(b: Seq<u8>, v: &Self) -> bool;

    /// The error reported when the bytes do not decode.
    spec fn sp_err(b: Seq<u8>) -> ByteEncodeError;

    /// A fixed-size type accepts exactly the slices of its size, and its
    /// failures are the size-mismatch errors.
    proof fn lemma_fixed_total(b: Seq<u8>)
        ensures
            Self::sp_size() > 0 ==> (Self::sp_valid(b) <==> b.len() == Self::sp_size()),
            Self::sp_size() > 0 && !Self::sp_valid(b) ==> Self::sp_err(b)
                == sp_size_mismatch(Self::sp_size() as int, b.len() as int),
    ;

    /// The byte image of a fixed-size value has the fixed size.
    proof fn lemma_encode_len(&self)
        ensures
            Self::sp_size() > 0 ==> self.sp_encode().len() == Self::sp_size(),
    ;

    fn byte_size() -> (r: u16)
        ensures
            r == Self::sp_size(),
    ;

    fn encode(&self) -> (r: Vec<u8>)
        ensures
            r@ == self.sp_encode(),
    ;

    fn decode(bytes: &[u8]) -> (r: ByteEncodeResult<Self>)
        ensures
            match r {
                Ok(v) => Self::sp_valid(bytes@) && Self::sp_is_decode(bytes@, &v),
                Err(e) => !Self::sp_valid(bytes@) && e == Self::sp_err(bytes@),
            },
    ;

    fn encode_into_writer(&self, writer: &mut Vec<u8>)
        ensures
            final(writer)@ == old(writer)@ + self.sp_encode(),
    ;

    /// Streaming decode: a fixed-size type consumes exactly its size, a
    /// variable-size type consumes the rest of the source.
    fn decode_from_reader(reader: &mut ByteReader<'_>) -> (r: ByteEncodeResult<Self>)
        requires
            old(reader).wf(),
        ensures
            final(reader).wf(),
            final(reader).bytes() == old(reader).bytes(),
            Self::sp_size() > 0 ==> match r {
                Ok(v) => {
                    let w = old(reader).bytes().subrange(
                        old(reader).pos(),
                        old(reader).pos() + Self::sp_size(),
                    );
                    old(reader).remaining() >= Self::sp_size()
                        && final(reader).pos() == old(reader).pos() + Self::sp_size()
                        && Self::sp_valid(w) && Self::sp_is_decode(w, &v)
                },
                Err(e) => old(reader).remaining() < Self::sp_size()
                    && e == (ByteEncodeError::NotEnoughBytes {
                        expected: Self::sp_size() as usize,
                        actual: old(reader).remaining() as usize,
                    })
                    && final(reader).pos() == old(reader).pos(),
            },
            Self::sp_size() == 0 ==> {
                let w = old(reader).bytes().subrange(
                    old(reader).pos(),
                    old(reader).bytes().len() as int,
                );
                final(reader).pos() == old(reader).bytes().len()
                    && match r {
                        Ok(v) => Self::sp_valid(w) && Self::sp_is_decode(w, &v),
                        Err(e) => !Self::sp_valid(w) && e == Self::sp_err(w),
                    }
            },
    ;
}

/// The codec entry points again, with the value's size supplied by the
/// caller instead of by the type: decoding checks the buffer against that
/// size first. Every encodable type gets these for free.
pub trait ByteEncodedSized: Sized + ByteEncoded {
    fn encode_sized(&self) -> (r: Vec<u8>)
        ensures
            r@ == self.sp_encode(),
    ;

    /// Decode from a slice that must hold exactly `size` bytes.
    fn decode_sized(bytes: &[u8], size: usize) -> (r: ByteEncodeResult<Self>)
        ensures
            match r {
                Ok(v) => bytes@.len() == size && Self::sp_valid(bytes@)
                    && Self::sp_is_decode(bytes@, &v),
                Err(e) => if bytes@.len() != size {
                    e == sp_size_mismatch(size as int, bytes@.len() as int)
                } else {
                    !Self::sp_valid(bytes@) && e == Self::sp_err(bytes@)
                },
            },
    ;

    fn encode_into_writer_sized(&self, writer: &mut Vec<u8>)
        ensures
            final(writer)@ == old(writer)@ + self.sp_encode(),
    ;

    /// Decode from exactly `size` bytes of the source.
    fn decode_from_reader_sized(reader: &mut ByteReader<'_>, size: usize) -> (r: ByteEncodeResult<Self>)
        requires
            old(reader).wf(),
        ensures
            final(reader).wf(),
            final(reader).bytes() == old(reader).bytes(),
            match r {
                Ok(v) => {
                    let w = old(reader).bytes().subrange(
                        old(reader).pos(),
                        old(reader).pos() + size,
                    );
                    old(reader).remaining() >= size
                        && final(reader).pos() == old(reader).pos() + size
                        && Self::sp_valid(w) && Self::sp_is_decode(w, &v)
                },
                Err(e) => if old(reader).remaining() < size {
                    e == (ByteEncodeError::NotEnoughBytes {
                        expected: size,
                        actual: old(reader).remaining() as usize,
                    }) && final(reader).pos() == old(reader).pos()
                } else {
                    let w = old(reader).bytes().subrange(
                        old(reader).pos(),
                        old(reader).pos() + size,
                    );
                    !Self::sp_valid(w) && e == Self::sp_err(w) && final(reader).pos() == old(
                        reader,
                    ).pos() + size
                },
            },
    ;
}

impl<T: ByteEncoded> ByteEncodedSized for T {
    fn encode_sized(&self) -> (r: Vec<u8>) {
        <T as ByteEncoded>::encode(self)
    }

    fn decode_sized(bytes: &[u8], size: usize) -> (r: ByteEncodeResult<Self>) {
        if bytes.len() < size {
            Err(ByteEncodeError::NotEnoughBytes { expected: size, actual: bytes.len() })
        } else if bytes.len() > size {
            Err(ByteEncodeError::TooManyBytes { expected: size, actual: bytes.len() })
        } else {
            <T as ByteEncoded>::decode(bytes)
        }
    }

    fn encode_into_writer_sized(&self, writer: &mut Vec<u8>) {
        <T as ByteEncoded>::encode_into_writer(self, writer)
    }

    fn decode_from_reader_sized(reader: &mut ByteReader<'_>, size: usize) -> (r: ByteEncodeResult<Self>) {
        let buf = reader.read_exact(size)?;
        <T as ByteEncoded>::decode(buf)
    }
}

/// The one-byte image of a `u8`.
pub open spec fn spec_u8_to_le_bytes(x: u8) -> Seq<u8> {
    seq![x]
}

/// The `u8` a one-byte image holds.
pub open spec fn spec_u8_from_le_bytes(b: Seq<u8>) -> u8
    recommends
        b.len() == 1,
{
    b[0]
}

impl ByteEncoded for u8 {
    open spec fn sp_size() -> u16 {
        1
    }

    open spec fn sp_encode(&self) -> Seq<u8> {
        spec_u8_to_le_bytes(*self)
    }

    open spec fn sp_valid(b: Seq<u8>) -> bool {
        b.len() == 1
    }

    open spec fn sp_is_decode(b: Seq<u8>, v: &Self) -> bool {
        *v == spec_u8_from_le_bytes(b)
    }

    open spec fn sp_err(b: Seq<u8>) -> ByteEncodeError {
        sp_size_mismatch(1, b.len() as int)
    }

    proof fn lemma_fixed_total(b: Seq<u8>) {
    }

    proof fn lemma_encode_len(&self) {
    }

    fn byte_size() -> (r: u16) {
        1
    }

    fn encode(&self) -> (r: Vec<u8>) {
        let mut v: Vec<u8> = Vec::new();
        v.push(*self);
        proof {
            assert(v@ =~= self.sp_encode());
        }
        v
    }

    fn decode(bytes: &[u8]) -> (r: ByteEncodeResult<Self>) {
        if bytes.len() == 1 {
            Ok(*slice_subrange(bytes, 0, 1).first().unwrap())
        } else {
            Err(size_mismatch_error(1, bytes.len()))
        }
    }

    fn encode_into_writer(&self, writer: &mut Vec<u8>) {
        writer.push(*self);
        proof {
            assert(final(writer)@ =~= old(writer)@ + self.sp_encode());
        }
    }

    fn decode_from_reader(reader: &mut ByteReader<'_>) -> (r: ByteEncodeResult<Self>) {
        let buf = reader.read_exact(1)?;
        Ok(*slice_subrange(buf, 0, 1).first().unwrap())
    }
}

/// The size-mismatch error, as executable code.
pub fn size_mismatch_error(expected: usize, actual: usize) -> (r: ByteEncodeError)
    ensures
        r == sp_size_mismatch(expected as int, actual as int),
{
    if actual < expected {
        ByteEncodeError::NotEnoughBytes { expected, actual }
    } else {
        ByteEncodeError::TooManyBytes { expected, actual }
    }
}

impl ByteEncoded for u16 {
    open spec fn sp_size() -> u16 {
        2
    }

    open spec fn sp_encode(&self) -> Seq<u8> {
        spec_u16_to_le_bytes(*self)
    }

    open spec fn sp_valid(b: Seq<u8>) -> bool {
        b.len() == 2
    }

    open spec fn sp_is_decode(b: Seq<u8>, v: &Self) -> bool {
        *v == spec_u16_from_le_bytes(b)
    }

    open spec fn sp_err(b: Seq<u8>) -> ByteEncodeError {
        sp_size_mismatch(2, b.len() as int)
    }

    proof fn lemma_fixed_total(b: Seq<u8>) {
    }

    proof fn lemma_encode_len(&self) {
        vstd::bytes::lemma_auto_spec_u16_to_from_le_bytes();
    }

    fn byte_size() -> (r: u16) {
        2
    }

    fn encode(&self) -> (r: Vec<u8>) {
        u16_to_le_bytes(*self)
    }

    fn decode(bytes: &[u8]) -> (r: ByteEncodeResult<Self>) {
        if bytes.len() == 2 {
            Ok(u16_from_le_bytes(bytes))
        } else {
            Err(size_mismatch_error(2, bytes.len()))
        }
    }

    fn encode_into_writer(&self, writer: &mut Vec<u8>) {
        let mut le = u16_to_le_bytes(*self);
        writer.append(&mut le);
    }

    fn decode_from_reader(reader: &mut ByteReader<'_>) -> (r: ByteEncodeResult<Self>) {
        let buf = reader.read_exact(2)?;
        Ok(u16_from_le_bytes(buf))
    }
}

impl ByteEncoded for u32 {
    open spec fn sp_size() -> u16 {
        4
    }

    open spec fn sp_encode(&self) -> Seq<u8> {
        spec_u32_to_le_bytes(*self)
    }

    open spec fn sp_valid(b: Seq<u8>) -> bool {
        b.len() == 4
    }

    open spec fn sp_is_decode(b: Seq<u8>, v: &Self) -> bool {
        *v == spec_u32_from_le_bytes(b)
    }

    open spec fn sp_err(b: Seq<u8>) -> ByteEncodeError {
        sp_size_mismatch(4, b.len() as int)
    }

    proof fn lemma_fixed_total(b: Seq<u8>) {
    }

    proof fn lemma_encode_len(&self) {
        vstd::bytes::lemma_auto_spec_u32_to_from_le_bytes();
    }

    fn byte_size() -> (r: u16) {
        4
    }

    fn encode(&self) -> (r: Vec<u8>) {
        u32_to_le_bytes(*self)
    }

    fn decode(bytes: &[u8]) -> (r: ByteEncodeResult<Self>) {
        if bytes.len() == 4 {
            Ok(u32_from_le_bytes(bytes))
        } else {
            Err(size_mismatch_error(4, bytes.len()))
        }
    }

    fn encode_into_writer(&self, writer: &mut Vec<u8>) {
        let mut le = u32_to_le_bytes(*self);
        writer.append(&mut le);
    }

    fn decode_from_reader(reader: &mut ByteReader<'_>) -> (r: ByteEncodeResult<Self>) {
        let buf = reader.read_exact(4)?;
        Ok(u32_from_le_bytes(buf))
    }
}

impl ByteEncoded for u64 {
    open spec fn sp_size() -> u16 {
        8
    }

    open spec fn sp_encode(&self) -> Seq<u8> {
        spec_u64_to_le_bytes(*self)
    }

    open spec fn sp_valid(b: Seq<u8>) -> bool {
        b.len() == 8
    }

    open spec fn sp_is_decode(b: Seq<u8>, v: &Self) -> bool {
        *v == spec_u64_from_le_bytes(b)
    }

    open spec fn sp_err(b: Seq<u8>) -> ByteEncodeError {
        sp_size_mismatch(8, b.len() as int)
    }

    proof fn lemma_fixed_total(b: Seq<u8>) {
    }

    proof fn lemma_encode_len(&self) {
        vstd::bytes::lemma_auto_spec_u64_to_from_le_bytes();
    }

    fn byte_size() -> (r: u16) {
        8
    }

    fn encode(&self) -> (r: Vec<u8>) {
        u64_to_le_bytes(*self)
    }

    fn decode(bytes: &[u8]) -> (r: ByteEncodeResult<Self>) {
        if bytes.len() == 8 {
            Ok(u64_from_le_bytes(bytes))
        } else {
            Err(size_mismatch_error(8, bytes.len()))
        }
    }

    fn encode_into_writer(&self, writer: &mut Vec<u8>) {
        let mut le = u64_to_le_bytes(*self);
        writer.append(&mut le);
    }

    fn decode_from_reader(reader: &mut ByteReader<'_>) -> (r: ByteEncodeResult<Self>) {
        let buf = reader.read_exact(8)?;
        Ok(u64_from_le_bytes(buf))
    }
}

} // verus!

verus! {

/// The `i16` that a two-byte little-endian image holds.
pub open spec fn spec_i16_from_le_bytes(b: Seq<u8>) -> i16
    recommends
        b.len() == 2,
{
    let u = spec_u16_from_le_bytes(b);
    if u < 0x8000 {
        u as i16
    } else {
        (u - 0x10000) as i16
    }
}

/// The `i32` that a four-byte little-endian image holds.
pub open spec fn spec_i32_from_le_bytes(b: Seq<u8>) -> i32
    recommends
        b.len() == 4,
{
    let u = spec_u32_from_le_bytes(b);
    if u < 0x8000_0000 {
        u as i32
    } else {
        (u - 0x1_0000_0000) as i32
    }
}

/// The `i64` that an eight-byte little-endian image holds.
pub open spec fn spec_i64_from_le_bytes(b: Seq<u8>) -> i64
    recommends
        b.len() == 8,
{
    let u = spec_u64_from_le_bytes(b);
    if u < 0x8000_0000_0000_0000 {
        u as i64
    } else {
        (u - 0x1_0000_0000_0000_0000) as i64
    }
}

/// The two-byte little-endian image of an `i16`.
pub open spec fn spec_i16_to_le_bytes(x: i16) -> Seq<u8> {
    spec_u16_to_le_bytes((if x >= 0 { x as int } else { x + 0x10000 }) as u16)
}

/// The four-byte little-endian image of an `i32`.
pub open spec fn spec_i32_to_le_bytes(x: i32) -> Seq<u8> {
    spec_u32_to_le_bytes((if x >= 0 { x as int } else { x + 0x1_0000_0000 }) as u32)
}

/// The eight-byte little-endian image of an `i64`.
pub open spec fn spec_i64_to_le_bytes(x: i64) -> Seq<u8> {
    spec_u64_to_le_bytes((if x >= 0 { x as int } else { x + 0x1_0000_0000_0000_0000 }) as u64)
}

/// The one-byte image of an `i8`.
pub open spec fn spec_i8_to_le_bytes(x: i8) -> Seq<u8> {
    seq![(if x >= 0 { x as int } else { x + 0x100 }) as u8]
}

pub fn read_u64(bytes: &[u8]) -> (r: u64)
    requires
        bytes@.len() == 8,
    ensures
        r == spec_u64_from_le_bytes(bytes@),
{
    u64_from_le_bytes(bytes)
}

pub fn read_u32(bytes: &[u8]) -> (r: u32)
    requires
        bytes@.len() == 4,
    ensures
        r == spec_u32_from_le_bytes(bytes@),
{
    u32_from_le_bytes(bytes)
}

pub fn read_u16(bytes: &[u8]) -> (r: u16)
    requires
        bytes@.len() == 2,
    ensures
        r == spec_u16_from_le_bytes(bytes@),
{
    u16_from_le_bytes(bytes)
}

pub fn read_u8(bytes: &[u8]) -> (r: u8)
    requires
        bytes@.len() == 1,
    ensures
        r == spec_u8_from_le_bytes(bytes@),
{
    *slice_subrange(bytes, 0, 1).first().unwrap()
}

pub fn read_i16(bytes: &[u8]) -> (r: i16)
    requires
        bytes@.len() == 2,
    ensures
        r == spec_i16_from_le_bytes(bytes@),
{
    let u = u16_from_le_bytes(bytes);
    if u < 0x8000 {
        u as i16
    } else {
        ((u as i32) - 0x10000) as i16
    }
}

pub fn read_i32(bytes: &[u8]) -> (r: i32)
    requires
        bytes@.len() == 4,
    ensures
        r == spec_i32_from_le_bytes(bytes@),
{
    let u = u32_from_le_bytes(bytes);
    if u < 0x8000_0000 {
        u as i32
    } else {
        ((u as i64) - 0x1_0000_0000) as i32
    }
}

pub fn read_i64(bytes: &[u8]) -> (r: i64)
    requires
        bytes@.len() == 8,
    ensures
        r == spec_i64_from_le_bytes(bytes@),
{
    let u = u64_from_le_bytes(bytes);
    if u < 0x8000_0000_0000_0000 {
        u as i64
    } else {
        ((u as i128) - 0x1_0000_0000_0000_0000) as i64
    }
}

pub fn write_u64(bytes: &mut Vec<u8>, value: u64)
    requires
        old(bytes)@.len() == 8,
    ensures
        final(bytes)@ == spec_u64_to_le_bytes(value),
{
    *bytes = u64_to_le_bytes(value);
}

pub fn write_u32(bytes: &mut Vec<u8>, value: u32)
    requires
        old(bytes)@.len() == 4,
    ensures
        final(bytes)@ == spec_u32_to_le_bytes(value),
{
    *bytes = u32_to_le_bytes(value);
}

pub fn write_u16(bytes: &mut Vec<u8>, value: u16)
    requires
        old(bytes)@.len() == 2,
    ensures
        final(bytes)@ == spec_u16_to_le_bytes(value),
{
    *bytes = u16_to_le_bytes(value);
}

pub fn write_u8(bytes: &mut Vec<u8>, value: u8)
    requires
        old(bytes)@.len() == 1,
    ensures
        final(bytes)@ == spec_u8_to_le_bytes(value),
{
    bytes.set(0, value);
    proof {
        assert(final(bytes)@ =~= spec_u8_to_le_bytes(value));
    }
}

pub fn write_i8(bytes: &mut Vec<u8>, value: i8)
    requires
        old(bytes)@.len() == 1,
    ensures
        final(bytes)@ == spec_i8_to_le_bytes(value),
{
    let u: u8 = if value >= 0 {
        value as u8
    } else {
        ((value as i16) + 0x100) as u8
    };
    bytes.set(0, u);
    proof {
        assert(final(bytes)@ =~= spec_i8_to_le_bytes(value));
    }
}

pub fn write_i16(bytes: &mut Vec<u8>, value: i16)
    requires
        old(bytes)@.len() == 2,
    ensures
        final(bytes)@ == spec_i16_to_le_bytes(value),
{
    let u: u16 = if value >= 0 {
        value as u16
    } else {
        ((value as i32) + 0x10000) as u16
    };
    *bytes = u16_to_le_bytes(u);
}

pub fn write_i32(bytes: &mut Vec<u8>, value: i32)
    requires
        old(bytes)@.len() == 4,
    ensures
        final(bytes)@ == spec_i32_to_le_bytes(value),
{
    let u: u32 = if value >= 0 {
        value as u32
    } else {
        ((value as i64) + 0x1_0000_0000) as u32
    };
    *bytes = u32_to_le_bytes(u);
}

pub fn write_i64(bytes: &mut Vec<u8>, value: i64)
    requires
        old(bytes)@.len() == 8,
    ensures
        final(bytes)@ == spec_i64_to_le_bytes(value),
{
    let u: u64 = if value >= 0 {
        value as u64
    } else {
        (((value as i128) + 0x1_0000_0000_0000_0000)) as u64
    };
    *bytes = u64_to_le_bytes(u);
}

/// Relies on `String::from_utf8`: it returns the string whose characters
/// the bytes encode in UTF-8, and fails exactly when the bytes are not
/// valid UTF-8, as `vstd::utf8` models both.
#[verifier::external_body]
fn string_from_utf8(bytes: Vec<u8>) -> (r: ByteEncodeResult<String>)
    ensures
        match r {
            Ok(s) => valid_utf8(bytes@) && s@ == decode_utf8(bytes@),
            Err(e) => !valid_utf8(bytes@) && e == ByteEncodeError::FromUtf8Error,
        },
{
    match String::from_utf8(bytes) {
        Ok(s) => Ok(s),
        Err(_) => Err(ByteEncodeError::FromUtf8Error),
    }
}

/// Copies the UTF-8 bytes of `value` into the buffer, which must have
/// exactly that many bytes.
pub fn write_string(bytes: &mut Vec<u8>, value: &str)
    requires
        old(bytes)@.len() == encode_utf8(value@).len(),
    ensures
        final(bytes)@ == encode_utf8(value@),
{
    *bytes = slice_to_vec(value.as_bytes());
}

/// Decodes the buffer as UTF-8 text; fails when it is not valid UTF-8.
pub fn read_string(bytes: &[u8]) -> (r: ByteEncodeResult<String>)
    ensures
        match r {
            Ok(s) => valid_utf8(bytes@) && s@ == decode_utf8(bytes@),
            Err(e) => !valid_utf8(bytes@) && e == ByteEncodeError::FromUtf8Error,
        },
{
    string_from_utf8(slice_to_vec(bytes))
}

impl ByteEncoded for String {
    open spec fn sp_size() -> u16 {
        0
    }

    open spec fn sp_encode(&self) -> Seq<u8> {
        encode_utf8(self@)
    }

    open spec fn sp_valid(b: Seq<u8>) -> bool {
        valid_utf8(b)
    }

    open spec fn sp_is_decode(b: Seq<u8>, v: &Self) -> bool {
        v@ == decode_utf8(b)
    }

    open spec fn sp_err(b: Seq<u8>) -> ByteEncodeError {
        ByteEncodeError::FromUtf8Error
    }

    proof fn lemma_fixed_total(b: Seq<u8>) {
    }

    proof fn lemma_encode_len(&self) {
    }

    fn byte_size() -> (r: u16) {
        0
    }

    fn encode(&self) -> (r: Vec<u8>) {
        slice_to_vec(self.as_str().as_bytes())
    }

    fn decode(bytes: &[u8]) -> (r: ByteEncodeResult<Self>) {
        read_string(bytes)
    }

    fn encode_into_writer(&self, writer: &mut Vec<u8>) {
        let mut le = slice_to_vec(self.as_str().as_bytes());
        writer.append(&mut le);
    }

    fn decode_from_reader(reader: &mut ByteReader<'_>) -> (r: ByteEncodeResult<Self>) {
        let rest = reader.read_to_end();
        read_string(rest)
    }
}

} // verus!

verus! {

/// The `j`-th fixed-size chunk of a byte sequence, for elements of type `T`.
pub open spec fn sp_chunk<T: ByteEncoded>(b: Seq<u8>, j: int) -> Seq<u8> {
    b.subrange(j * (T::sp_size() as int), (j + 1) * (T::sp_size() as int))
}

/// Whether `s[j]` is the decode of the `j`-th chunk of `b`.
pub open spec fn sp_elem_is_decode<T: ByteEncoded>(b: Seq<u8>, s: Seq<T>, j: int) -> bool {
    T::sp_is_decode(sp_chunk::<T>(b, j), &s[j])
}

/// The concatenation of the byte images of a sequence of values.
pub open spec fn sp_encode_seq<T: ByteEncoded>(s: Seq<T>) -> Seq<u8>
    decreases s.len(),
{
    if s.len() == 0 {
        seq![]
    } else {
        sp_encode_seq(s.drop_last()) + s.last().sp_encode()
    }
}

/// Appending one value appends its byte image.
pub proof fn lemma_sp_encode_seq_push<T: ByteEncoded>(s: Seq<T>, x: T)
    ensures
        sp_encode_seq(s.push(x)) == sp_encode_seq(s) + x.sp_encode(),
{
    assert(s.push(x).drop_last() =~= s);
    assert(s.push(x).last() == x);
}

impl<T: ByteEncoded> ByteEncoded for Vec<T> {
    open spec fn sp_size() -> u16 {
        0
    }

    open spec fn sp_encode(&self) -> Seq<u8> {
        sp_encode_seq(self@)
    }

    open spec fn sp_valid(b: Seq<u8>) -> bool {
        if T::sp_size() > 0 {
            b.len() as int % (T::sp_size() as int) == 0
        } else {
            b.len() == 0 || T::sp_valid(b)
        }
    }

    open spec fn sp_is_decode(b: Seq<u8>, v: &Self) -> bool {
        if T::sp_size() > 0 {
            &&& v@.len() as int == b.len() as int / (T::sp_size() as int)
            &&& forall|j: int| 0 <= j < v@.len() ==> #[trigger] sp_elem_is_decode::<T>(b, v@, j)
        } else {
            if b.len() == 0 {
                v@.len() == 0
            } else {
                v@.len() == 1 && T::sp_is_decode(b, &v@[0])
            }
        }
    }

    open spec fn sp_err(b: Seq<u8>) -> ByteEncodeError {
        if T::sp_size() > 0 {
            ByteEncodeError::InvalidSize {
                expected: T::sp_size() as usize,
                actual: b.len() as usize,
            }
        } else {
            T::sp_err(b)
        }
    }

    proof fn lemma_fixed_total(b: Seq<u8>) {
    }

    proof fn lemma_encode_len(&self) {
    }

    fn byte_size() -> (r: u16) {
        0
    }

    fn encode(&self) -> (r: Vec<u8>) {
        let mut buf: Vec<u8> = Vec::new();
        let mut k: usize = 0;
        while k < self.len()
            invariant
                k <= self@.len(),
                buf@ == sp_encode_seq(self@.take(k as int)),
            decreases self@.len() - k,
        {
            let mut piece = <T as ByteEncoded>::encode(&self[k]);
            buf.append(&mut piece);
            proof {
                assert(self@.take(k as int).push(self@[k as int]) =~= self@.take(k + 1));
                lemma_sp_encode_seq_push(self@.take(k as int), self@[k as int]);
            }
            k = k + 1;
        }
        proof {
            assert(self@.take(self@.len() as int) =~= self@);
        }
        buf
    }

    fn decode(bytes: &[u8]) -> (r: ByteEncodeResult<Self>) {
        let size = <T as ByteEncoded>::byte_size() as usize;
        if size != 0 {
            if bytes.len() % size != 0 {
                return Err(ByteEncodeError::InvalidSize { expected: size, actual: bytes.len() });
            }
            let ghost sz = size as int;
            let mut items: Vec<T> = Vec::new();
            let mut i: usize = 0;
            while i < bytes.len()
                invariant
                    0 < size == T::sp_size(),
                    i <= bytes@.len(),
                    bytes@.len() as int % sz == 0,
                    sz == size as int,
                    i as int == items@.len() * sz,
                    forall|j: int| 0 <= j < items@.len()
                        ==> #[trigger] sp_elem_is_decode::<T>(bytes@, items@, j),
                decreases bytes@.len() - i,
            {
                proof {
                    let len = bytes@.len() as int;
                    let k = items@.len() as int;
                    assert(i + size <= len) by (nonlinear_arith)
                        requires
                            i as int == k * sz,
                            0 <= k,
                            i < len,
                            len % sz == 0,
                            0 < sz,
                            sz == size as int,
                    ;
                }
                let chunk = slice_subrange(bytes, i, i + size);
                match <T as ByteEncoded>::decode(chunk) {
                    Ok(v) => {
                        let ghost old_items = items@;
                        items.push(v);
                        proof {
                            let k = old_items.len() as int;
                            assert((k + 1) * sz == k * sz + sz) by (nonlinear_arith);
                            assert(sp_chunk::<T>(bytes@, k) =~= chunk@);
                            assert(sp_elem_is_decode::<T>(bytes@, items@, k));
                            assert forall|j: int| 0 <= j < items@.len()
                                implies #[trigger] sp_elem_is_decode::<T>(bytes@, items@, j) by {
                                if j < k {
                                    assert(sp_elem_is_decode::<T>(bytes@, old_items, j));
                                    assert(items@[j] == old_items[j]);
                                }
                            }
                        }
                    },
                    Err(_) => {
                        proof {
                            T::lemma_fixed_total(chunk@);
                        }
                        return Err(ByteEncodeError::InvalidSize {
                            expected: size,
                            actual: bytes.len(),
                        });
                    },
                }
                i = i + size;
            }
            proof {
                let len = bytes@.len() as int;
                let k = items@.len() as int;
                assert(k == len / sz) by (nonlinear_arith)
                    requires
                        len == k * sz,
                        0 < sz,
                ;
            }
            Ok(items)
        } else {
            if bytes.len() == 0 {
                Ok(Vec::new())
            } else {
                let v = <T as ByteEncoded>::decode(bytes)?;
                let mut items: Vec<T> = Vec::new();
                items.push(v);
                Ok(items)
            }
        }
    }

    fn encode_into_writer(&self, writer: &mut Vec<u8>) {
        let mut piece = <Vec<T> as ByteEncoded>::encode(self);
        writer.append(&mut piece);
    }

    fn decode_from_reader(reader: &mut ByteReader<'_>) -> (r: ByteEncodeResult<Self>) {
        let rest = reader.read_to_end();
        <Vec<T> as ByteEncoded>::decode(rest)
    }
}

} // verus!

verus! {

/// Round trip for `u8`: the byte image of any value decodes back to it.
pub proof fn lemma_round_trip_u8(v: u8)
    ensures
        <u8 as ByteEncoded>::sp_valid(v.sp_encode()),
        <u8 as ByteEncoded>::sp_is_decode(v.sp_encode(), &v),
{
}

/// Round trip for `u16`: the byte image of any value decodes back to it.
pub proof fn lemma_round_trip_u16(v: u16)
    ensures
        <u16 as ByteEncoded>::sp_valid(v.sp_encode()),
        <u16 as ByteEncoded>::sp_is_decode(v.sp_encode(), &v),
{
    vstd::bytes::lemma_auto_spec_u16_to_from_le_bytes();
    assert(spec_u16_to_le_bytes(v).len() == 2);
}

/// Round trip for `u32`: the byte image of any value decodes back to it.
pub proof fn lemma_round_trip_u32(v: u32)
    ensures
        <u32 as ByteEncoded>::sp_valid(v.sp_encode()),
        <u32 as ByteEncoded>::sp_is_decode(v.sp_encode(), &v),
{
    vstd::bytes::lemma_auto_spec_u32_to_from_le_bytes();
    assert(spec_u32_to_le_bytes(v).len() == 4);
}

/// Round trip for `u64`: the byte image of any value decodes back to it.
pub proof fn lemma_round_trip_u64(v: u64)
    ensures
        <u64 as ByteEncoded>::sp_valid(v.sp_encode()),
        <u64 as ByteEncoded>::sp_is_decode(v.sp_encode(), &v),
{
    vstd::bytes::lemma_auto_spec_u64_to_from_le_bytes();
}

} // verus!
