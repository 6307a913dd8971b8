//! The cursor: big-endian reads that move forward over a byte buffer.

use crate::error::{DecodeError, DecodeErrorView};
use crate::outcome::{Decoded, plain, viewed};
use vstd::prelude::*;
use vstd::slice::slice_subrange;

verus! {

/// The byte at `pos`, as an integer.
pub open spec fn byte_at(bytes: Seq<u8>, pos: int) -> int {
    bytes[pos] as int
}

/// The big-endian value of the two bytes from `pos` on.
pub open spec fn be16(bytes: Seq<u8>, pos: int) -> u16 {
    (byte_at(bytes, pos) * 0x100 + byte_at(bytes, pos + 1)) as u16
}

/// The big-endian value of the four bytes from `pos` on.
pub open spec fn be32(bytes: Seq<u8>, pos: int) -> u32 {
    (byte_at(bytes, pos) * 0x100_0000 + byte_at(bytes, pos + 1) * 0x1_0000 + byte_at(
        bytes,
        pos + 2,
    ) * 0x100 + byte_at(bytes, pos + 3)) as u32
}

/// Whether `width` bytes can be read from `pos` on.
pub open spec fn fits(bytes: Seq<u8>, pos: int, width: int) -> bool {
    0 <= pos && 0 <= width && pos + width <= bytes.len()
}

/// The failure of a read of `width` bytes at `pos`.
pub open spec fn eof(pos: int, width: int) -> DecodeErrorView {
    DecodeErrorView::UnexpectedEof { offset: pos, requested: width }
}

/// A read of one byte at `pos`.
pub open spec fn spec_u1(bytes: Seq<u8>, pos: int) -> Decoded<u8> {
    if fits(bytes, pos, 1) {
        Ok((bytes[pos], pos + 1))
    } else {
        Err(eof(pos, 1))
    }
}

/// A read of a big-endian 16-bit value at `pos`.
pub open spec fn spec_u2(bytes: Seq<u8>, pos: int) -> Decoded<u16> {
    if fits(bytes, pos, 2) {
        Ok((be16(bytes, pos), pos + 2))
    } else {
        Err(eof(pos, 2))
    }
}

/// A read of a big-endian 32-bit value at `pos`.
pub open spec fn spec_u4(bytes: Seq<u8>, pos: int) -> Decoded<u32> {
    if fits(bytes, pos, 4) {
        Ok((be32(bytes, pos), pos + 4))
    } else {
        Err(eof(pos, 4))
    }
}

/// A read of the `len` bytes from `pos` on.
pub open spec fn spec_take(bytes: Seq<u8>, pos: int, len: int) -> Decoded<Seq<u8>> {
    if fits(bytes, pos, len) {
        Ok((bytes.subrange(pos, pos + len), pos + len))
    } else {
        Err(eof(pos, len))
    }
}

/// What a [`ClassParser`] stands for: the buffer it reads and how many bytes
/// of it are consumed.
pub ghost struct CursorView {
    pub bytes: Seq<u8>,
    pub position: int,
}

/// A parser for a Java class file (`.class` file).
///
/// This operates on a slice for optimum performance. It reads forward only:
/// no method moves the position back, and a failed read leaves it in place.
pub struct ClassParser<'class> {
    bytes: &'class [u8],
    position: usize,
}

impl<'class> View for ClassParser<'class> {
    type V = CursorView;

    closed spec fn view(&self) -> CursorView {
        CursorView { bytes: self.bytes@, position: self.position as int }
    }
}

impl<'class> ClassParser<'class> {
    /// Construct a new [`ClassParser`] instance by providing a slice of bytes
    /// to parse from.
    ///
    /// [`ClassParser`]: crate::ClassParser
    pub fn new(bytes: &'class [u8]) -> (parser: Self)
        ensures
            parser@ == (CursorView { bytes: bytes@, position: 0 }),
    {
        Self { bytes, position: 0 }
    }

    /// The number of bytes consumed so far.
    pub fn position(&self) -> (p: usize)
        ensures
            p as int == self@.position,
    {
        self.position
    }

    /// The number of bytes not yet consumed.
    pub fn remaining(&self) -> (n: usize)
        ensures
            n as int == if self@.position <= self@.bytes.len() {
                self@.bytes.len() - self@.position
            } else {
                0
            },
    {
        if self.position <= self.bytes.len() {
            self.bytes.len() - self.position
        } else {
            0
        }
    }

    /// Reads a 1-byte unsigned value from the bytes of the class file if it succeeds
    /// in doing so.
    pub fn u1(&mut self) -> (r: Result<u8, DecodeError>)
        ensures
            final(self)@.bytes == old(self)@.bytes,
            final(self)@.position >= old(self)@.position,
            r is Err ==> final(self)@.position == old(self)@.position,
            plain(r, final(self)@.position) == spec_u1(old(self)@.bytes, old(self)@.position),
    {
        if self.remaining() < 1 {
            return Err(DecodeError::UnexpectedEof { offset: self.position, requested: 1 });
        }
        let result: u8 = self.bytes[self.position];
        self.position = self.position + 1;
        Ok(result)
    }

    /// Reads a 2-byte unsigned value from the bytes of the class file if it succeeds
    /// in doing so.
    pub fn u2(&mut self) -> (r: Result<u16, DecodeError>)
        ensures
            final(self)@.bytes == old(self)@.bytes,
            final(self)@.position >= old(self)@.position,
            r is Err ==> final(self)@.position == old(self)@.position,
            plain(r, final(self)@.position) == spec_u2(old(self)@.bytes, old(self)@.position),
    {
        if self.remaining() < 2 {
            return Err(DecodeError::UnexpectedEof { offset: self.position, requested: 2 });
        }
        let high: u16 = self.bytes[self.position] as u16;
        let low: u16 = self.bytes[self.position + 1] as u16;
        self.position = self.position + 2;
        Ok(high * 0x100 + low)
    }

    /// Reads a 4-byte unsigned value from the bytes of the class file if it succeeds
    /// in doing so.
    pub fn u4(&mut self) -> (r: Result<u32, DecodeError>)
        ensures
            final(self)@.bytes == old(self)@.bytes,
            final(self)@.position >= old(self)@.position,
            r is Err ==> final(self)@.position == old(self)@.position,
            plain(r, final(self)@.position) == spec_u4(old(self)@.bytes, old(self)@.position),
    {
        if self.remaining() < 4 {
            return Err(DecodeError::UnexpectedEof { offset: self.position, requested: 4 });
        }
        let b0: u32 = self.bytes[self.position] as u32;
        let b1: u32 = self.bytes[self.position + 1] as u32;
        let b2: u32 = self.bytes[self.position + 2] as u32;
        let b3: u32 = self.bytes[self.position + 3] as u32;
        self.position = self.position + 4;
        Ok(b0 * 0x100_0000 + b1 * 0x1_0000 + b2 * 0x100 + b3)
    }

    /// Reads the next `len` bytes of the class file, as a span of the buffer
    /// itself, if that many remain.
    pub fn take(&mut self, len: usize) -> (r: Result<&'class [u8], DecodeError>)
        ensures
            final(self)@.bytes == old(self)@.bytes,
            final(self)@.position >= old(self)@.position,
            r is Err ==> final(self)@.position == old(self)@.position,
            viewed(r, final(self)@.position) == spec_take(
                old(self)@.bytes,
                old(self)@.position,
                len as int,
            ),
    {
        if self.position > self.bytes.len() || self.bytes.len() - self.position < len {
            return Err(DecodeError::UnexpectedEof { offset: self.position, requested: len });
        }
        let span: &'class [u8] = slice_subrange(self.bytes, self.position, self.position + len);
        self.position = self.position + len;
        Ok(span)
    }
}

} // verus!
