//! Low-level wire reading: a positional cursor over a byte buffer, and the
//! errors that decoding can produce.

use vstd::prelude::*;
use vstd::slice::slice_subrange;
use vstd::slice::slice_to_vec;

verus! {

/// The length that a record with a fixed layout requires its stated length
/// to have.
#[derive(PartialEq, Eq, Structural, Debug, Copy, Clone)]
pub enum MandatedLength {
    /// The record data must be exactly this long.
    Exactly(u16),

    /// The record data must be at least this long.
    AtLeast(u16),
}

/// Something that can go wrong while decoding DNS wire data.
#[derive(PartialEq, Eq, Structural, Debug, Copy, Clone)]
pub enum WireError {
    /// The buffer ended before the requested bytes could be read.
    IO,

    /// A record's stated length disagrees with the length its layout
    /// mandates.
    WrongRecordLength {
        /// The length stated on the wire.
        stated_length: u16,
        /// The length the record's layout mandates.
        mandated_length: MandatedLength,
    },

    /// A record's stated length disagrees with the length of its fixed
    /// fields plus its domain-name or self-described fields.
    WrongLabelLength {
        /// The length stated on the wire.
        stated_length: u16,
        /// The length computed from the decoded fields.
        length_after_labels: u16,
    },

    /// A domain-name length byte uses the reserved bit patterns.
    MalformedLabel,

    /// A domain-name compression pointer points at or past its own
    /// position.
    ForwardPointer,

    /// A domain name followed more compression pointers than the decoder
    /// allows in one chain.
    TooManyPointers,

    /// A domain name's encoded length exceeds the limit of 255 bytes.
    NameTooLong,

    /// A record used a layout variant that the decoder does not support.
    UnsupportedFormat,
}

/// The big-endian value of two bytes.
pub open spec fn be_u16(hi: u8, lo: u8) -> int {
    hi * 256 + lo
}

/// The big-endian value of four bytes.
pub open spec fn be_u32(b0: u8, b1: u8, b2: u8, b3: u8) -> int {
    b0 * 0x1000000 + b1 * 0x10000 + b2 * 0x100 + b3
}

/// `x` clamped into the range of a 16-bit integer.
pub open spec fn clamp_u16(x: int) -> u16 {
    if x > 65535 {
        65535
    } else if x < 0 {
        0
    } else {
        x as u16
    }
}

/// The length byte of the character-string at `pos`, or zero when `pos`
/// is out of range.
pub open spec fn spec_char_string_len(bytes: Seq<u8>, pos: int) -> int {
    if 0 <= pos < bytes.len() {
        bytes[pos] as int
    } else {
        0
    }
}

/// Maps a decode result to its mathematical model, leaving errors as they
/// are.
pub open spec fn res_model<T: View>(r: Result<T, WireError>) -> Result<T::V, WireError> {
    match r {
        Ok(v) => Ok(v@),
        Err(e) => Err(e),
    }
}

/// A positional reader over a borrowed byte buffer. It never copies or
/// mutates the buffer; reads advance the position.
pub struct Cursor<'a> {
    /// The underlying buffer.
    pub buf: &'a [u8],
    /// The current read position.
    pub pos: usize,
}

impl<'a> Cursor<'a> {
    /// The whole underlying buffer.
    pub open spec fn bytes(&self) -> Seq<u8> {
        self.buf@
    }

    /// The current read position.
    pub open spec fn position(&self) -> int {
        self.pos as int
    }

    /// The position never runs past the end of the buffer.
    pub open spec fn wf(&self) -> bool {
        self.pos <= self.buf@.len()
    }

    /// The bytes from the current position to the end of the buffer.
    pub open spec fn rest(&self) -> Seq<u8> {
        self.buf@.skip(self.pos as int)
    }

    /// Creates a cursor at the start of the buffer.
    pub fn new(buf: &'a [u8]) -> (c: Self)
        ensures
            c.bytes() == buf@,
            c.position() == 0,
            c.wf(),
    {
        Cursor { buf, pos: 0 }
    }

    /// How many bytes remain to be read.
    pub fn remaining(&self) -> (n: usize)
        requires
            self.wf(),
        ensures
            n == self.bytes().len() - self.position(),
    {
        self.buf.len() - self.pos
    }

    /// Reads one byte, advancing the position by one.
    pub fn read_u8(&mut self) -> (r: Result<u8, WireError>)
        requires
            old(self).wf(),
        ensures
            final(self).wf(),
            final(self).bytes() == old(self).bytes(),
            match r {
                Ok(b) => old(self).position() + 1 <= old(self).bytes().len()
                    && b == old(self).bytes()[old(self).position()]
                    && final(self).position() == old(self).position() + 1,
                Err(e) => e == WireError::IO
                    && old(self).position() + 1 > old(self).bytes().len()
                    && final(self).position() == old(self).position(),
            },
    {
        if self.pos < self.buf.len() {
            let b = *slice_subrange(self.buf, self.pos, self.pos + 1).first().unwrap();
            self.pos = self.pos + 1;
            Ok(b)
        } else {
            Err(WireError::IO)
        }
    }

    /// Reads a big-endian 16-bit integer, advancing the position by two.
    pub fn read_u16(&mut self) -> (r: Result<u16, WireError>)
        requires
            old(self).wf(),
        ensures
            final(self).wf(),
            final(self).bytes() == old(self).bytes(),
            match r {
                Ok(v) => old(self).position() + 2 <= old(self).bytes().len()
                    && v == be_u16(
                        old(self).bytes()[old(self).position()],
                        old(self).bytes()[old(self).position() + 1],
                    )
                    && final(self).position() == old(self).position() + 2,
                Err(e) => e == WireError::IO
                    && old(self).position() + 2 > old(self).bytes().len()
                    && final(self).position() == old(self).position(),
            },
    {
        if self.buf.len() - self.pos >= 2 {
            let hi = *slice_subrange(self.buf, self.pos, self.pos + 1).first().unwrap();
            let lo = *slice_subrange(self.buf, self.pos + 1, self.pos + 2).first().unwrap();
            self.pos = self.pos + 2;
            Ok((hi as u16) * 256 + (lo as u16))
        } else {
            Err(WireError::IO)
        }
    }

    /// Reads a big-endian 32-bit integer, advancing the position by four.
    pub fn read_u32(&mut self) -> (r: Result<u32, WireError>)
        requires
            old(self).wf(),
        ensures
            final(self).wf(),
            final(self).bytes() == old(self).bytes(),
            match r {
                Ok(v) => old(self).position() + 4 <= old(self).bytes().len()
                    && v == be_u32(
                        old(self).bytes()[old(self).position()],
                        old(self).bytes()[old(self).position() + 1],
                        old(self).bytes()[old(self).position() + 2],
                        old(self).bytes()[old(self).position() + 3],
                    )
                    && final(self).position() == old(self).position() + 4,
                Err(e) => e == WireError::IO
                    && old(self).position() + 4 > old(self).bytes().len()
                    && final(self).position() == old(self).position(),
            },
    {
        if self.buf.len() - self.pos >= 4 {
            let b0 = *slice_subrange(self.buf, self.pos, self.pos + 1).first().unwrap();
            let b1 = *slice_subrange(self.buf, self.pos + 1, self.pos + 2).first().unwrap();
            let b2 = *slice_subrange(self.buf, self.pos + 2, self.pos + 3).first().unwrap();
            let b3 = *slice_subrange(self.buf, self.pos + 3, self.pos + 4).first().unwrap();
            self.pos = self.pos + 4;
            Ok((b0 as u32) * 0x1000000 + (b1 as u32) * 0x10000 + (b2 as u32) * 0x100 + (b3 as u32))
        } else {
            Err(WireError::IO)
        }
    }

    /// Reads one length-prefixed character-string: a length byte followed
    /// by that many bytes. Returns the bytes and how many bytes of the
    /// buffer the whole field occupies.
    pub fn read_char_string(&mut self) -> (r: Result<(Vec<u8>, u16), WireError>)
        requires
            old(self).wf(),
        ensures
            final(self).wf(),
            final(self).bytes() == old(self).bytes(),
            match r {
                Ok(p) => old(self).position() < old(self).bytes().len()
                    && p.1 == 1 + old(self).bytes()[old(self).position()]
                    && old(self).position() + p.1 <= old(self).bytes().len()
                    && p.0@ == old(self).bytes().subrange(
                        old(self).position() + 1,
                        old(self).position() + p.1,
                    )
                    && final(self).position() == old(self).position() + p.1,
                Err(e) => e == WireError::IO
                    && old(self).position() + 1 + spec_char_string_len(
                        old(self).bytes(),
                        old(self).position(),
                    ) > old(self).bytes().len()
                    && final(self).position() == old(self).position(),
            },
    {
        if self.pos >= self.buf.len() {
            return Err(WireError::IO);
        }
        let n = *slice_subrange(self.buf, self.pos, self.pos + 1).first().unwrap() as usize;
        if n > self.buf.len() - (self.pos + 1) {
            return Err(WireError::IO);
        }
        let piece = slice_subrange(self.buf, self.pos + 1, self.pos + 1 + n);
        self.pos = self.pos + 1 + n;
        Ok((slice_to_vec(piece), (n as u16) + 1))
    }

    /// Reads exactly `n` bytes into an owned vector, advancing the position
    /// by `n`.
    pub fn read_bytes(&mut self, n: usize) -> (r: Result<Vec<u8>, WireError>)
        requires
            old(self).wf(),
        ensures
            final(self).wf(),
            final(self).bytes() == old(self).bytes(),
            match r {
                Ok(v) => old(self).position() + n <= old(self).bytes().len()
                    && v@ == old(self).bytes().subrange(
                        old(self).position(),
                        old(self).position() + n,
                    )
                    && final(self).position() == old(self).position() + n,
                Err(e) => e == WireError::IO
                    && old(self).position() + n > old(self).bytes().len()
                    && final(self).position() == old(self).position(),
            },
    {
        if n <= self.buf.len() - self.pos {
            let piece = slice_subrange(self.buf, self.pos, self.pos + n);
            self.pos = self.pos + n;
            Ok(slice_to_vec(piece))
        } else {
            Err(WireError::IO)
        }
    }
}

} // verus!
