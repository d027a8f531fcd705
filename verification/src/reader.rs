use vstd::prelude::*;

use crate::error::ParseError;

verus! {

/// A big-endian 16-bit integer assembled from two bytes.
pub open spec fn be16(hi: u8, lo: u8) -> int {
    hi * 0x100 + lo
}

/// A big-endian 32-bit integer assembled from four bytes.
pub open spec fn be32(b0: u8, b1: u8, b2: u8, b3: u8) -> int {
    b0 * 0x1000000 + b1 * 0x10000 + b2 * 0x100 + b3
}

/// The sequential decode of one byte at `pos`, or `Io` when the input ends.
pub open spec fn spec_read_u8(b: Seq<u8>, pos: int) -> Result<(u8, int), ParseError> {
    if 0 <= pos && pos + 1 <= b.len() {
        Ok((b[pos], pos + 1))
    } else {
        Err(ParseError::Io)
    }
}

/// The sequential decode of a big-endian 16-bit integer at `pos`.
pub open spec fn spec_read_u16(b: Seq<u8>, pos: int) -> Result<(u16, int), ParseError> {
    if 0 <= pos && pos + 2 <= b.len() {
        Ok((be16(b[pos], b[pos + 1]) as u16, pos + 2))
    } else {
        Err(ParseError::Io)
    }
}

/// The sequential decode of a big-endian 32-bit integer at `pos`.
pub open spec fn spec_read_u32(b: Seq<u8>, pos: int) -> Result<(u32, int), ParseError> {
    if 0 <= pos && pos + 4 <= b.len() {
        Ok((be32(b[pos], b[pos + 1], b[pos + 2], b[pos + 3]) as u32, pos + 4))
    } else {
        Err(ParseError::Io)
    }
}

/// The sequential decode of a big-endian 64-bit integer at `pos`.
pub open spec fn spec_read_u64(b: Seq<u8>, pos: int) -> Result<(u64, int), ParseError> {
    if 0 <= pos && pos + 8 <= b.len() {
        Ok(
            (
                (be32(b[pos], b[pos + 1], b[pos + 2], b[pos + 3]) * 0x100000000 + be32(
                    b[pos + 4],
                    b[pos + 5],
                    b[pos + 6],
                    b[pos + 7],
                )) as u64,
                pos + 8,
            ),
        )
    } else {
        Err(ParseError::Io)
    }
}

/// The sequential read of exactly `n` raw bytes at `pos`.
pub open spec fn spec_read_bytes(b: Seq<u8>, pos: int, n: int) -> Result<
    (Seq<u8>, int),
    ParseError,
> {
    if 0 <= pos && 0 <= n && pos + n <= b.len() {
        Ok((b.subrange(pos, pos + n), pos + n))
    } else {
        Err(ParseError::Io)
    }
}

/// The two's-complement reading of a 32-bit word.
pub open spec fn as_signed32(u: u32) -> int {
    if u < 0x80000000 {
        u as int
    } else {
        u - 0x100000000
    }
}

/// The two's-complement reading of a 64-bit word.
pub open spec fn as_signed64(u: u64) -> int {
    if u < 0x8000000000000000 {
        u as int
    } else {
        u - 0x10000000000000000
    }
}

/// A cursor over a fully buffered byte source. All reads are sequential
/// and big-endian; a read past the end fails with `Io` and leaves the
/// cursor where it was.
pub struct Reader {
    pub data: Vec<u8>,
    pub pos: usize,
}

impl Reader {
    /// The cursor never stands past the end of the buffer.
    pub open spec fn wf(&self) -> bool {
        self.pos <= self.data@.len()
    }

    pub fn new(data: Vec<u8>) -> (r: Reader)
        ensures
            r.data@ == data@,
            r.pos == 0,
            r.wf(),
    {
        Reader { data, pos: 0 }
    }

    pub fn read_u8(&mut self) -> (r: Result<u8, ParseError>)
        requires
            old(self).wf(),
        ensures
            final(self).wf(),
            final(self).data@ == old(self).data@,
            match spec_read_u8(old(self).data@, old(self).pos as int) {
                Ok((v, p)) => r == Ok::<u8, ParseError>(v) && final(self).pos == p,
                Err(e) => r == Err::<u8, ParseError>(e) && final(self).pos == old(self).pos,
            },
    {
        if self.pos < self.data.len() {
            let v = self.data[self.pos];
            self.pos = self.pos + 1;
            Ok(v)
        } else {
            Err(ParseError::Io)
        }
    }

    pub fn read_u16(&mut self) -> (r: Result<u16, ParseError>)
        requires
            old(self).wf(),
        ensures
            final(self).wf(),
            final(self).data@ == old(self).data@,
            match spec_read_u16(old(self).data@, old(self).pos as int) {
                Ok((v, p)) => r == Ok::<u16, ParseError>(v) && final(self).pos == p,
                Err(e) => r == Err::<u16, ParseError>(e) && final(self).pos == old(self).pos,
            },
    {
        if self.data.len() - self.pos >= 2 {
            let hi = self.data[self.pos];
            let lo = self.data[self.pos + 1];
            self.pos = self.pos + 2;
            Ok((hi as u16) * 0x100 + (lo as u16))
        } else {
            Err(ParseError::Io)
        }
    }

    pub fn read_u32(&mut self) -> (r: Result<u32, ParseError>)
        requires
            old(self).wf(),
        ensures
            final(self).wf(),
            final(self).data@ == old(self).data@,
            match spec_read_u32(old(self).data@, old(self).pos as int) {
                Ok((v, p)) => r == Ok::<u32, ParseError>(v) && final(self).pos == p,
                Err(e) => r == Err::<u32, ParseError>(e) && final(self).pos == old(self).pos,
            },
    {
        if self.data.len() - self.pos >= 4 {
            let b0 = self.data[self.pos];
            let b1 = self.data[self.pos + 1];
            let b2 = self.data[self.pos + 2];
            let b3 = self.data[self.pos + 3];
            self.pos = self.pos + 4;
            Ok((b0 as u32) * 0x1000000 + (b1 as u32) * 0x10000 + (b2 as u32) * 0x100 + (b3 as u32))
        } else {
            Err(ParseError::Io)
        }
    }

    pub fn read_u64(&mut self) -> (r: Result<u64, ParseError>)
        requires
            old(self).wf(),
        ensures
            final(self).wf(),
            final(self).data@ == old(self).data@,
            match spec_read_u64(old(self).data@, old(self).pos as int) {
                Ok((v, p)) => r == Ok::<u64, ParseError>(v) && final(self).pos == p,
                Err(e) => r == Err::<u64, ParseError>(e) && final(self).pos == old(self).pos,
            },
    {
        if self.data.len() - self.pos >= 8 {
            let b0 = self.data[self.pos];
            let b1 = self.data[self.pos + 1];
            let b2 = self.data[self.pos + 2];
            let b3 = self.data[self.pos + 3];
            let b4 = self.data[self.pos + 4];
            let b5 = self.data[self.pos + 5];
            let b6 = self.data[self.pos + 6];
            let b7 = self.data[self.pos + 7];
            self.pos = self.pos + 8;
            let hi = (b0 as u64) * 0x1000000 + (b1 as u64) * 0x10000 + (b2 as u64) * 0x100 + (
            b3 as u64);
            let lo = (b4 as u64) * 0x1000000 + (b5 as u64) * 0x10000 + (b6 as u64) * 0x100 + (
            b7 as u64);
            Ok(hi * 0x100000000 + lo)
        } else {
            Err(ParseError::Io)
        }
    }

    /// Reads exactly `n` bytes; fewer remaining is a fatal `Io` error.
    pub fn read_bytes(&mut self, n: usize) -> (r: Result<Vec<u8>, ParseError>)
        requires
            old(self).wf(),
        ensures
            final(self).wf(),
            final(self).data@ == old(self).data@,
            match spec_read_bytes(old(self).data@, old(self).pos as int, n as int) {
                Ok((v, p)) => r matches Ok(out) && out@ == v && final(self).pos == p,
                Err(e) => r == Err::<Vec<u8>, ParseError>(e) && final(self).pos == old(self).pos,
            },
    {
        if self.data.len() - self.pos >= n {
            let mut out: Vec<u8> = Vec::new();
            let mut i: usize = 0;
            while i < n
                invariant
                    i <= n,
                    self.pos + n <= self.data@.len(),
                    self.pos + n <= usize::MAX,
                    out@ == self.data@.subrange(self.pos as int, self.pos + i),
                decreases n - i,
            {
                out.push(self.data[self.pos + i]);
                assert(out@ =~= self.data@.subrange(self.pos as int, self.pos + i + 1));
                i = i + 1;
            }
            let p = self.pos + n;
            self.pos = p;
            Ok(out)
        } else {
            Err(ParseError::Io)
        }
    }

    /// How many bytes are left to read.
    pub fn remaining(&self) -> (r: usize)
        requires
            self.wf(),
        ensures
            r == self.data@.len() - self.pos,
    {
        self.data.len() - self.pos
    }

    /// Reads every byte that is left, as the payload of a record whose
    /// layout is taken over verbatim.
    pub fn read_to_end(&mut self) -> (r: Vec<u8>)
        requires
            old(self).wf(),
        ensures
            final(self).wf(),
            final(self).data@ == old(self).data@,
            r@ == old(self).data@.subrange(old(self).pos as int, old(self).data@.len() as int),
            final(self).pos == final(self).data@.len(),
    {
        let n = self.data.len() - self.pos;
        match self.read_bytes(n) {
            Ok(v) => v,
            Err(_) => {
                // n never exceeds what is left, so read_bytes cannot fail.
                assert(false);
                Vec::new()
            },
        }
    }
}

} // verus!
