use crate::bytes::{be_value, le_value, read_u16_be, read_u16_le};
use crate::error::{Error, Result};
use vstd::prelude::*;

verus! {

/// The first `n` bytes from `i` on are the bytes from `i` to `i + n`.
pub broadcast proof fn lemma_take_of_suffix(s: Seq<u8>, i: int, n: int)
    requires
        0 <= i,
        0 <= n,
        i + n <= s.len(),
    ensures
        #[trigger] s.subrange(i, s.len() as int).take(n) == s.subrange(i, i + n),
{
    assert(s.subrange(i, s.len() as int).take(n) =~= s.subrange(i, i + n));
}

/// A read position over a byte slice.
pub struct Cursor<'a> {
    data: &'a [u8],
    pos: usize,
}

impl<'a> Cursor<'a> {
    /// The bytes under the cursor.
    pub closed spec fn bytes(&self) -> Seq<u8> {
        self.data@
    }

    /// The read position.
    pub closed spec fn pos(&self) -> int {
        self.pos as int
    }

    /// The bytes that are still to be read.
    pub open spec fn rest(&self) -> Seq<u8> {
        if self.pos() <= self.bytes().len() {
            self.bytes().subrange(self.pos(), self.bytes().len() as int)
        } else {
            Seq::empty()
        }
    }

    /// A cursor at the start of `data`.
    pub fn new(data: &'a [u8]) -> (r: Cursor<'a>)
        ensures
            r.bytes() == data@,
            r.pos() == 0,
    {
        Cursor { data, pos: 0 }
    }

    /// The read position.
    pub fn position(&self) -> (r: usize)
        ensures
            r == self.pos(),
    {
        self.pos
    }

    fn remaining(&self) -> (r: usize)
        ensures
            r == self.rest().len(),
            self.pos() <= self.bytes().len() ==> r == self.bytes().len() - self.pos(),
            self.pos() > self.bytes().len() ==> r == 0,
    {
        if self.pos <= self.data.len() {
            self.data.len() - self.pos
        } else {
            0
        }
    }

    /// Reads one byte.
    pub fn read_u8(&mut self) -> (r: Result<u8>)
        ensures
            final(self).bytes() == old(self).bytes(),
            old(self).rest().len() >= 1 ==> r == Ok::<u8, Error>(old(self).rest()[0])
                && final(self).pos() == old(self).pos() + 1,
            old(self).rest().len() < 1 ==> r == Err::<u8, Error>(Error::CursorEof),
    {
        if self.remaining() < 1 {
            return Err(Error::CursorEof);
        }
        let b = self.data[self.pos];
        self.pos = self.pos + 1;
        Ok(b)
    }

    /// Reads the next `N` bytes.
    pub fn read_array<const N: usize>(&mut self) -> (r: Result<[u8; N]>)
        ensures
            final(self).bytes() == old(self).bytes(),
            old(self).rest().len() >= N ==> r is Ok && r->Ok_0@ == old(self).rest().take(N as int)
                && final(self).pos() == old(self).pos() + N,
            old(self).rest().len() < N ==> r == Err::<[u8; N], Error>(Error::CursorEof),
    {
        let n = self.data.len();
        if self.remaining() < N {
            return Err(Error::CursorEof);
        }
        let mut out = [0u8; N];
        if N == 0 {
            assert(out@ =~= old(self).rest().take(0));
            return Ok(out);
        }
        let start = self.pos;
        let mut i: usize = 0;
        while i < N
            invariant
                start + N <= n,
                n == self.data@.len(),
                start == self.pos,
                i <= N,
                out@.len() == N,
                forall|k: int| 0 <= k < i ==> out@[k] == self.data@[start + k],
            decreases N - i,
        {
            out[i] = self.data[start + i];
            i = i + 1;
        }
        assert(out@ =~= old(self).rest().take(N as int));
        self.pos = start + N;
        Ok(out)
    }

    /// Reads every byte that is left.
    pub fn read_rest(&mut self) -> (r: Vec<u8>)
        ensures
            final(self).bytes() == old(self).bytes(),
            r@ == old(self).rest(),
            final(self).rest() == Seq::<u8>::empty(),
            final(self).pos() == old(self).pos() + old(self).rest().len(),
    {
        let n = self.data.len();
        let mut out: Vec<u8> = Vec::new();
        if self.pos > n {
            return out;
        }
        let start = self.pos;
        let mut i: usize = start;
        while i < n
            invariant
                start <= i <= n,
                n == self.data@.len(),
                start == self.pos,
                out@ =~= self.data@.subrange(start as int, i as int),
            decreases n - i,
        {
            out.push(self.data[i]);
            i = i + 1;
        }
        self.pos = n;
        out
    }

    /// Reads two bytes as a little-endian integer.
    pub fn read_u16_le(&mut self) -> (r: Result<u16>)
        ensures
            final(self).bytes() == old(self).bytes(),
            old(self).rest().len() >= 2 ==> r == Ok::<u16, Error>(
                le_value(old(self).rest()[0], old(self).rest()[1]),
            ) && final(self).pos() == old(self).pos() + 2,
            old(self).rest().len() < 2 ==> r == Err::<u16, Error>(Error::CursorEof),
    {
        let n = self.data.len();
        if self.remaining() < 2 {
            return Err(Error::CursorEof);
        }
        let p = self.pos;
        let v = read_u16_le(self.data, p);
        self.pos = p + 2;
        Ok(v)
    }

    /// Reads two bytes as a big-endian integer.
    pub fn read_u16_be(&mut self) -> (r: Result<u16>)
        ensures
            final(self).bytes() == old(self).bytes(),
            old(self).rest().len() >= 2 ==> r == Ok::<u16, Error>(
                be_value(old(self).rest()[0], old(self).rest()[1]),
            ) && final(self).pos() == old(self).pos() + 2,
            old(self).rest().len() < 2 ==> r == Err::<u16, Error>(Error::CursorEof),
    {
        let n = self.data.len();
        if self.remaining() < 2 {
            return Err(Error::CursorEof);
        }
        let p = self.pos;
        let v = read_u16_be(self.data, p);
        self.pos = p + 2;
        Ok(v)
    }
}

} // verus!
