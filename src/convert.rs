use crate::bytes::{le_bytes, le_value, u16_le_bytes};
use crate::cursor::Cursor;
use crate::error::{Error, Result};
use vstd::prelude::*;

verus! {

/// A field of a packet body: how it is read from a cursor and written to a
/// buffer. `C` is the enclosing packet, which a field may consult when it is
/// written.
pub trait Convertable<C>: Sized + View {
    /// The bytes that writing this value inside `context` appends.
    spec fn wire(&self, context: &C) -> Seq<u8>;

    /// Whether writing this value succeeds.
    spec fn writable(&self) -> bool;

    /// Whether `e` is the error with which writing this value fails.
    spec fn write_fault(&self, e: Error) -> bool;

    /// Reading from the front of `bytes`: the value read and the number of
    /// bytes it takes, or the error.
    spec fn parse(bytes: Seq<u8>) -> core::result::Result<(Self::V, nat), Error>;

    /// Reads the value at the cursor and moves past it.
    fn from_cursor(cursor: &mut Cursor) -> (r: Result<Self>)
        ensures
            final(cursor).bytes() == old(cursor).bytes(),
            match Self::parse(old(cursor).rest()) {
                Ok((v, n)) => r is Ok && r->Ok_0@ == v && final(cursor).pos() == old(cursor).pos()
                    + n,
                Err(e) => r == Err::<Self, Error>(e),
            },
    ;

    /// Appends the value's bytes, or fails and leaves `buffer` as it was.
    fn write_to_buffer(&self, buffer: &mut Vec<u8>, context: &C) -> (r: Result<()>)
        ensures
            self.writable() ==> r is Ok && final(buffer)@ == old(buffer)@ + self.wire(context),
            !self.writable() ==> r is Err && self.write_fault(r->Err_0) && final(buffer)@ == old(
                buffer,
            )@,
    ;
}

/// Reads one field of a packet body, naming the field in the error.
pub(crate) fn read_field<C, F: Convertable<C>>(cursor: &mut Cursor, name: &'static str) -> (r:
    Result<F>)
    ensures
        final(cursor).bytes() == old(cursor).bytes(),
        match F::parse(old(cursor).rest()) {
            Ok((v, n)) => r is Ok && r->Ok_0@ == v && final(cursor).pos() == old(cursor).pos() + n,
            Err(e) => r == Err::<F, Error>(Error::DeserializeError(name, Box::new(e))),
        },
{
    match <F as Convertable<C>>::from_cursor(cursor) {
        Ok(v) => Ok(v),
        Err(e) => Err(Error::DeserializeError(name, Box::new(e))),
    }
}

/// Writes one field of a packet body, naming the field in the error.
pub(crate) fn write_field<C, F: Convertable<C>>(
    field: &F,
    buffer: &mut Vec<u8>,
    context: &C,
    name: &'static str,
) -> (r: Result<()>)
    ensures
        field.writable() ==> r is Ok && final(buffer)@ == old(buffer)@ + field.wire(context),
        !field.writable() ==> (r matches Err(Error::SerializeError(m, inner)) && m == name
            && field.write_fault(*inner)) && final(buffer)@ == old(buffer)@,
{
    match field.write_to_buffer(buffer, context) {
        Ok(()) => Ok(()),
        Err(e) => Err(Error::SerializeError(name, Box::new(e))),
    }
}

/// A vector holding the bytes of `bytes`.
pub(crate) fn copy_bytes(bytes: &[u8]) -> (r: Vec<u8>)
    ensures
        r@ == bytes@,
{
    let mut r: Vec<u8> = Vec::new();
    let mut i: usize = 0;
    while i < bytes.len()
        invariant
            i <= bytes@.len(),
            r@ =~= bytes@.take(i as int),
        decreases bytes@.len() - i,
    {
        r.push(bytes[i]);
        i = i + 1;
    }
    assert(bytes@.take(bytes@.len() as int) =~= bytes@);
    r
}

/// Appends every byte of `bytes` to `buffer`.
pub(crate) fn push_all(buffer: &mut Vec<u8>, bytes: &[u8])
    ensures
        final(buffer)@ == old(buffer)@ + bytes@,
{
    let mut i: usize = 0;
    while i < bytes.len()
        invariant
            i <= bytes@.len(),
            buffer@ =~= old(buffer)@ + bytes@.take(i as int),
        decreases bytes@.len() - i,
    {
        buffer.push(bytes[i]);
        i = i + 1;
    }
    assert(bytes@.take(bytes@.len() as int) =~= bytes@);
}

impl<C> Convertable<C> for u8 {
    open spec fn wire(&self, context: &C) -> Seq<u8> {
        seq![*self]
    }

    open spec fn writable(&self) -> bool {
        true
    }

    open spec fn write_fault(&self, e: Error) -> bool {
        false
    }

    open spec fn parse(bytes: Seq<u8>) -> core::result::Result<(u8, nat), Error> {
        if bytes.len() >= 1 {
            Ok((bytes[0], 1))
        } else {
            Err(Error::CursorEof)
        }
    }

    fn from_cursor(cursor: &mut Cursor) -> (r: Result<u8>) {
        cursor.read_u8()
    }

    fn write_to_buffer(&self, buffer: &mut Vec<u8>, context: &C) -> (r: Result<()>) {
        buffer.push(*self);
        assert(buffer@ =~= old(buffer)@ + seq![*self]);
        Ok(())
    }
}

impl<C> Convertable<C> for u16 {
    open spec fn wire(&self, context: &C) -> Seq<u8> {
        le_bytes(*self)
    }

    open spec fn writable(&self) -> bool {
        true
    }

    open spec fn write_fault(&self, e: Error) -> bool {
        false
    }

    open spec fn parse(bytes: Seq<u8>) -> core::result::Result<(u16, nat), Error> {
        if bytes.len() >= 2 {
            Ok((le_value(bytes[0], bytes[1]), 2))
        } else {
            Err(Error::CursorEof)
        }
    }

    fn from_cursor(cursor: &mut Cursor) -> (r: Result<u16>) {
        cursor.read_u16_le()
    }

    fn write_to_buffer(&self, buffer: &mut Vec<u8>, context: &C) -> (r: Result<()>) {
        let b = u16_le_bytes(*self);
        push_all(buffer, &b);
        Ok(())
    }
}

impl<C, const N: usize> Convertable<C> for [u8; N] {
    open spec fn wire(&self, context: &C) -> Seq<u8> {
        self@
    }

    open spec fn writable(&self) -> bool {
        true
    }

    open spec fn write_fault(&self, e: Error) -> bool {
        false
    }

    open spec fn parse(bytes: Seq<u8>) -> core::result::Result<(Seq<u8>, nat), Error> {
        if bytes.len() >= N {
            Ok((bytes.take(N as int), N as nat))
        } else {
            Err(Error::CursorEof)
        }
    }

    fn from_cursor(cursor: &mut Cursor) -> (r: Result<[u8; N]>) {
        cursor.read_array()
    }

    fn write_to_buffer(&self, buffer: &mut Vec<u8>, context: &C) -> (r: Result<()>) {
        push_all(buffer, self.as_slice());
        Ok(())
    }
}

} // verus!

verus! {

impl<C> Convertable<C> for Vec<u8> {
    open spec fn wire(&self, context: &C) -> Seq<u8> {
        self@
    }

    open spec fn writable(&self) -> bool {
        true
    }

    open spec fn write_fault(&self, e: Error) -> bool {
        false
    }

    /// A trailing byte field takes every byte that is left.
    open spec fn parse(bytes: Seq<u8>) -> core::result::Result<(Seq<u8>, nat), Error> {
        Ok((bytes, bytes.len()))
    }

    fn from_cursor(cursor: &mut Cursor) -> (r: Result<Vec<u8>>) {
        Ok(cursor.read_rest())
    }

    fn write_to_buffer(&self, buffer: &mut Vec<u8>, context: &C) -> (r: Result<()>) {
        push_all(buffer, self.as_slice());
        Ok(())
    }
}

} // verus!
