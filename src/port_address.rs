use crate::bytes::{le_bytes, le_value, u16_le_bytes};
use crate::convert::{push_all, Convertable};
use crate::cursor::Cursor;
use crate::error::{Error, Result};
use vstd::prelude::*;

verus! {

/// The largest port address: port addresses have 15 bits.
pub const MAX_PORT_ADDRESS: u16 = 32767;

/// A port address: an unsigned integer from 0 to 32767 (15 bits).
///
/// `From` is implemented for `u8`, which never fails, and `TryFrom` for `u16`
/// and `i32`, which fail out of range. A port address of 0 is discouraged,
/// since sACN has no universe 0.
#[derive(Debug, PartialEq, Eq, Structural, PartialOrd, Ord, Hash, Clone, Copy)]
pub struct PortAddress(u16);

impl View for PortAddress {
    type V = u16;

    closed spec fn view(&self) -> u16 {
        self.0
    }
}

impl PortAddress {
    /// Every port address fits in 15 bits.
    pub open spec fn wf(&self) -> bool {
        self@ <= MAX_PORT_ADDRESS
    }

    /// The port address of a value known to fit in 15 bits.
    pub closed spec fn spec_new(value: u16) -> PortAddress {
        PortAddress(value)
    }

    /// What `spec_new` gives has the value it was made from.
    pub broadcast proof fn lemma_spec_new(value: u16)
        ensures
            (#[trigger] PortAddress::spec_new(value))@ == value,
    {
    }

    /// A port address from a 16-bit value, which fails above 32767.
    pub fn checked(value: u16) -> (r: Result<PortAddress>)
        ensures
            value <= MAX_PORT_ADDRESS ==> r == Ok::<PortAddress, Error>(PortAddress::spec_new(value)),
            value > MAX_PORT_ADDRESS ==> r == Err::<PortAddress, Error>(
                Error::InvalidPortAddress(value as i32),
            ),
    {
        if value <= MAX_PORT_ADDRESS {
            Ok(PortAddress(value))
        } else {
            Err(Error::InvalidPortAddress(value as i32))
        }
    }

    /// The 16-bit value of this port address.
    pub fn value(&self) -> (r: u16)
        ensures
            r == self@,
    {
        self.0
    }
}

impl From<u8> for PortAddress {
    fn from(value: u8) -> (r: PortAddress) {
        PortAddress(value as u16)
    }
}

impl vstd::std_specs::convert::FromSpecImpl<u8> for PortAddress {
    open spec fn obeys_from_spec() -> bool {
        true
    }

    open spec fn from_spec(value: u8) -> PortAddress {
        PortAddress::spec_new(value as u16)
    }
}

impl TryFrom<u16> for PortAddress {
    type Error = Error;

    fn try_from(value: u16) -> (r: Result<PortAddress>) {
        PortAddress::checked(value)
    }
}

impl vstd::std_specs::convert::TryFromSpecImpl<u16> for PortAddress {
    open spec fn obeys_try_from_spec() -> bool {
        true
    }

    open spec fn try_from_spec(value: u16) -> Result<PortAddress> {
        if value <= MAX_PORT_ADDRESS {
            Ok(PortAddress::spec_new(value))
        } else {
            Err(Error::InvalidPortAddress(value as i32))
        }
    }
}

impl TryFrom<i32> for PortAddress {
    type Error = Error;

    fn try_from(value: i32) -> (r: Result<PortAddress>) {
        if 0 <= value && value <= MAX_PORT_ADDRESS as i32 {
            Ok(PortAddress(value as u16))
        } else {
            Err(Error::InvalidPortAddress(value))
        }
    }
}

impl vstd::std_specs::convert::TryFromSpecImpl<i32> for PortAddress {
    open spec fn obeys_try_from_spec() -> bool {
        true
    }

    open spec fn try_from_spec(value: i32) -> Result<PortAddress> {
        if 0 <= value <= MAX_PORT_ADDRESS {
            Ok(PortAddress::spec_new(value as u16))
        } else {
            Err(Error::InvalidPortAddress(value))
        }
    }
}

impl From<PortAddress> for u16 {
    fn from(value: PortAddress) -> (r: u16) {
        value.0
    }
}

impl vstd::std_specs::convert::FromSpecImpl<PortAddress> for u16 {
    open spec fn obeys_from_spec() -> bool {
        true
    }

    open spec fn from_spec(value: PortAddress) -> u16 {
        value@
    }
}

impl<C> Convertable<C> for PortAddress {
    open spec fn wire(&self, context: &C) -> Seq<u8> {
        le_bytes(self@)
    }

    open spec fn writable(&self) -> bool {
        true
    }

    open spec fn write_fault(&self, e: Error) -> bool {
        false
    }

    open spec fn parse(bytes: Seq<u8>) -> core::result::Result<(u16, nat), Error> {
        if bytes.len() < 2 {
            Err(Error::CursorEof)
        } else if le_value(bytes[0], bytes[1]) > MAX_PORT_ADDRESS {
            Err(Error::InvalidPortAddress(le_value(bytes[0], bytes[1]) as i32))
        } else {
            Ok((le_value(bytes[0], bytes[1]), 2))
        }
    }

    fn from_cursor(cursor: &mut Cursor) -> (r: Result<PortAddress>) {
        let number = cursor.read_u16_le()?;
        PortAddress::checked(number)
    }

    fn write_to_buffer(&self, buffer: &mut Vec<u8>, context: &C) -> (r: Result<()>) {
        let b = u16_le_bytes(self.0);
        push_all(buffer, &b);
        Ok(())
    }
}

} // verus!
