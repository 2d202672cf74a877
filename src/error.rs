use vstd::prelude::*;

verus! {

/// The result that this crate uses.
pub type Result<T> = core::result::Result<T, Error>;

/// Every failure the codec can report.
#[derive(Debug)]
pub enum Error {
    /// The input ended in the middle of a field.
    CursorEof,
    /// A field of a packet body could not be written.
    SerializeError(&'static str, Box<Error>),
    /// A field of a packet body could not be read.
    DeserializeError(&'static str, Box<Error>),
    /// The message was shorter than the smallest packet.
    MessageTooShort {
        /// The message that was being read.
        message: Vec<u8>,
        /// The smallest length accepted.
        min_len: usize,
    },
    /// The payload length is outside what the protocol allows.
    MessageSizeInvalid {
        /// The payload that was being written.
        message: Vec<u8>,
        /// The lengths the protocol accepts.
        allowed_size: core::ops::Range<usize>,
    },
    /// The message does not start with `"Art-Net\0"`.
    InvalidArtnetHeader(Vec<u8>),
    /// The body of a known opcode could not be read.
    OpcodeError(&'static str, Box<Error>),
    /// The opcode is not one of the protocol's.
    UnknownOpcode(u16),
    /// A port address outside 0 to 32767.
    InvalidPortAddress(i32),
    /// A timecode frame type other than 0 to 3.
    InvalidTimecodeFrameType(u8),
}

} // verus!
