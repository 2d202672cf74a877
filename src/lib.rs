//! Encoding and decoding of Art-Net packets: the shared header and opcode, and
//! the bodies of Poll, PollReply, Output, Sync, Timecode and Trigger.
use vstd::prelude::*;

mod bytes;
mod command;
mod convert;
mod cursor;
mod enums;
mod error;
mod port_address;

pub use crate::command::{
    artnet_header, length_field, opcode_known, padded, padded_len, ArtCommand, BigEndianLength,
    FrameType, Output, PaddedData, Poll, PollReply, Sync, Timecode, Trigger, TriggerKey,
    ARTNET_HEADER, ARTNET_PROTOCOL_VERSION, BODY_OFFSET, MAX_DMX_VALUES, MIN_BUFFER_LENGTH,
    MIN_DMX_VALUES, OUTPUT_HEADER_LENGTH, POLL_LENGTH, POLL_REPLY_LENGTH, SYNC_LENGTH,
    TIMECODE_LENGTH, TRIGGER_DATA_LENGTH, TRIGGER_LENGTH,
};
pub use crate::bytes::{be_bytes, be_value, le_bytes, le_value};
pub use crate::convert::Convertable;
pub use crate::cursor::Cursor;
pub use crate::enums::{ArtTalkToMe, TALK_TO_ME_MASK};
pub use crate::error::{Error, Result};
pub use crate::port_address::{PortAddress, MAX_PORT_ADDRESS};

verus! {

} // verus!
