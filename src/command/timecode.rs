use crate::convert::{read_field, write_field, Convertable};
use crate::cursor::Cursor;
use crate::error::{Error, Result};
use vstd::prelude::*;

verus! {

/// The frame rate of a timecode stream. Only the four values the protocol
/// defines are accepted.
#[derive(Debug, PartialEq, Eq, Structural, Copy, Clone)]
pub enum FrameType {
    /// Film, 24 fps.
    Film,
    /// EBU, 25 fps.
    #[allow(clippy::upper_case_acronyms)]
    EBU,
    /// Drop frame, 29.97 fps.
    #[allow(clippy::upper_case_acronyms)]
    DF,
    /// SMPTE, 30 fps.
    #[allow(clippy::upper_case_acronyms)]
    SMPTE,
}

impl View for FrameType {
    type V = FrameType;

    open spec fn view(&self) -> FrameType {
        *self
    }
}

impl FrameType {
    /// The byte that stands for this frame type.
    pub open spec fn code(self) -> u8 {
        match self {
            FrameType::Film => 0,
            FrameType::EBU => 1,
            FrameType::DF => 2,
            FrameType::SMPTE => 3,
        }
    }

    /// The frame type of a byte, if it stands for one.
    pub open spec fn of_code(value: u8) -> Option<FrameType> {
        if value == 0 {
            Some(FrameType::Film)
        } else if value == 1 {
            Some(FrameType::EBU)
        } else if value == 2 {
            Some(FrameType::DF)
        } else if value == 3 {
            Some(FrameType::SMPTE)
        } else {
            None
        }
    }

    /// The byte that stands for this frame type.
    pub fn to_byte(&self) -> (r: u8)
        ensures
            r == self.code(),
    {
        match self {
            FrameType::Film => 0,
            FrameType::EBU => 1,
            FrameType::DF => 2,
            FrameType::SMPTE => 3,
        }
    }
}

impl TryFrom<u8> for FrameType {
    type Error = Error;

    fn try_from(value: u8) -> (r: Result<FrameType>) {
        match value {
            0 => Ok(FrameType::Film),
            1 => Ok(FrameType::EBU),
            2 => Ok(FrameType::DF),
            3 => Ok(FrameType::SMPTE),
            _ => Err(Error::InvalidTimecodeFrameType(value)),
        }
    }
}

impl vstd::std_specs::convert::TryFromSpecImpl<u8> for FrameType {
    open spec fn obeys_try_from_spec() -> bool {
        true
    }

    open spec fn try_from_spec(value: u8) -> Result<FrameType> {
        match FrameType::of_code(value) {
            Some(t) => Ok(t),
            None => Err(Error::InvalidTimecodeFrameType(value)),
        }
    }
}

impl<C> Convertable<C> for FrameType {
    open spec fn wire(&self, context: &C) -> Seq<u8> {
        seq![self.code()]
    }

    open spec fn writable(&self) -> bool {
        true
    }

    open spec fn write_fault(&self, e: Error) -> bool {
        false
    }

    open spec fn parse(bytes: Seq<u8>) -> core::result::Result<(FrameType, nat), Error> {
        if bytes.len() < 1 {
            Err(Error::CursorEof)
        } else {
            match FrameType::of_code(bytes[0]) {
                Some(t) => Ok((t, 1)),
                None => Err(Error::InvalidTimecodeFrameType(bytes[0])),
            }
        }
    }

    fn from_cursor(cursor: &mut Cursor) -> (r: Result<FrameType>) {
        let number = cursor.read_u8()?;
        FrameType::try_from(number)
    }

    fn write_to_buffer(&self, buffer: &mut Vec<u8>, context: &C) -> (r: Result<()>) {
        buffer.push(self.to_byte());
        assert(buffer@ =~= old(buffer)@ + seq![self.code()]);
        Ok(())
    }
}

} // verus!

verus! {

broadcast use crate::cursor::lemma_take_of_suffix;

/// ArtTimeCode: carries time code over the network.
#[derive(Debug)]
pub struct Timecode {
    /// The protocol version of the sender.
    pub version: [u8; 2],
    /// Ignored by the receiver, zero from the sender.
    pub filler1: u8,
    /// The time code stream; 0 is the master.
    pub stream_id: u8,
    /// Frames, 0 to 29 depending on the frame type.
    pub frames: u8,
    /// Seconds, 0 to 59.
    pub seconds: u8,
    /// Minutes, 0 to 59.
    pub minutes: u8,
    /// Hours, 0 to 23.
    pub hours: u8,
    /// The frame rate.
    pub frame_type: FrameType,
}

/// The number of bytes of a Timecode body.
pub const TIMECODE_LENGTH: usize = 9;

impl Timecode {
    /// The bytes of this body, field after field.
    pub open spec fn wire(&self) -> Seq<u8> {
        self.version@ + seq![
            self.filler1,
            self.stream_id,
            self.frames,
            self.seconds,
            self.minutes,
            self.hours,
            self.frame_type.code(),
        ]
    }

    /// Whether `bytes` holds a Timecode body: all fields are there and the
    /// frame type is one of the four.
    pub open spec fn accepts(bytes: Seq<u8>) -> bool {
        bytes.len() >= TIMECODE_LENGTH && FrameType::of_code(bytes[8]) is Some
    }

    /// Whether this body is the one that `bytes` holds.
    pub open spec fn read_from(&self, bytes: Seq<u8>) -> bool {
        &&& self.version@ == bytes.subrange(0, 2)
        &&& self.filler1 == bytes[2]
        &&& self.stream_id == bytes[3]
        &&& self.frames == bytes[4]
        &&& self.seconds == bytes[5]
        &&& self.minutes == bytes[6]
        &&& self.hours == bytes[7]
        &&& FrameType::of_code(bytes[8]) == Some(self.frame_type)
    }

    /// Whether two bodies have the same fields.
    pub open spec fn same(&self, other: &Timecode) -> bool {
        &&& self.version@ == other.version@
        &&& self.filler1 == other.filler1
        &&& self.stream_id == other.stream_id
        &&& self.frames == other.frames
        &&& self.seconds == other.seconds
        &&& self.minutes == other.minutes
        &&& self.hours == other.hours
        &&& self.frame_type == other.frame_type
    }

    /// Reading the bytes of a body gives back its fields, and writing them
    /// again gives the same bytes.
    pub proof fn lemma_round_trip(p: &Timecode, q: &Timecode)
        requires
            q.read_from(p.wire()),
        ensures
            Timecode::accepts(p.wire()),
            q.same(p),
            q.wire() == p.wire(),
    {
        assert(p.wire().subrange(0, 2) =~= p.version@);
        assert(q.wire() =~= p.wire());
    }

    /// The bytes of this body.
    pub fn to_bytes(&self) -> (r: Result<Vec<u8>>)
        ensures
            r is Ok,
            r->Ok_0@ == self.wire(),
    {
        let mut result: Vec<u8> = Vec::new();
        write_field(&self.version, &mut result, self, "Could not serialize field Timecode::version")?;
        write_field(&self.filler1, &mut result, self, "Could not serialize field Timecode::filler1")?;
        write_field(
            &self.stream_id,
            &mut result,
            self,
            "Could not serialize field Timecode::stream_id",
        )?;
        write_field(&self.frames, &mut result, self, "Could not serialize field Timecode::frames")?;
        write_field(&self.seconds, &mut result, self, "Could not serialize field Timecode::seconds")?;
        write_field(&self.minutes, &mut result, self, "Could not serialize field Timecode::minutes")?;
        write_field(&self.hours, &mut result, self, "Could not serialize field Timecode::hours")?;
        write_field(
            &self.frame_type,
            &mut result,
            self,
            "Could not serialize field Timecode::frame_type",
        )?;
        assert(result@ =~= self.wire());
        Ok(result)
    }

    /// Reads a Timecode body from the front of `data`.
    pub fn from(data: &[u8]) -> (r: Result<Timecode>)
        ensures
            Timecode::accepts(data@) <==> r is Ok,
            r is Ok ==> r->Ok_0.read_from(data@),
            data@.len() < TIMECODE_LENGTH ==> (r matches Err(Error::DeserializeError(_, inner))
                && *inner == Error::CursorEof),
            data@.len() >= TIMECODE_LENGTH && FrameType::of_code(data@[8]) is None ==> (r matches Err(
                Error::DeserializeError(_, inner),
            ) && *inner == Error::InvalidTimecodeFrameType(data@[8])),
    {
        let mut cursor = Cursor::new(data);
        let version: [u8; 2] = read_field::<Timecode, _>(
            &mut cursor,
            "Could not deserialize field Timecode::version",
        )?;
        let filler1: u8 = read_field::<Timecode, _>(
            &mut cursor,
            "Could not deserialize field Timecode::filler1",
        )?;
        let stream_id: u8 = read_field::<Timecode, _>(
            &mut cursor,
            "Could not deserialize field Timecode::stream_id",
        )?;
        let frames: u8 = read_field::<Timecode, _>(
            &mut cursor,
            "Could not deserialize field Timecode::frames",
        )?;
        let seconds: u8 = read_field::<Timecode, _>(
            &mut cursor,
            "Could not deserialize field Timecode::seconds",
        )?;
        let minutes: u8 = read_field::<Timecode, _>(
            &mut cursor,
            "Could not deserialize field Timecode::minutes",
        )?;
        let hours: u8 = read_field::<Timecode, _>(
            &mut cursor,
            "Could not deserialize field Timecode::hours",
        )?;
        let frame_type: FrameType = read_field::<Timecode, _>(
            &mut cursor,
            "Could not deserialize field Timecode::frame_type",
        )?;
        Ok(Timecode { version, filler1, stream_id, frames, seconds, minutes, hours, frame_type })
    }
}

} // verus!
