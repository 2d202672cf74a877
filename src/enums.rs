use crate::convert::Convertable;
use crate::cursor::Cursor;
use crate::error::{Error, Result};
use vstd::prelude::*;

verus! {

/// The bits of `ArtTalkToMe` that have a meaning.
pub const TALK_TO_ME_MASK: u8 = 0b0001_1110;

/// The TalkToMe flags of `Poll` and `PollReply`: a set of four independent
/// bits over one byte.
#[derive(Debug, PartialEq, Eq, Structural, Clone, Copy)]
pub struct ArtTalkToMe {
    bits: u8,
}

impl View for ArtTalkToMe {
    type V = u8;

    closed spec fn view(&self) -> u8 {
        self.bits
    }
}

impl ArtTalkToMe {
    /// Enable VLC transmission if set, disabled otherwise.
    pub const ENABLE_VLC: u8 = 0b0001_0000;

    /// Diagnostic messages are unicast, else broadcast. Has no effect unless
    /// `ENABLE_DIAGNOSTICS` is set.
    pub const UNICAST_DIAGNOSTICS: u8 = 0b0000_1000;

    /// Enable diagnostics.
    pub const ENABLE_DIAGNOSTICS: u8 = 0b0000_0100;

    /// Nodes send ArtPollReply whenever something changes on their end, not
    /// only in answer to ArtPoll.
    pub const EMIT_CHANGES: u8 = 0b0000_0010;

    /// A set holds no bit outside the four named ones.
    pub open spec fn wf(&self) -> bool {
        self@ & !TALK_TO_ME_MASK == 0
    }

    /// The set with no flag.
    pub fn empty() -> (r: ArtTalkToMe)
        ensures
            r@ == 0,
    {
        ArtTalkToMe { bits: 0 }
    }

    /// The set of the named bits of `bits`; the other bits are dropped.
    pub fn from_bits_truncate(bits: u8) -> (r: ArtTalkToMe)
        ensures
            r@ == bits & TALK_TO_ME_MASK,
            r.wf(),
    {
        let r = ArtTalkToMe { bits: bits & TALK_TO_ME_MASK };
        assert((bits & TALK_TO_ME_MASK) & !TALK_TO_ME_MASK == 0) by (bit_vector);
        r
    }

    /// The byte of this set.
    pub fn bits(&self) -> (r: u8)
        ensures
            r == self@,
    {
        self.bits
    }

    /// Whether every bit of `flags` is in this set.
    pub fn contains(&self, flags: u8) -> (r: bool)
        ensures
            r == (self@ & flags == flags),
    {
        self.bits & flags == flags
    }
}

impl<C> Convertable<C> for ArtTalkToMe {
    open spec fn wire(&self, context: &C) -> Seq<u8> {
        seq![self@]
    }

    open spec fn writable(&self) -> bool {
        true
    }

    open spec fn write_fault(&self, e: Error) -> bool {
        false
    }

    open spec fn parse(bytes: Seq<u8>) -> core::result::Result<(u8, nat), Error> {
        if bytes.len() >= 1 {
            Ok((bytes[0] & TALK_TO_ME_MASK, 1))
        } else {
            Err(Error::CursorEof)
        }
    }

    fn from_cursor(cursor: &mut Cursor) -> (r: Result<ArtTalkToMe>) {
        let b = cursor.read_u8()?;
        Ok(ArtTalkToMe::from_bits_truncate(b))
    }

    fn write_to_buffer(&self, buffer: &mut Vec<u8>, context: &C) -> (r: Result<()>) {
        buffer.push(self.bits);
        assert(buffer@ =~= old(buffer)@ + seq![self@]);
        Ok(())
    }
}

} // verus!
