use crate::command::ARTNET_PROTOCOL_VERSION;
use crate::convert::{read_field, write_field};
use crate::cursor::Cursor;
use crate::enums::{ArtTalkToMe, TALK_TO_ME_MASK};
use crate::error::{Error, Result};
use vstd::prelude::*;

verus! {

broadcast use crate::cursor::lemma_take_of_suffix;

/// ArtPoll: asks the nodes of the network to make themselves known.
#[derive(Debug)]
pub struct Poll {
    /// The protocol version of the sender; `ARTNET_PROTOCOL_VERSION` by default.
    pub version: [u8; 2],
    /// How the nodes should answer.
    pub talk_to_me: ArtTalkToMe,
    /// The lowest priority of diagnostics the nodes should send.
    pub diagnostics_priority: u8,
}

/// The number of bytes of a Poll body.
pub const POLL_LENGTH: usize = 4;

impl Poll {
    /// The bytes of this body, field after field.
    pub open spec fn wire(&self) -> Seq<u8> {
        self.version@ + seq![self.talk_to_me@, self.diagnostics_priority]
    }

    /// Whether `bytes` holds a Poll body.
    pub open spec fn accepts(bytes: Seq<u8>) -> bool {
        bytes.len() >= POLL_LENGTH
    }

    /// Whether this body is the one that `bytes` holds; unknown TalkToMe
    /// bits are dropped.
    pub open spec fn read_from(&self, bytes: Seq<u8>) -> bool {
        &&& self.version@ == bytes.subrange(0, 2)
        &&& self.talk_to_me@ == bytes[2] & TALK_TO_ME_MASK
        &&& self.diagnostics_priority == bytes[3]
    }

    /// Whether the body is well formed: its TalkToMe set holds named bits only.
    pub open spec fn wf(&self) -> bool {
        self.talk_to_me.wf()
    }

    /// Whether two bodies have the same fields.
    pub open spec fn same(&self, other: &Poll) -> bool {
        &&& self.version@ == other.version@
        &&& self.talk_to_me@ == other.talk_to_me@
        &&& self.diagnostics_priority == other.diagnostics_priority
    }

    /// Reading the bytes of a well-formed body gives back its fields, and
    /// writing them again gives the same bytes.
    pub proof fn lemma_round_trip(p: &Poll, q: &Poll)
        requires
            p.wf(),
            q.read_from(p.wire()),
        ensures
            Poll::accepts(p.wire()),
            q.same(p),
            q.wire() == p.wire(),
    {
        assert(p.wire().subrange(0, 2) =~= p.version@);
        let b = p.talk_to_me@;
        assert(b & !TALK_TO_ME_MASK == 0 ==> b & TALK_TO_ME_MASK == b) by (bit_vector);
        assert(q.wire() =~= p.wire());
    }

    /// The bytes of this body.
    pub fn to_bytes(&self) -> (r: Result<Vec<u8>>)
        ensures
            r is Ok,
            r->Ok_0@ == self.wire(),
    {
        let mut result: Vec<u8> = Vec::new();
        write_field(&self.version, &mut result, self, "Could not serialize field Poll::version")?;
        write_field(
            &self.talk_to_me,
            &mut result,
            self,
            "Could not serialize field Poll::talk_to_me",
        )?;
        write_field(
            &self.diagnostics_priority,
            &mut result,
            self,
            "Could not serialize field Poll::diagnostics_priority",
        )?;
        assert(result@ =~= self.wire());
        Ok(result)
    }

    /// Reads a Poll body from the front of `data`.
    pub fn from(data: &[u8]) -> (r: Result<Poll>)
        ensures
            Poll::accepts(data@) <==> r is Ok,
            r is Ok ==> r->Ok_0.read_from(data@) && r->Ok_0.wf(),
            !Poll::accepts(data@) ==> (r matches Err(Error::DeserializeError(_, inner)) && *inner
                == Error::CursorEof),
    {
        let mut cursor = Cursor::new(data);
        let version: [u8; 2] = read_field::<Poll, _>(
            &mut cursor,
            "Could not deserialize field Poll::version",
        )?;
        let talk_to_me: ArtTalkToMe = read_field::<Poll, _>(
            &mut cursor,
            "Could not deserialize field Poll::talk_to_me",
        )?;
        let diagnostics_priority: u8 = read_field::<Poll, _>(
            &mut cursor,
            "Could not deserialize field Poll::diagnostics_priority",
        )?;
        proof {
            let b = data@[2];
            assert(b & TALK_TO_ME_MASK & !TALK_TO_ME_MASK == 0) by (bit_vector);
        }
        Ok(Poll { version, talk_to_me, diagnostics_priority })
    }
}

impl Default for Poll {
    fn default() -> (r: Poll)
        ensures
            r.version@ == ARTNET_PROTOCOL_VERSION@,
            r.talk_to_me@ == 0,
            r.diagnostics_priority == 0x80,
    {
        Poll {
            version: ARTNET_PROTOCOL_VERSION,
            talk_to_me: ArtTalkToMe::empty(),
            diagnostics_priority: 0x80,
        }
    }
}

} // verus!
