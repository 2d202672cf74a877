use crate::command::ARTNET_PROTOCOL_VERSION;
use crate::convert::{read_field, write_field};
use crate::cursor::Cursor;
use crate::error::{Error, Result};
use vstd::prelude::*;

verus! {

broadcast use crate::cursor::lemma_take_of_suffix;

/// ArtSync: makes nodes output the ArtDmx data they hold, all at once.
#[derive(Debug)]
pub struct Sync {
    /// The protocol version of the sender; `ARTNET_PROTOCOL_VERSION` by default.
    pub version: [u8; 2],
    /// Transmit as zero.
    pub aux1: u8,
    /// Transmit as zero.
    pub aux2: u8,
}

/// The number of bytes of a Sync body.
pub const SYNC_LENGTH: usize = 4;

impl Sync {
    /// The bytes of this body, field after field.
    pub open spec fn wire(&self) -> Seq<u8> {
        self.version@ + seq![self.aux1, self.aux2]
    }

    /// Whether `bytes` holds a Sync body.
    pub open spec fn accepts(bytes: Seq<u8>) -> bool {
        bytes.len() >= SYNC_LENGTH
    }

    /// Whether this body is the one that `bytes` holds.
    pub open spec fn read_from(&self, bytes: Seq<u8>) -> bool {
        &&& self.version@ == bytes.subrange(0, 2)
        &&& self.aux1 == bytes[2]
        &&& self.aux2 == bytes[3]
    }

    /// Whether two bodies have the same fields.
    pub open spec fn same(&self, other: &Sync) -> bool {
        self.version@ == other.version@ && self.aux1 == other.aux1 && self.aux2 == other.aux2
    }

    /// Reading the bytes of a body gives back its fields, and writing them
    /// again gives the same bytes.
    pub proof fn lemma_round_trip(p: &Sync, q: &Sync)
        requires
            q.read_from(p.wire()),
        ensures
            Sync::accepts(p.wire()),
            q.same(p),
            q.wire() == p.wire(),
    {
        assert(p.wire().subrange(0, 2) =~= p.version@);
        assert(q.wire() =~= p.wire());
    }

    /// The bytes of this body.
    pub fn to_bytes(&self) -> (r: Result<Vec<u8>>)
        ensures
            r is Ok,
            r->Ok_0@ == self.wire(),
    {
        let mut result: Vec<u8> = Vec::new();
        write_field(&self.version, &mut result, self, "Could not serialize field Sync::version")?;
        write_field(&self.aux1, &mut result, self, "Could not serialize field Sync::aux1")?;
        write_field(&self.aux2, &mut result, self, "Could not serialize field Sync::aux2")?;
        assert(result@ =~= self.wire());
        Ok(result)
    }

    /// Reads a Sync body from the front of `data`.
    pub fn from(data: &[u8]) -> (r: Result<Sync>)
        ensures
            Sync::accepts(data@) <==> r is Ok,
            r is Ok ==> r->Ok_0.read_from(data@),
            !Sync::accepts(data@) ==> (r matches Err(Error::DeserializeError(_, inner)) && *inner
                == Error::CursorEof),
    {
        let mut cursor = Cursor::new(data);
        let version: [u8; 2] = read_field::<Sync, _>(
            &mut cursor,
            "Could not deserialize field Sync::version",
        )?;
        let aux1: u8 = read_field::<Sync, _>(&mut cursor, "Could not deserialize field Sync::aux1")?;
        let aux2: u8 = read_field::<Sync, _>(&mut cursor, "Could not deserialize field Sync::aux2")?;
        Ok(Sync { version, aux1, aux2 })
    }
}

impl Default for Sync {
    fn default() -> (r: Sync)
        ensures
            r.version@ == ARTNET_PROTOCOL_VERSION@,
            r.aux1 == 0,
            r.aux2 == 0,
    {
        Sync { version: ARTNET_PROTOCOL_VERSION, aux1: 0, aux2: 0 }
    }
}

} // verus!
