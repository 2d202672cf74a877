use crate::command::ARTNET_PROTOCOL_VERSION;
use crate::convert::{read_field, write_field, Convertable};
use crate::cursor::Cursor;
use crate::error::{Error, Result};
use vstd::prelude::*;

verus! {

/// The key of a trigger: four named cases and one that keeps any other byte,
/// so reading a key never fails.
#[derive(Debug, PartialEq, Eq, Structural, Copy, Clone)]
pub enum TriggerKey {
    /// The sub-key is an ASCII character, to be handled as a key press.
    Ascii,
    /// The sub-key is the number of a macro to run.
    Macro,
    /// The sub-key is a soft-key number, to be handled as a soft-key press.
    Soft,
    /// The sub-key is the number of a show to run.
    Show,
    /// Any other key.
    Undefined(u8),
}

impl View for TriggerKey {
    type V = TriggerKey;

    open spec fn view(&self) -> TriggerKey {
        *self
    }
}

impl TriggerKey {
    /// The byte that stands for this key.
    pub open spec fn code(self) -> u8 {
        match self {
            TriggerKey::Ascii => 0,
            TriggerKey::Macro => 1,
            TriggerKey::Soft => 2,
            TriggerKey::Show => 3,
            TriggerKey::Undefined(other) => other,
        }
    }

    /// The key of a byte.
    pub open spec fn of_code(value: u8) -> TriggerKey {
        if value == 0 {
            TriggerKey::Ascii
        } else if value == 1 {
            TriggerKey::Macro
        } else if value == 2 {
            TriggerKey::Soft
        } else if value == 3 {
            TriggerKey::Show
        } else {
            TriggerKey::Undefined(value)
        }
    }

    /// A key is canonical when the catch-all does not hold a byte of a named case.
    pub open spec fn wf(self) -> bool {
        self matches TriggerKey::Undefined(v) ==> v > 3
    }

    /// The key of a byte: every byte has one.
    pub fn from_byte(value: u8) -> (r: TriggerKey)
        ensures
            r == TriggerKey::of_code(value),
            r.wf(),
            r.code() == value,
    {
        match value {
            0 => TriggerKey::Ascii,
            1 => TriggerKey::Macro,
            2 => TriggerKey::Soft,
            3 => TriggerKey::Show,
            other => TriggerKey::Undefined(other),
        }
    }

    /// The byte that stands for this key.
    pub fn to_byte(&self) -> (r: u8)
        ensures
            r == self.code(),
    {
        match self {
            TriggerKey::Ascii => 0,
            TriggerKey::Macro => 1,
            TriggerKey::Soft => 2,
            TriggerKey::Show => 3,
            TriggerKey::Undefined(other) => *other,
        }
    }
}

impl TryFrom<u8> for TriggerKey {
    type Error = Error;

    fn try_from(value: u8) -> (r: Result<TriggerKey>) {
        Ok(TriggerKey::from_byte(value))
    }
}

impl vstd::std_specs::convert::TryFromSpecImpl<u8> for TriggerKey {
    open spec fn obeys_try_from_spec() -> bool {
        true
    }

    open spec fn try_from_spec(value: u8) -> Result<TriggerKey> {
        Ok(TriggerKey::of_code(value))
    }
}

impl From<TriggerKey> for u8 {
    fn from(key: TriggerKey) -> (r: u8) {
        key.to_byte()
    }
}

impl vstd::std_specs::convert::FromSpecImpl<TriggerKey> for u8 {
    open spec fn obeys_from_spec() -> bool {
        true
    }

    open spec fn from_spec(key: TriggerKey) -> u8 {
        key.code()
    }
}

impl<C> Convertable<C> for TriggerKey {
    open spec fn wire(&self, context: &C) -> Seq<u8> {
        seq![self.code()]
    }

    open spec fn writable(&self) -> bool {
        true
    }

    open spec fn write_fault(&self, e: Error) -> bool {
        false
    }

    open spec fn parse(bytes: Seq<u8>) -> core::result::Result<(TriggerKey, nat), Error> {
        if bytes.len() >= 1 {
            Ok((TriggerKey::of_code(bytes[0]), 1))
        } else {
            Err(Error::CursorEof)
        }
    }

    fn from_cursor(cursor: &mut Cursor) -> (r: Result<TriggerKey>) {
        let number = cursor.read_u8()?;
        Ok(TriggerKey::from_byte(number))
    }

    fn write_to_buffer(&self, buffer: &mut Vec<u8>, context: &C) -> (r: Result<()>) {
        buffer.push(self.to_byte());
        assert(buffer@ =~= old(buffer)@ + seq![self.code()]);
        Ok(())
    }
}

} // verus!

verus! {

broadcast use crate::cursor::lemma_take_of_suffix;

/// The number of payload bytes of a Trigger.
pub const TRIGGER_DATA_LENGTH: usize = 512;

/// ArtTrigger: asks nodes to run a macro, a show or a key press.
#[derive(Debug)]
pub struct Trigger {
    /// The protocol version of the sender; `ARTNET_PROTOCOL_VERSION` by default.
    pub version: [u8; 2],
    /// Ignored by the receiver, zero from the sender.
    pub filler1: u8,
    /// Ignored by the receiver, zero from the sender.
    pub filler2: u8,
    /// The high byte of the OEM code of the nodes that should act; 0xFF for all.
    pub oem_hi: u8,
    /// The low byte of the OEM code of the nodes that should act; 0xFF for all.
    pub oem_lo: u8,
    /// The trigger key.
    pub key: TriggerKey,
    /// The trigger sub-key.
    pub sub_key: u8,
    /// The payload, read according to the key.
    pub data: [u8; 512],
}

/// The number of bytes of a Trigger body.
pub const TRIGGER_LENGTH: usize = 520;

impl Trigger {
    /// The bytes of this body, field after field.
    pub open spec fn wire(&self) -> Seq<u8> {
        self.version@ + seq![
            self.filler1,
            self.filler2,
            self.oem_hi,
            self.oem_lo,
            self.key.code(),
            self.sub_key,
        ] + self.data@
    }

    /// Whether `bytes` holds a Trigger body.
    pub open spec fn accepts(bytes: Seq<u8>) -> bool {
        bytes.len() >= TRIGGER_LENGTH
    }

    /// Whether this body is the one that `bytes` holds.
    pub open spec fn read_from(&self, bytes: Seq<u8>) -> bool {
        &&& self.version@ == bytes.subrange(0, 2)
        &&& self.filler1 == bytes[2]
        &&& self.filler2 == bytes[3]
        &&& self.oem_hi == bytes[4]
        &&& self.oem_lo == bytes[5]
        &&& self.key == TriggerKey::of_code(bytes[6])
        &&& self.sub_key == bytes[7]
        &&& self.data@ == bytes.subrange(8, TRIGGER_LENGTH as int)
    }

    /// Whether the body is well formed: its key is canonical.
    pub open spec fn wf(&self) -> bool {
        self.key.wf()
    }

    /// Whether two bodies have the same fields.
    pub open spec fn same(&self, other: &Trigger) -> bool {
        &&& self.version@ == other.version@
        &&& self.filler1 == other.filler1
        &&& self.filler2 == other.filler2
        &&& self.oem_hi == other.oem_hi
        &&& self.oem_lo == other.oem_lo
        &&& self.key == other.key
        &&& self.sub_key == other.sub_key
        &&& self.data@ == other.data@
    }

    /// Reading the bytes of a body with a canonical key gives back its
    /// fields, and writing them again gives the same bytes.
    pub proof fn lemma_round_trip(p: &Trigger, q: &Trigger)
        requires
            p.wf(),
            q.read_from(p.wire()),
        ensures
            Trigger::accepts(p.wire()),
            q.same(p),
            q.wire() == p.wire(),
    {
        assert(p.wire().subrange(0, 2) =~= p.version@);
        assert(p.wire().subrange(8, TRIGGER_LENGTH as int) =~= p.data@);
        assert(q.wire() =~= p.wire());
    }

    /// The bytes of this body.
    pub fn to_bytes(&self) -> (r: Result<Vec<u8>>)
        ensures
            r is Ok,
            r->Ok_0@ == self.wire(),
    {
        let mut result: Vec<u8> = Vec::new();
        write_field(&self.version, &mut result, self, "Could not serialize field Trigger::version")?;
        write_field(&self.filler1, &mut result, self, "Could not serialize field Trigger::filler1")?;
        write_field(&self.filler2, &mut result, self, "Could not serialize field Trigger::filler2")?;
        write_field(&self.oem_hi, &mut result, self, "Could not serialize field Trigger::oem_hi")?;
        write_field(&self.oem_lo, &mut result, self, "Could not serialize field Trigger::oem_lo")?;
        write_field(&self.key, &mut result, self, "Could not serialize field Trigger::key")?;
        write_field(&self.sub_key, &mut result, self, "Could not serialize field Trigger::sub_key")?;
        write_field(&self.data, &mut result, self, "Could not serialize field Trigger::data")?;
        assert(result@ =~= self.wire());
        Ok(result)
    }

    /// Reads a Trigger body from the front of `data`.
    pub fn from(data: &[u8]) -> (r: Result<Trigger>)
        ensures
            Trigger::accepts(data@) <==> r is Ok,
            r is Ok ==> r->Ok_0.read_from(data@) && r->Ok_0.wf(),
            !Trigger::accepts(data@) ==> (r matches Err(Error::DeserializeError(_, inner))
                && *inner == Error::CursorEof),
    {
        let mut cursor = Cursor::new(data);
        let version: [u8; 2] = read_field::<Trigger, _>(
            &mut cursor,
            "Could not deserialize field Trigger::version",
        )?;
        let filler1: u8 = read_field::<Trigger, _>(
            &mut cursor,
            "Could not deserialize field Trigger::filler1",
        )?;
        let filler2: u8 = read_field::<Trigger, _>(
            &mut cursor,
            "Could not deserialize field Trigger::filler2",
        )?;
        let oem_hi: u8 = read_field::<Trigger, _>(
            &mut cursor,
            "Could not deserialize field Trigger::oem_hi",
        )?;
        let oem_lo: u8 = read_field::<Trigger, _>(
            &mut cursor,
            "Could not deserialize field Trigger::oem_lo",
        )?;
        let key: TriggerKey = read_field::<Trigger, _>(
            &mut cursor,
            "Could not deserialize field Trigger::key",
        )?;
        let sub_key: u8 = read_field::<Trigger, _>(
            &mut cursor,
            "Could not deserialize field Trigger::sub_key",
        )?;
        let payload: [u8; 512] = read_field::<Trigger, _>(
            &mut cursor,
            "Could not deserialize field Trigger::data",
        )?;
        Ok(Trigger { version, filler1, filler2, oem_hi, oem_lo, key, sub_key, data: payload })
    }
}

impl Default for Trigger {
    fn default() -> (r: Trigger)
        ensures
            r.version@ == ARTNET_PROTOCOL_VERSION@,
            r.filler1 == 0,
            r.filler2 == 0,
            r.oem_hi == 0xff,
            r.oem_lo == 0xff,
            r.key == TriggerKey::Show,
            r.sub_key == 0,
            forall|i: int| 0 <= i < TRIGGER_DATA_LENGTH ==> r.data@[i] == 0,
    {
        Trigger {
            version: ARTNET_PROTOCOL_VERSION,
            filler1: 0,
            filler2: 0,
            oem_hi: 0xff,
            oem_lo: 0xff,
            key: TriggerKey::Show,
            sub_key: 0,
            data: [0u8; 512],
        }
    }
}

} // verus!
