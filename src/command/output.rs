use crate::bytes::{be_bytes, be_value, le_bytes, le_value, u16_be_bytes};
use crate::command::ARTNET_PROTOCOL_VERSION;
use crate::convert::{copy_bytes, push_all, read_field, write_field, Convertable};
use crate::cursor::Cursor;
use crate::error::{Error, Result};
use crate::port_address::{PortAddress, MAX_PORT_ADDRESS};
use vstd::prelude::*;

verus! {

broadcast use crate::cursor::lemma_take_of_suffix;

/// The fewest DMX values an Output carries.
pub const MIN_DMX_VALUES: usize = 1;

/// The most DMX values an Output carries.
pub const MAX_DMX_VALUES: usize = 512;

/// The length of `n` bytes once padded to an even number.
pub open spec fn padded_len(n: nat) -> nat {
    if n % 2 == 1 {
        n + 1
    } else {
        n
    }
}

/// The bytes of `data` followed by a zero byte when their number is odd.
pub open spec fn padded(data: Seq<u8>) -> Seq<u8> {
    if data.len() % 2 == 1 {
        data.push(0)
    } else {
        data
    }
}

/// ArtDmx: the packet that carries DMX512 lighting data, one universe per
/// packet. Its layout is the same from controller to node, node to
/// controller and node to node.
#[derive(Debug)]
pub struct Output {
    /// The protocol version of the sender; `ARTNET_PROTOCOL_VERSION` by default.
    pub version: [u8; 2],
    /// Counts 1 to 255 so a receiver can put packets back in order; 0 turns
    /// the feature off.
    pub sequence: u8,
    /// The physical input port the data came from, for information only.
    pub physical: u8,
    /// The 15-bit port address the packet is for.
    pub port_address: PortAddress,
    /// The length of the data, which the library computes when writing.
    pub length: BigEndianLength,
    /// The DMX512 values.
    pub data: PaddedData,
}

/// The number of bytes of an Output body before its data.
pub const OUTPUT_HEADER_LENGTH: usize = 8;

impl Output {
    /// The bytes of this body, field after field, with the length computed
    /// from the data and the data padded to an even length.
    pub open spec fn wire(&self) -> Seq<u8> {
        self.version@ + seq![self.sequence, self.physical] + le_bytes(self.port_address@)
            + be_bytes(length_field(self.data@.len())) + padded(self.data@)
    }

    /// Whether the body can be written: its data has 1 to 512 values.
    pub open spec fn writable(&self) -> bool {
        self.data.valid()
    }

    /// The port address that `bytes` holds.
    pub open spec fn port_in(bytes: Seq<u8>) -> u16 {
        le_value(bytes[4], bytes[5])
    }

    /// Whether `bytes` holds an Output body: the fixed fields are all there
    /// and the port address fits in 15 bits.
    pub open spec fn accepts(bytes: Seq<u8>) -> bool {
        bytes.len() >= OUTPUT_HEADER_LENGTH && Output::port_in(bytes) <= MAX_PORT_ADDRESS
    }

    /// Whether this body is the one that `bytes` holds. The data is every
    /// byte after the fixed fields, as it stands.
    pub open spec fn read_from(&self, bytes: Seq<u8>) -> bool {
        &&& self.version@ == bytes.subrange(0, 2)
        &&& self.sequence == bytes[2]
        &&& self.physical == bytes[3]
        &&& self.port_address@ == Output::port_in(bytes)
        &&& self.length@ == Some(be_value(bytes[6], bytes[7]))
        &&& self.data@ == bytes.subrange(8, bytes.len() as int)
    }

    /// Whether two bodies have the same fields, the length aside.
    pub open spec fn same(&self, other: &Output) -> bool {
        &&& self.version@ == other.version@
        &&& self.sequence == other.sequence
        &&& self.physical == other.physical
        &&& self.port_address@ == other.port_address@
        &&& self.data@ == other.data@
    }

    /// Reading the bytes of a body gives back its fields when its data has
    /// an even number of values; odd data comes back with its padding byte.
    pub proof fn lemma_round_trip(p: &Output, q: &Output)
        requires
            p.port_address.wf(),
            p.data@.len() % 2 == 0,
            q.read_from(p.wire()),
        ensures
            Output::accepts(p.wire()),
            q.same(p),
    {
        crate::bytes::lemma_le_round_trip(p.port_address@);
        let w = p.wire();
        assert(w.subrange(0, 2) =~= p.version@);
        assert(w.subrange(8, w.len() as int) =~= p.data@);
    }

    /// Writing what was read from the bytes of a writable body gives the
    /// same bytes, padding included.
    pub proof fn lemma_rewrite(p: &Output, q: &Output)
        requires
            p.port_address.wf(),
            p.writable(),
            q.read_from(p.wire()),
        ensures
            Output::accepts(p.wire()),
            q.data@ == padded(p.data@),
            q.writable(),
            q.wire() == p.wire(),
    {
        crate::bytes::lemma_le_round_trip(p.port_address@);
        let w = p.wire();
        assert(w.subrange(0, 2) =~= p.version@);
        assert(w.subrange(8, w.len() as int) =~= padded(p.data@));
        assert(padded(padded(p.data@)) =~= padded(p.data@));
    }

    /// The bytes of this body. Fails when the data has no value or more
    /// than 512.
    pub fn to_bytes(&self) -> (r: Result<Vec<u8>>)
        ensures
            self.writable() <==> r is Ok,
            r is Ok ==> r->Ok_0@ == self.wire(),
            !self.writable() ==> (r matches Err(Error::SerializeError(m, inner)) && m
                == "Could not serialize field Output::data" && self.data.size_error(*inner)),
    {
        let mut result: Vec<u8> = Vec::new();
        write_field(&self.version, &mut result, self, "Could not serialize field Output::version")?;
        write_field(
            &self.sequence,
            &mut result,
            self,
            "Could not serialize field Output::sequence",
        )?;
        write_field(
            &self.physical,
            &mut result,
            self,
            "Could not serialize field Output::physical",
        )?;
        write_field(
            &self.port_address,
            &mut result,
            self,
            "Could not serialize field Output::port_address",
        )?;
        write_field(&self.length, &mut result, self, "Could not serialize field Output::length")?;
        write_field(&self.data, &mut result, self, "Could not serialize field Output::data")?;
        assert(result@ =~= self.wire());
        Ok(result)
    }

    /// Reads an Output body from `data`; every byte after the fixed fields
    /// is taken as DMX data.
    pub fn from(data: &[u8]) -> (r: Result<Output>)
        ensures
            Output::accepts(data@) <==> r is Ok,
            r is Ok ==> r->Ok_0.read_from(data@),
            r is Ok ==> r->Ok_0.port_address.wf(),
            data@.len() < 6 || (data@.len() < OUTPUT_HEADER_LENGTH && Output::port_in(data@)
                <= MAX_PORT_ADDRESS) ==> (r matches Err(Error::DeserializeError(_, inner))
                && *inner == Error::CursorEof),
            data@.len() >= 6 && Output::port_in(data@) > MAX_PORT_ADDRESS ==> (r matches Err(
                Error::DeserializeError(_, inner),
            ) && *inner == Error::InvalidPortAddress(Output::port_in(data@) as i32)),
    {
        let mut cursor = Cursor::new(data);
        let version: [u8; 2] = read_field::<Output, _>(
            &mut cursor,
            "Could not deserialize field Output::version",
        )?;
        let sequence: u8 = read_field::<Output, _>(
            &mut cursor,
            "Could not deserialize field Output::sequence",
        )?;
        let physical: u8 = read_field::<Output, _>(
            &mut cursor,
            "Could not deserialize field Output::physical",
        )?;
        let port_address: PortAddress = read_field::<Output, _>(
            &mut cursor,
            "Could not deserialize field Output::port_address",
        )?;
        let length: BigEndianLength = read_field::<Output, _>(
            &mut cursor,
            "Could not deserialize field Output::length",
        )?;
        let data: PaddedData = read_field::<Output, _>(
            &mut cursor,
            "Could not deserialize field Output::data",
        )?;
        Ok(Output { version, sequence, physical, port_address, length, data })
    }
}

impl Default for Output {
    fn default() -> (r: Output)
        ensures
            r.version@ == ARTNET_PROTOCOL_VERSION@,
            r.sequence == 0,
            r.physical == 0,
            r.port_address@ == 1,
            r.length@ == None::<u16>,
            r.data@ == Seq::<u8>::empty(),
    {
        broadcast use PortAddress::lemma_spec_new;

        Output {
            version: ARTNET_PROTOCOL_VERSION,
            sequence: 0,
            physical: 0,
            port_address: PortAddress::from(1u8),
            length: BigEndianLength::default(),
            data: PaddedData::default(),
        }
    }
}

/// The DMX values of an Output. Written padded to an even length.
#[derive(Debug)]
pub struct PaddedData {
    inner: Vec<u8>,
}

impl View for PaddedData {
    type V = Seq<u8>;

    closed spec fn view(&self) -> Seq<u8> {
        self.inner@
    }
}

impl PaddedData {
    /// The data holding `inner`.
    pub closed spec fn spec_new(inner: Vec<u8>) -> PaddedData {
        PaddedData { inner }
    }

    /// What `spec_new` gives holds the bytes it was made from.
    pub broadcast proof fn lemma_spec_new(inner: Vec<u8>)
        ensures
            (#[trigger] PaddedData::spec_new(inner))@ == inner@,
    {
    }

    /// Whether the data can be written: 1 to 512 values.
    pub open spec fn valid(&self) -> bool {
        MIN_DMX_VALUES <= self@.len() <= MAX_DMX_VALUES
    }

    /// Whether `e` reports these values as too few or too many.
    pub open spec fn size_error(&self, e: Error) -> bool {
        e matches Error::MessageSizeInvalid { message, allowed_size } && message@ == self@
            && allowed_size == (core::ops::Range { start: 2usize, end: 512usize })
    }

    /// The number of values.
    pub fn len(&self) -> (r: usize)
        ensures
            r == self@.len(),
    {
        self.inner.len()
    }

    /// The number of values once padded to an even number.
    pub fn len_rounded_up(&self) -> (r: usize)
        requires
            self@.len() < usize::MAX,
        ensures
            r == padded_len(self@.len()),
    {
        let mut len = self.inner.len();
        if len % 2 != 0 {
            len = len + 1;
        }
        len
    }

    /// The values.
    pub fn as_slice(&self) -> (r: &[u8])
        ensures
            r@ == self@,
    {
        self.inner.as_slice()
    }
}

impl Default for PaddedData {
    fn default() -> (r: PaddedData)
        ensures
            r@ == Seq::<u8>::empty(),
    {
        PaddedData { inner: Vec::new() }
    }
}

impl From<Vec<u8>> for PaddedData {
    fn from(inner: Vec<u8>) -> (r: PaddedData) {
        PaddedData { inner }
    }
}

impl vstd::std_specs::convert::FromSpecImpl<Vec<u8>> for PaddedData {
    open spec fn obeys_from_spec() -> bool {
        true
    }

    open spec fn from_spec(inner: Vec<u8>) -> PaddedData {
        PaddedData::spec_new(inner)
    }
}

impl<C> Convertable<C> for PaddedData {
    open spec fn wire(&self, context: &C) -> Seq<u8> {
        padded(self@)
    }

    open spec fn writable(&self) -> bool {
        self.valid()
    }

    open spec fn write_fault(&self, e: Error) -> bool {
        self.size_error(e)
    }

    open spec fn parse(bytes: Seq<u8>) -> core::result::Result<(Seq<u8>, nat), Error> {
        Ok((bytes, bytes.len()))
    }

    fn from_cursor(cursor: &mut Cursor) -> (r: Result<PaddedData>) {
        let inner = cursor.read_rest();
        Ok(PaddedData { inner })
    }

    fn write_to_buffer(&self, buffer: &mut Vec<u8>, context: &C) -> (r: Result<()>) {
        let len = self.inner.len();
        if len < MIN_DMX_VALUES || len > MAX_DMX_VALUES {
            // an even length from 2 to 512 once padded: one value is padded up, none is invalid
            return Err(
                Error::MessageSizeInvalid {
                    message: copy_bytes(self.inner.as_slice()),
                    allowed_size: 2..512,
                },
            );
        }
        push_all(buffer, self.inner.as_slice());
        if len % 2 != 0 {
            buffer.push(0);
        }
        assert(buffer@ =~= old(buffer)@ + padded(self@));
        Ok(())
    }
}

/// The big-endian length field of an Output. What it writes is computed
/// from the packet's data; what it holds is the value read, for inspection.
#[derive(Debug)]
pub struct BigEndianLength {
    parsed_length: Option<u16>,
}

impl View for BigEndianLength {
    type V = Option<u16>;

    closed spec fn view(&self) -> Option<u16> {
        self.parsed_length
    }
}

impl BigEndianLength {
    /// The value read, if this length was read.
    pub fn parsed(&self) -> (r: Option<u16>)
        ensures
            r == self@,
    {
        self.parsed_length
    }

    /// The value read, or 0 when this length was not read.
    pub fn value(&self) -> (r: u16)
        ensures
            r == match self@ {
                Some(v) => v,
                None => 0,
            },
    {
        match self.parsed_length {
            Some(v) => v,
            None => 0,
        }
    }
}

impl Default for BigEndianLength {
    fn default() -> (r: BigEndianLength)
        ensures
            r@ == None::<u16>,
    {
        BigEndianLength { parsed_length: None }
    }
}

/// The length field's value for `n` data bytes: the padded length, in 16 bits.
pub open spec fn length_field(n: nat) -> u16 {
    (padded_len(n) % 65536) as u16
}

impl Convertable<Output> for BigEndianLength {
    open spec fn wire(&self, context: &Output) -> Seq<u8> {
        be_bytes(length_field(context.data@.len()))
    }

    open spec fn writable(&self) -> bool {
        true
    }

    open spec fn write_fault(&self, e: Error) -> bool {
        false
    }

    open spec fn parse(bytes: Seq<u8>) -> core::result::Result<(Option<u16>, nat), Error> {
        if bytes.len() >= 2 {
            Ok((Some(be_value(bytes[0], bytes[1])), 2))
        } else {
            Err(Error::CursorEof)
        }
    }

    fn from_cursor(cursor: &mut Cursor) -> (r: Result<BigEndianLength>) {
        let length = cursor.read_u16_be()?;
        Ok(BigEndianLength { parsed_length: Some(length) })
    }

    fn write_to_buffer(&self, buffer: &mut Vec<u8>, context: &Output) -> (r: Result<()>) {
        let n = context.data.len();
        let low = n % 65536;
        assert(n % 2 == low % 2 && (n + 1) % 65536 == (low + 1) % 65536) by (nonlinear_arith)
            requires
                low == n % 65536,
        ;
        let len: u16 = if low % 2 == 0 {
            low as u16
        } else if low == 65535 {
            0
        } else {
            (low + 1) as u16
        };
        let b = u16_be_bytes(len);
        push_all(buffer, &b);
        Ok(())
    }
}

} // verus!
