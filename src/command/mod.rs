use crate::bytes::{le_bytes, le_value, u16_le_bytes};
use crate::convert::{copy_bytes, push_all};
use crate::error::{Error, Result};
use vstd::prelude::*;

mod output;
mod poll;
mod poll_reply;
mod sync;
mod timecode;
mod trigger;

pub use self::output::{
    length_field, padded, padded_len, BigEndianLength, Output, PaddedData, MAX_DMX_VALUES,
    MIN_DMX_VALUES, OUTPUT_HEADER_LENGTH,
};
pub use self::poll::{Poll, POLL_LENGTH};
pub use self::poll_reply::{PollReply, POLL_REPLY_LENGTH};
pub use self::sync::{Sync, SYNC_LENGTH};
pub use self::timecode::{FrameType, Timecode, TIMECODE_LENGTH};
pub use self::trigger::{Trigger, TriggerKey, TRIGGER_DATA_LENGTH, TRIGGER_LENGTH};

verus! {

/// The protocol version this library writes by default. Older versions are
/// read all the same: the version is for information only.
pub const ARTNET_PROTOCOL_VERSION: [u8; 2] = [0, 14];

/// The first 8 bytes of every packet: `"Art-Net\0"`.
pub const ARTNET_HEADER: [u8; 8] = [65, 114, 116, 45, 78, 101, 116, 0];

/// The number of bytes before a packet's body: the header and the opcode.
pub const BODY_OFFSET: usize = 10;

/// The shortest packet that is read.
pub const MIN_BUFFER_LENGTH: usize = 14;

/// The bytes of the header, `"Art-Net\0"`.
pub open spec fn artnet_header() -> Seq<u8> {
    seq![65u8, 114u8, 116u8, 45u8, 78u8, 101u8, 116u8, 0u8]
}

/// Whether `code` is an opcode of the protocol.
pub open spec fn opcode_known(code: u16) -> bool {
    code == 0x2000
        || code == 0x2100
        || code == 0x2300
        || code == 0x2400
        || code == 0x5000
        || code == 0x5100
        || code == 0x5200
        || code == 0x6000
        || code == 0x7000
        || code == 0x8000
        || code == 0x8100
        || code == 0x8200
        || code == 0x8300
        || code == 0x8400
        || code == 0xA010
        || code == 0xA020
        || code == 0xA040
        || code == 0xF000
        || code == 0xF100
        || code == 0xF200
        || code == 0xF300
        || code == 0xF400
        || code == 0xF500
        || code == 0xF600
        || code == 0xF800
        || code == 0xF900
        || code == 0x9000
        || code == 0x9100
        || code == 0x9200
        || code == 0x9300
        || code == 0x9700
        || code == 0x9800
        || code == 0x9900
        || code == 0x9A00
        || code == 0x9B00
}

/// A packet of the protocol: one variant per opcode. The variants with a
/// body carry it; the others stand for packets whose body is not read.
#[derive(Debug)]
pub enum ArtCommand {
    /// A poll, to discover the devices of the network.
    Poll(Poll),
    /// The answer to a poll, with the status of a device.
    PollReply(Box<PollReply>),
    /// Diagnostics and data logging; the body is not read.
    DiagData,
    /// Text parameter commands; the body is not read.
    Command,
    /// ArtDmx: DMX512 data for one universe of a node.
    Output(Output),
    /// ArtNzs: DMX512 data with a non-zero start code; the body is not read.
    Nzs,
    /// ArtSync: makes the nodes output their ArtDmx data at once.
    Sync(Sync),
    /// ArtAddress: remote programming of a node; the body is not read.
    Address,
    /// ArtInput: enables or disables DMX inputs; the body is not read.
    Input,
    /// ArtTodRequest: asks for an RDM table of devices; the body is not read.
    TodRequest,
    /// ArtTodData: an RDM table of devices; the body is not read.
    TodData,
    /// ArtTodControl: RDM discovery control; the body is not read.
    TodControl,
    /// ArtRdm: RDM messages other than discovery; the body is not read.
    Rdm,
    /// ArtRdmSub: compressed RDM sub-device data; the body is not read.
    RdmSub,
    /// ArtVideoSetup: video screen setup; the body is not read.
    VideoSetup,
    /// ArtVideoPalette: a colour palette; the body is not read.
    VideoPalette,
    /// ArtVideoData: display data; the body is not read.
    VideoData,
    /// Deprecated; the body is not read.
    MacMaster,
    /// Deprecated; the body is not read.
    MacSlave,
    /// ArtFirmwareMaster: a firmware upload; the body is not read.
    FirmwareMaster,
    /// ArtFirmwareReply: acknowledges a firmware or file upload; the body is not read.
    FirmwareReply,
    /// Uploads a user file to a node; the body is not read.
    FileTnMaster,
    /// Downloads a user file from a node; the body is not read.
    FileFnMaster,
    /// Acknowledges download packets; the body is not read.
    FileFnReply,
    /// ArtIpProg: reprograms the IP address of a node; the body is not read.
    OpIpProg,
    /// ArtIpProgReply: acknowledges an ArtIpProg; the body is not read.
    OpIpProgReply,
    /// ArtMedia, from a media server; the body is not read.
    OpMedia,
    /// ArtMediaPatch, to a media server; the body is not read.
    OpMediaPatch,
    /// ArtMediaControl, to a media server; the body is not read.
    OpMediaControl,
    /// ArtMediaControlReply, from a media server; the body is not read.
    OpMediaControlReply,
    /// ArtTimeCode: time code.
    OpTimeCode(Timecode),
    /// Synchronises the real-time date and clock; the body is not read.
    OpTimeSync,
    /// ArtTrigger: trigger macros.
    OpTrigger(Trigger),
    /// Asks for the file list of a node; the body is not read.
    OpDirectory,
    /// The file list of a node; the body is not read.
    OpDirectoryReply,
}

impl ArtCommand {
    /// The opcode of this packet.
    pub open spec fn opcode(&self) -> u16 {
        match self {
            ArtCommand::Poll(_) => 0x2000,
            ArtCommand::PollReply(_) => 0x2100,
            ArtCommand::DiagData => 0x2300,
            ArtCommand::Command => 0x2400,
            ArtCommand::Output(_) => 0x5000,
            ArtCommand::Nzs => 0x5100,
            ArtCommand::Sync(_) => 0x5200,
            ArtCommand::Address => 0x6000,
            ArtCommand::Input => 0x7000,
            ArtCommand::TodRequest => 0x8000,
            ArtCommand::TodData => 0x8100,
            ArtCommand::TodControl => 0x8200,
            ArtCommand::Rdm => 0x8300,
            ArtCommand::RdmSub => 0x8400,
            ArtCommand::VideoSetup => 0xA010,
            ArtCommand::VideoPalette => 0xA020,
            ArtCommand::VideoData => 0xA040,
            ArtCommand::MacMaster => 0xF000,
            ArtCommand::MacSlave => 0xF100,
            ArtCommand::FirmwareMaster => 0xF200,
            ArtCommand::FirmwareReply => 0xF300,
            ArtCommand::FileTnMaster => 0xF400,
            ArtCommand::FileFnMaster => 0xF500,
            ArtCommand::FileFnReply => 0xF600,
            ArtCommand::OpIpProg => 0xF800,
            ArtCommand::OpIpProgReply => 0xF900,
            ArtCommand::OpMedia => 0x9000,
            ArtCommand::OpMediaPatch => 0x9100,
            ArtCommand::OpMediaControl => 0x9200,
            ArtCommand::OpMediaControlReply => 0x9300,
            ArtCommand::OpTimeCode(_) => 0x9700,
            ArtCommand::OpTimeSync => 0x9800,
            ArtCommand::OpTrigger(_) => 0x9900,
            ArtCommand::OpDirectory => 0x9A00,
            ArtCommand::OpDirectoryReply => 0x9B00,
        }
    }

    /// The bytes of this packet's body.
    pub open spec fn body_wire(&self) -> Seq<u8> {
        match self {
            ArtCommand::Poll(p) => p.wire(),
            ArtCommand::PollReply(p) => p.wire(),
            ArtCommand::Output(p) => p.wire(),
            ArtCommand::Sync(p) => p.wire(),
            ArtCommand::OpTimeCode(p) => p.wire(),
            ArtCommand::OpTrigger(p) => p.wire(),
            _ => Seq::empty(),
        }
    }

    /// Whether this packet can be written: an Output needs 1 to 512 values.
    pub open spec fn writable(&self) -> bool {
        match self {
            ArtCommand::Output(p) => p.writable(),
            _ => true,
        }
    }

    /// The bytes of this packet: header, opcode (little-endian) and body.
    pub open spec fn wire(&self) -> Seq<u8> {
        artnet_header() + le_bytes(self.opcode()) + self.body_wire()
    }

    /// Whether `body` holds a body of the packet kind of `code`.
    pub open spec fn body_accepts(code: u16, body: Seq<u8>) -> bool {
        if code == 0x2000 {
            Poll::accepts(body)
        } else if code == 0x2100 {
            PollReply::accepts(body)
        } else if code == 0x5000 {
            Output::accepts(body)
        } else if code == 0x5200 {
            Sync::accepts(body)
        } else if code == 0x9700 {
            Timecode::accepts(body)
        } else if code == 0x9900 {
            Trigger::accepts(body)
        } else {
            true
        }
    }

    /// The name that an error reading a body of opcode `code` carries.
    pub open spec fn body_name(code: u16) -> &'static str {
        if code == 0x2000 {
            "Poll"
        } else if code == 0x2100 {
            "PollReply"
        } else if code == 0x5000 {
            "Output"
        } else if code == 0x5200 {
            "Sync"
        } else if code == 0x9700 {
            "Timecode"
        } else {
            "Trigger"
        }
    }

    /// Whether this packet's body is the one that `body` holds.
    pub open spec fn body_read_from(&self, body: Seq<u8>) -> bool {
        match self {
            ArtCommand::Poll(p) => p.read_from(body),
            ArtCommand::PollReply(p) => p.read_from(body),
            ArtCommand::Output(p) => p.read_from(body),
            ArtCommand::Sync(p) => p.read_from(body),
            ArtCommand::OpTimeCode(p) => p.read_from(body),
            ArtCommand::OpTrigger(p) => p.read_from(body),
            _ => true,
        }
    }

    /// The opcode that `bytes` holds.
    pub open spec fn opcode_in(bytes: Seq<u8>) -> u16 {
        le_value(bytes[8], bytes[9])
    }

    /// The body that `bytes` holds: what follows the opcode.
    pub open spec fn body_in(bytes: Seq<u8>) -> Seq<u8> {
        bytes.subrange(BODY_OFFSET as int, bytes.len() as int)
    }

    /// Whether `bytes` is a packet that reads: long enough, with the header,
    /// a known opcode and a body of that opcode's kind.
    pub open spec fn accepts(bytes: Seq<u8>) -> bool {
        &&& bytes.len() >= MIN_BUFFER_LENGTH
        &&& bytes.subrange(0, 8) == artnet_header()
        &&& opcode_known(ArtCommand::opcode_in(bytes))
        &&& ArtCommand::body_accepts(ArtCommand::opcode_in(bytes), ArtCommand::body_in(bytes))
    }

    /// Whether this packet is the one that `bytes` holds.
    pub open spec fn read_from(&self, bytes: Seq<u8>) -> bool {
        self.opcode() == ArtCommand::opcode_in(bytes) && self.body_read_from(
            ArtCommand::body_in(bytes),
        )
    }

    /// Whether the packet is well formed: what reading gives always is.
    pub open spec fn wf(&self) -> bool {
        match self {
            ArtCommand::Poll(p) => p.wf(),
            ArtCommand::Output(p) => p.port_address.wf(),
            ArtCommand::OpTrigger(p) => p.wf(),
            _ => true,
        }
    }

    /// Whether two packets are of the same kind with the same fields, the
    /// length of an Output aside.
    pub open spec fn same(&self, other: &ArtCommand) -> bool {
        match (self, other) {
            (ArtCommand::Poll(p), ArtCommand::Poll(q)) => p.same(q),
            (ArtCommand::PollReply(p), ArtCommand::PollReply(q)) => p.same(q),
            (ArtCommand::Output(p), ArtCommand::Output(q)) => p.same(q),
            (ArtCommand::Sync(p), ArtCommand::Sync(q)) => p.same(q),
            (ArtCommand::OpTimeCode(p), ArtCommand::OpTimeCode(q)) => p.same(q),
            (ArtCommand::OpTrigger(p), ArtCommand::OpTrigger(q)) => p.same(q),
            _ => self.opcode() == other.opcode(),
        }
    }

    /// Writes this packet: header, opcode, body. Fails only for an Output
    /// whose data has no value or more than 512.
    pub fn write_to_buffer(self) -> (r: Result<Vec<u8>>)
        ensures
            self.writable() <==> r is Ok,
            r is Ok ==> r->Ok_0@ == self.wire(),
            !self.writable() ==> (r matches Err(Error::SerializeError(m, inner)) && m
                == "Could not serialize field Output::data" && (self matches ArtCommand::Output(p)
                && p.data.size_error(*inner))),
    {
        let mut result: Vec<u8> = Vec::new();
        let (opcode, data) = self.get_opcode()?;
        push_all(&mut result, &ARTNET_HEADER);
        let code = u16_le_bytes(opcode);
        push_all(&mut result, &code);
        push_all(&mut result, data.as_slice());
        assert(ARTNET_HEADER@ == artnet_header());
        assert(result@ =~= self.wire());
        Ok(result)
    }

    /// Reads a packet. Fails when `buffer` is shorter than 14 bytes, does
    /// not start with the header, holds an opcode that is not the
    /// protocol's, or a body that does not read; the protocol version is not
    /// checked.
    pub fn from_buffer(buffer: &[u8]) -> (r: Result<ArtCommand>)
        ensures
            ArtCommand::accepts(buffer@) <==> r is Ok,
            r is Ok ==> r->Ok_0.read_from(buffer@) && r->Ok_0.wf(),
            buffer@.len() < MIN_BUFFER_LENGTH ==> (r matches Err(
                Error::MessageTooShort { message, min_len },
            ) && message@ == buffer@ && min_len == MIN_BUFFER_LENGTH),
            buffer@.len() >= MIN_BUFFER_LENGTH && buffer@.subrange(0, 8) != artnet_header() ==> (
            r matches Err(Error::InvalidArtnetHeader(message)) && message@ == buffer@),
            buffer@.len() >= MIN_BUFFER_LENGTH && buffer@.subrange(0, 8) == artnet_header()
                && !opcode_known(ArtCommand::opcode_in(buffer@)) ==> r == Err::<ArtCommand, Error>(
                Error::UnknownOpcode(ArtCommand::opcode_in(buffer@)),
            ),
            buffer@.len() >= MIN_BUFFER_LENGTH && buffer@.subrange(0, 8) == artnet_header()
                && opcode_known(ArtCommand::opcode_in(buffer@)) && !ArtCommand::body_accepts(
                ArtCommand::opcode_in(buffer@),
                ArtCommand::body_in(buffer@),
            ) ==> (r matches Err(Error::OpcodeError(name, inner)) && name == ArtCommand::body_name(
                ArtCommand::opcode_in(buffer@),
            ) && *inner is DeserializeError),
    {
        if buffer.len() < MIN_BUFFER_LENGTH {
            return Err(Error::MessageTooShort { message: copy_bytes(buffer), min_len: MIN_BUFFER_LENGTH });
        }
        if !starts_with_header(buffer) {
            return Err(Error::InvalidArtnetHeader(copy_bytes(buffer)));
        }
        let opcode = crate::bytes::read_u16_le(buffer, 8);
        let remaining = vstd::slice::slice_subrange(buffer, BODY_OFFSET, buffer.len());
        ArtCommand::opcode_to_enum(opcode, remaining)
    }

    /// The packet of opcode `code` with body `data`.
    pub fn opcode_to_enum(code: u16, data: &[u8]) -> (r: Result<ArtCommand>)
        ensures
            opcode_known(code) && ArtCommand::body_accepts(code, data@) <==> r is Ok,
            r is Ok ==> r->Ok_0.opcode() == code && r->Ok_0.body_read_from(data@) && r->Ok_0.wf(),
            !opcode_known(code) ==> r == Err::<ArtCommand, Error>(Error::UnknownOpcode(code)),
            opcode_known(code) && !ArtCommand::body_accepts(code, data@) ==> (r matches Err(
                Error::OpcodeError(name, inner),
            ) && name == ArtCommand::body_name(code) && *inner is DeserializeError),
    {
        let command = match code {
            0x2000 => match Poll::from(data) {
                Ok(p) => ArtCommand::Poll(p),
                Err(e) => return Err(Error::OpcodeError("Poll", Box::new(e))),
            },
            0x2100 => match PollReply::from(data) {
                Ok(p) => ArtCommand::PollReply(Box::new(p)),
                Err(e) => return Err(Error::OpcodeError("PollReply", Box::new(e))),
            },
            0x2300 => ArtCommand::DiagData,
            0x2400 => ArtCommand::Command,
            0x5000 => match Output::from(data) {
                Ok(p) => ArtCommand::Output(p),
                Err(e) => return Err(Error::OpcodeError("Output", Box::new(e))),
            },
            0x5100 => ArtCommand::Nzs,
            0x5200 => match Sync::from(data) {
                Ok(p) => ArtCommand::Sync(p),
                Err(e) => return Err(Error::OpcodeError("Sync", Box::new(e))),
            },
            0x6000 => ArtCommand::Address,
            0x7000 => ArtCommand::Input,
            0x8000 => ArtCommand::TodRequest,
            0x8100 => ArtCommand::TodData,
            0x8200 => ArtCommand::TodControl,
            0x8300 => ArtCommand::Rdm,
            0x8400 => ArtCommand::RdmSub,
            0xA010 => ArtCommand::VideoSetup,
            0xA020 => ArtCommand::VideoPalette,
            0xA040 => ArtCommand::VideoData,
            0xF000 => ArtCommand::MacMaster,
            0xF100 => ArtCommand::MacSlave,
            0xF200 => ArtCommand::FirmwareMaster,
            0xF300 => ArtCommand::FirmwareReply,
            0xF400 => ArtCommand::FileTnMaster,
            0xF500 => ArtCommand::FileFnMaster,
            0xF600 => ArtCommand::FileFnReply,
            0xF800 => ArtCommand::OpIpProg,
            0xF900 => ArtCommand::OpIpProgReply,
            0x9000 => ArtCommand::OpMedia,
            0x9100 => ArtCommand::OpMediaPatch,
            0x9200 => ArtCommand::OpMediaControl,
            0x9300 => ArtCommand::OpMediaControlReply,
            0x9700 => match Timecode::from(data) {
                Ok(p) => ArtCommand::OpTimeCode(p),
                Err(e) => return Err(Error::OpcodeError("Timecode", Box::new(e))),
            },
            0x9800 => ArtCommand::OpTimeSync,
            0x9900 => match Trigger::from(data) {
                Ok(p) => ArtCommand::OpTrigger(p),
                Err(e) => return Err(Error::OpcodeError("Trigger", Box::new(e))),
            },
            0x9A00 => ArtCommand::OpDirectory,
            0x9B00 => ArtCommand::OpDirectoryReply,
            _ => return Err(Error::UnknownOpcode(code)),
        };
        Ok(command)
    }

    /// The opcode of this packet and the bytes of its body.
    pub fn get_opcode(&self) -> (r: Result<(u16, Vec<u8>)>)
        ensures
            self.writable() <==> r is Ok,
            r is Ok ==> r->Ok_0.0 == self.opcode() && r->Ok_0.1@ == self.body_wire(),
            !self.writable() ==> (r matches Err(Error::SerializeError(m, inner)) && m
                == "Could not serialize field Output::data" && (self matches ArtCommand::Output(p)
                && p.data.size_error(*inner))),
    {
        let r = match self {
            ArtCommand::Poll(p) => (0x2000, p.to_bytes()?),
            ArtCommand::PollReply(p) => (0x2100, p.to_bytes()?),
            ArtCommand::DiagData => (0x2300, Vec::new()),
            ArtCommand::Command => (0x2400, Vec::new()),
            ArtCommand::Output(p) => (0x5000, p.to_bytes()?),
            ArtCommand::Nzs => (0x5100, Vec::new()),
            ArtCommand::Sync(p) => (0x5200, p.to_bytes()?),
            ArtCommand::Address => (0x6000, Vec::new()),
            ArtCommand::Input => (0x7000, Vec::new()),
            ArtCommand::TodRequest => (0x8000, Vec::new()),
            ArtCommand::TodData => (0x8100, Vec::new()),
            ArtCommand::TodControl => (0x8200, Vec::new()),
            ArtCommand::Rdm => (0x8300, Vec::new()),
            ArtCommand::RdmSub => (0x8400, Vec::new()),
            ArtCommand::VideoSetup => (0xA010, Vec::new()),
            ArtCommand::VideoPalette => (0xA020, Vec::new()),
            ArtCommand::VideoData => (0xA040, Vec::new()),
            ArtCommand::MacMaster => (0xF000, Vec::new()),
            ArtCommand::MacSlave => (0xF100, Vec::new()),
            ArtCommand::FirmwareMaster => (0xF200, Vec::new()),
            ArtCommand::FirmwareReply => (0xF300, Vec::new()),
            ArtCommand::FileTnMaster => (0xF400, Vec::new()),
            ArtCommand::FileFnMaster => (0xF500, Vec::new()),
            ArtCommand::FileFnReply => (0xF600, Vec::new()),
            ArtCommand::OpIpProg => (0xF800, Vec::new()),
            ArtCommand::OpIpProgReply => (0xF900, Vec::new()),
            ArtCommand::OpMedia => (0x9000, Vec::new()),
            ArtCommand::OpMediaPatch => (0x9100, Vec::new()),
            ArtCommand::OpMediaControl => (0x9200, Vec::new()),
            ArtCommand::OpMediaControlReply => (0x9300, Vec::new()),
            ArtCommand::OpTimeCode(p) => (0x9700, p.to_bytes()?),
            ArtCommand::OpTimeSync => (0x9800, Vec::new()),
            ArtCommand::OpTrigger(p) => (0x9900, p.to_bytes()?),
            ArtCommand::OpDirectory => (0x9A00, Vec::new()),
            ArtCommand::OpDirectoryReply => (0x9B00, Vec::new()),
        };
        Ok(r)
    }
}

impl ArtCommand {
    /// Whether this packet carries a body of its own: Poll, PollReply,
    /// Output, Sync, Timecode or Trigger.
    pub open spec fn has_body(&self) -> bool {
        ||| self is Poll
        ||| self is PollReply
        ||| self is Output
        ||| self is Sync
        ||| self is OpTimeCode
        ||| self is OpTrigger
    }

    proof fn lemma_envelope(c: &ArtCommand)
        ensures
            c.wire().len() == BODY_OFFSET + c.body_wire().len(),
            c.wire().subrange(0, 8) == artnet_header(),
            ArtCommand::opcode_in(c.wire()) == c.opcode(),
            ArtCommand::body_in(c.wire()) == c.body_wire(),
            opcode_known(c.opcode()),
    {
        crate::bytes::lemma_le_round_trip(c.opcode());
        let w = c.wire();
        assert(w.subrange(0, 8) =~= artnet_header());
        assert(ArtCommand::body_in(w) =~= c.body_wire());
    }

    /// Reading the bytes that a well-formed packet with a body writes gives
    /// back a packet of the same kind with the same fields, the length of an
    /// Output aside, when an Output's data has an even number of values.
    pub proof fn lemma_round_trip(c: &ArtCommand, d: &ArtCommand)
        requires
            c.wf(),
            c.has_body(),
            c.writable(),
            c matches ArtCommand::Output(o) ==> o.data@.len() % 2 == 0,
            d.read_from(c.wire()),
        ensures
            ArtCommand::accepts(c.wire()),
            d.same(c),
    {
        ArtCommand::lemma_envelope(c);
        match c {
            ArtCommand::Poll(p) => {
                let q = d->Poll_0;
                Poll::lemma_round_trip(p, &q);
            },
            ArtCommand::PollReply(p) => {
                let q = d->PollReply_0;
                PollReply::lemma_round_trip(&*p, &*q);
            },
            ArtCommand::Output(p) => {
                let q = d->Output_0;
                Output::lemma_round_trip(p, &q);
            },
            ArtCommand::Sync(p) => {
                let q = d->Sync_0;
                Sync::lemma_round_trip(p, &q);
            },
            ArtCommand::OpTimeCode(p) => {
                let q = d->OpTimeCode_0;
                Timecode::lemma_round_trip(p, &q);
            },
            ArtCommand::OpTrigger(p) => {
                let q = d->OpTrigger_0;
                Trigger::lemma_round_trip(p, &q);
            },
            _ => {},
        }
    }

    /// Writing what was read from the bytes of a well-formed packet with a
    /// body gives the same bytes: the length is recomputed and the padding
    /// byte of odd data is kept.
    #[verifier::spinoff_prover]
    pub proof fn lemma_rewrite(c: &ArtCommand, d: &ArtCommand)
        requires
            c.wf(),
            c.has_body(),
            c.writable(),
            d.read_from(c.wire()),
        ensures
            ArtCommand::accepts(c.wire()),
            d.writable(),
            d.wire() == c.wire(),
    {
        ArtCommand::lemma_envelope(c);
        ArtCommand::lemma_body_rewrite(c, d);
        let (oc, od) = (c.opcode(), d.opcode());
        assert(oc == od);
        assert(d.wire() == artnet_header() + le_bytes(od) + d.body_wire());
        assert(c.wire() == artnet_header() + le_bytes(oc) + c.body_wire());
    }

    #[verifier::spinoff_prover]
    proof fn lemma_body_rewrite(c: &ArtCommand, d: &ArtCommand)
        requires
            c.wf(),
            c.has_body(),
            c.writable(),
            d.read_from(c.wire()),
            ArtCommand::opcode_in(c.wire()) == c.opcode(),
            ArtCommand::body_in(c.wire()) == c.body_wire(),
        ensures
            d.writable(),
            d.body_wire() == c.body_wire(),
            ArtCommand::body_accepts(c.opcode(), c.body_wire()),
    {
        match c {
            ArtCommand::Poll(p) => {
                let q = d->Poll_0;
                Poll::lemma_round_trip(p, &q);
            },
            ArtCommand::PollReply(p) => {
                let q = d->PollReply_0;
                PollReply::lemma_round_trip(&*p, &*q);
            },
            ArtCommand::Output(p) => {
                let q = d->Output_0;
                Output::lemma_rewrite(p, &q);
            },
            ArtCommand::Sync(p) => {
                let q = d->Sync_0;
                Sync::lemma_round_trip(p, &q);
            },
            ArtCommand::OpTimeCode(p) => {
                let q = d->OpTimeCode_0;
                Timecode::lemma_round_trip(p, &q);
            },
            ArtCommand::OpTrigger(p) => {
                let q = d->OpTrigger_0;
                Trigger::lemma_round_trip(p, &q);
            },
            _ => {},
        }
    }

    /// The two version bytes that open a body are not checked: whatever
    /// they hold, a packet reads or fails alike. (A PollReply opens with the
    /// node's address instead.)
    pub proof fn lemma_version_not_checked(bytes: Seq<u8>, v0: u8, v1: u8)
        requires
            bytes.len() >= MIN_BUFFER_LENGTH,
            ArtCommand::opcode_in(bytes) != 0x2100,
        ensures
            ArtCommand::accepts(bytes.update(10, v0).update(11, v1)) == ArtCommand::accepts(bytes),
    {
        let other = bytes.update(10, v0).update(11, v1);
        assert(other.subrange(0, 8) =~= bytes.subrange(0, 8));
        let b = ArtCommand::body_in(bytes);
        let ob = ArtCommand::body_in(other);
        assert(ob.len() == b.len());
        assert(forall|i: int| 2 <= i < b.len() ==> ob[i] == b[i]);
        assert(ob.len() >= 6 ==> ob[4] == b[4] && ob[5] == b[5]);
        assert(ob.len() >= 9 ==> ob[8] == b[8]);
    }
}

/// Whether `buffer` starts with the header.
fn starts_with_header(buffer: &[u8]) -> (r: bool)
    requires
        buffer@.len() >= 8,
    ensures
        r == (buffer@.subrange(0, 8) == artnet_header()),
{
    let mut i: usize = 0;
    while i < 8
        invariant
            i <= 8,
            buffer@.len() >= 8,
            forall|k: int| 0 <= k < i ==> buffer@[k] == artnet_header()[k],
        decreases 8 - i,
    {
        if buffer[i] != ARTNET_HEADER[i] {
            assert(buffer@.subrange(0, 8)[i as int] != artnet_header()[i as int]);
            return false;
        }
        i = i + 1;
    }
    assert(buffer@.subrange(0, 8) =~= artnet_header());
    true
}

} // verus!
