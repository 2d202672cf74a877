use crate::bytes::{le_bytes, le_value};
use crate::convert::{read_field, write_field};
use crate::cursor::Cursor;
use crate::error::{Error, Result};
use vstd::prelude::*;

verus! {

broadcast use crate::cursor::lemma_take_of_suffix;

/// ArtPollReply: what a node sends in answer to a Poll, describing itself.
/// The fields follow the protocol's layout, in order.
#[derive(Debug)]
pub struct PollReply {
    /// The IP address of the node.
    pub address: [u8; 4],
    /// The UDP port of the node, 0x1936 (6454).
    pub port: u16,
    /// The firmware version of the node.
    pub version: [u8; 2],
    /// Bits 14 to 8 of the port address in the low 7 bits of the first byte; bits 7 to 4 in the low 4 bits of the second.
    pub port_address: [u8; 2],
    /// The vendor and feature set of the equipment; bit 15 set means extended features.
    pub oem: [u8; 2],
    /// The firmware version of the User Bios Extension Area, or zero.
    pub ubea_version: u8,
    /// The general status register.
    pub status_1: u8,
    /// The ESTA manufacturer code.
    pub esta_code: u16,
    /// The short name of the node: up to 17 characters and a zero.
    pub short_name: [u8; 18],
    /// The long name of the node: up to 63 characters and a zero.
    pub long_name: [u8; 64],
    /// A text report of the node's status, formatted "#xxxx [yyyy..] zzzzz...".
    pub node_report: [u8; 64],
    /// The number of input or output ports, the larger of the two, at most 4.
    pub num_ports: [u8; 2],
    /// The operation and protocol of each port.
    pub port_types: [u8; 4],
    /// The input status of each port.
    pub good_input: [u8; 4],
    /// The output status of each port.
    pub good_output: [u8; 4],
    /// Bits 3 to 0 of the port address of each input port, in the low nibble.
    pub swin: [u8; 4],
    /// Bits 3 to 0 of the port address of each output port, in the low nibble.
    pub swout: [u8; 4],
    /// Deprecated: 0 when the display shows local data, 1 when it shows network data.
    pub sw_video: u8,
    /// The macro key inputs of the node, if it has them.
    pub sw_macro: u8,
    /// The remote trigger inputs of the node, if it has them.
    pub sw_remote: u8,
    /// Unused.
    pub spare: [u8; 3],
    /// The equipment style of the node.
    pub style: u8,
    /// The MAC address, or zeros when the node cannot supply it.
    pub mac: [u8; 6],
    /// The IP address of the root device when this unit is part of a larger product.
    pub bind_ip: [u8; 4],
    /// The order of bound devices; 1 is the root device.
    pub bind_index: u8,
    /// The second status register.
    pub status_2: u8,
    /// Zero; for future expansion.
    pub filler: [u8; 26],
}

/// The number of bytes of a PollReply body.
pub const POLL_REPLY_LENGTH: usize = 229;

impl PollReply {
    /// The bytes of this body, field after field.
    pub open spec fn wire(&self) -> Seq<u8> {
        self.address@
            + le_bytes(self.port)
            + self.version@
            + self.port_address@
            + self.oem@
            + seq![self.ubea_version]
            + seq![self.status_1]
            + le_bytes(self.esta_code)
            + self.short_name@
            + self.long_name@
            + self.node_report@
            + self.num_ports@
            + self.port_types@
            + self.good_input@
            + self.good_output@
            + self.swin@
            + self.swout@
            + seq![self.sw_video]
            + seq![self.sw_macro]
            + seq![self.sw_remote]
            + self.spare@
            + seq![self.style]
            + self.mac@
            + self.bind_ip@
            + seq![self.bind_index]
            + seq![self.status_2]
            + self.filler@
    }

    /// Whether `bytes` holds a PollReply body.
    pub open spec fn accepts(bytes: Seq<u8>) -> bool {
        bytes.len() >= POLL_REPLY_LENGTH
    }

    /// Whether this body is the one that `bytes` holds.
    pub open spec fn read_from(&self, bytes: Seq<u8>) -> bool {
        &&& self.address@ == bytes.subrange(0, 4)
        &&& self.port == le_value(bytes[4], bytes[5])
        &&& self.version@ == bytes.subrange(6, 8)
        &&& self.port_address@ == bytes.subrange(8, 10)
        &&& self.oem@ == bytes.subrange(10, 12)
        &&& self.ubea_version == bytes[12]
        &&& self.status_1 == bytes[13]
        &&& self.esta_code == le_value(bytes[14], bytes[15])
        &&& self.short_name@ == bytes.subrange(16, 34)
        &&& self.long_name@ == bytes.subrange(34, 98)
        &&& self.node_report@ == bytes.subrange(98, 162)
        &&& self.num_ports@ == bytes.subrange(162, 164)
        &&& self.port_types@ == bytes.subrange(164, 168)
        &&& self.good_input@ == bytes.subrange(168, 172)
        &&& self.good_output@ == bytes.subrange(172, 176)
        &&& self.swin@ == bytes.subrange(176, 180)
        &&& self.swout@ == bytes.subrange(180, 184)
        &&& self.sw_video == bytes[184]
        &&& self.sw_macro == bytes[185]
        &&& self.sw_remote == bytes[186]
        &&& self.spare@ == bytes.subrange(187, 190)
        &&& self.style == bytes[190]
        &&& self.mac@ == bytes.subrange(191, 197)
        &&& self.bind_ip@ == bytes.subrange(197, 201)
        &&& self.bind_index == bytes[201]
        &&& self.status_2 == bytes[202]
        &&& self.filler@ == bytes.subrange(203, 229)
    }

    /// Whether two bodies have the same fields.
    pub open spec fn same(&self, other: &PollReply) -> bool {
        &&& self.address@ == other.address@
        &&& self.port == other.port
        &&& self.version@ == other.version@
        &&& self.port_address@ == other.port_address@
        &&& self.oem@ == other.oem@
        &&& self.ubea_version == other.ubea_version
        &&& self.status_1 == other.status_1
        &&& self.esta_code == other.esta_code
        &&& self.short_name@ == other.short_name@
        &&& self.long_name@ == other.long_name@
        &&& self.node_report@ == other.node_report@
        &&& self.num_ports@ == other.num_ports@
        &&& self.port_types@ == other.port_types@
        &&& self.good_input@ == other.good_input@
        &&& self.good_output@ == other.good_output@
        &&& self.swin@ == other.swin@
        &&& self.swout@ == other.swout@
        &&& self.sw_video == other.sw_video
        &&& self.sw_macro == other.sw_macro
        &&& self.sw_remote == other.sw_remote
        &&& self.spare@ == other.spare@
        &&& self.style == other.style
        &&& self.mac@ == other.mac@
        &&& self.bind_ip@ == other.bind_ip@
        &&& self.bind_index == other.bind_index
        &&& self.status_2 == other.status_2
        &&& self.filler@ == other.filler@
    }

    /// Reading the bytes of a body gives back its fields, and writing them
    /// again gives the same bytes.
    pub proof fn lemma_round_trip(p: &PollReply, q: &PollReply)
        requires
            q.read_from(p.wire()),
        ensures
            PollReply::accepts(p.wire()),
            q.same(p),
            q.wire() == p.wire(),
    {
        let w = p.wire();
        assert(w.subrange(0, 4) =~= p.address@);
        crate::bytes::lemma_le_round_trip(p.port);
        assert(w.subrange(6, 8) =~= p.version@);
        assert(w.subrange(8, 10) =~= p.port_address@);
        assert(w.subrange(10, 12) =~= p.oem@);
        crate::bytes::lemma_le_round_trip(p.esta_code);
        assert(w.subrange(16, 34) =~= p.short_name@);
        assert(w.subrange(34, 98) =~= p.long_name@);
        assert(w.subrange(98, 162) =~= p.node_report@);
        assert(w.subrange(162, 164) =~= p.num_ports@);
        assert(w.subrange(164, 168) =~= p.port_types@);
        assert(w.subrange(168, 172) =~= p.good_input@);
        assert(w.subrange(172, 176) =~= p.good_output@);
        assert(w.subrange(176, 180) =~= p.swin@);
        assert(w.subrange(180, 184) =~= p.swout@);
        assert(w.subrange(187, 190) =~= p.spare@);
        assert(w.subrange(191, 197) =~= p.mac@);
        assert(w.subrange(197, 201) =~= p.bind_ip@);
        assert(w.subrange(203, 229) =~= p.filler@);
        assert(q.wire() =~= p.wire());
    }

    /// The bytes of this body.
    pub fn to_bytes(&self) -> (r: Result<Vec<u8>>)
        ensures
            r is Ok,
            r->Ok_0@ == self.wire(),
    {
        let mut result: Vec<u8> = Vec::new();
        write_field(
            &self.address,
            &mut result,
            self,
            "Could not serialize field PollReply::address",
        )?;
        write_field(
            &self.port,
            &mut result,
            self,
            "Could not serialize field PollReply::port",
        )?;
        write_field(
            &self.version,
            &mut result,
            self,
            "Could not serialize field PollReply::version",
        )?;
        write_field(
            &self.port_address,
            &mut result,
            self,
            "Could not serialize field PollReply::port_address",
        )?;
        write_field(
            &self.oem,
            &mut result,
            self,
            "Could not serialize field PollReply::oem",
        )?;
        write_field(
            &self.ubea_version,
            &mut result,
            self,
            "Could not serialize field PollReply::ubea_version",
        )?;
        write_field(
            &self.status_1,
            &mut result,
            self,
            "Could not serialize field PollReply::status_1",
        )?;
        write_field(
            &self.esta_code,
            &mut result,
            self,
            "Could not serialize field PollReply::esta_code",
        )?;
        write_field(
            &self.short_name,
            &mut result,
            self,
            "Could not serialize field PollReply::short_name",
        )?;
        write_field(
            &self.long_name,
            &mut result,
            self,
            "Could not serialize field PollReply::long_name",
        )?;
        write_field(
            &self.node_report,
            &mut result,
            self,
            "Could not serialize field PollReply::node_report",
        )?;
        write_field(
            &self.num_ports,
            &mut result,
            self,
            "Could not serialize field PollReply::num_ports",
        )?;
        write_field(
            &self.port_types,
            &mut result,
            self,
            "Could not serialize field PollReply::port_types",
        )?;
        write_field(
            &self.good_input,
            &mut result,
            self,
            "Could not serialize field PollReply::good_input",
        )?;
        write_field(
            &self.good_output,
            &mut result,
            self,
            "Could not serialize field PollReply::good_output",
        )?;
        write_field(
            &self.swin,
            &mut result,
            self,
            "Could not serialize field PollReply::swin",
        )?;
        write_field(
            &self.swout,
            &mut result,
            self,
            "Could not serialize field PollReply::swout",
        )?;
        write_field(
            &self.sw_video,
            &mut result,
            self,
            "Could not serialize field PollReply::sw_video",
        )?;
        write_field(
            &self.sw_macro,
            &mut result,
            self,
            "Could not serialize field PollReply::sw_macro",
        )?;
        write_field(
            &self.sw_remote,
            &mut result,
            self,
            "Could not serialize field PollReply::sw_remote",
        )?;
        write_field(
            &self.spare,
            &mut result,
            self,
            "Could not serialize field PollReply::spare",
        )?;
        write_field(
            &self.style,
            &mut result,
            self,
            "Could not serialize field PollReply::style",
        )?;
        write_field(
            &self.mac,
            &mut result,
            self,
            "Could not serialize field PollReply::mac",
        )?;
        write_field(
            &self.bind_ip,
            &mut result,
            self,
            "Could not serialize field PollReply::bind_ip",
        )?;
        write_field(
            &self.bind_index,
            &mut result,
            self,
            "Could not serialize field PollReply::bind_index",
        )?;
        write_field(
            &self.status_2,
            &mut result,
            self,
            "Could not serialize field PollReply::status_2",
        )?;
        write_field(
            &self.filler,
            &mut result,
            self,
            "Could not serialize field PollReply::filler",
        )?;
        assert(result@ =~= self.wire());
        Ok(result)
    }

    /// Reads a PollReply body from the front of `data`.
    pub fn from(data: &[u8]) -> (r: Result<PollReply>)
        ensures
            PollReply::accepts(data@) <==> r is Ok,
            r is Ok ==> r->Ok_0.read_from(data@),
            !PollReply::accepts(data@) ==> (r matches Err(Error::DeserializeError(_, inner))
                && *inner == Error::CursorEof),
    {
        let mut cursor = Cursor::new(data);
        let address: [u8; 4] = read_field::<PollReply, _>(
            &mut cursor,
            "Could not deserialize field PollReply::address",
        )?;
        let port: u16 = read_field::<PollReply, _>(
            &mut cursor,
            "Could not deserialize field PollReply::port",
        )?;
        let version: [u8; 2] = read_field::<PollReply, _>(
            &mut cursor,
            "Could not deserialize field PollReply::version",
        )?;
        let port_address: [u8; 2] = read_field::<PollReply, _>(
            &mut cursor,
            "Could not deserialize field PollReply::port_address",
        )?;
        let oem: [u8; 2] = read_field::<PollReply, _>(
            &mut cursor,
            "Could not deserialize field PollReply::oem",
        )?;
        let ubea_version: u8 = read_field::<PollReply, _>(
            &mut cursor,
            "Could not deserialize field PollReply::ubea_version",
        )?;
        let status_1: u8 = read_field::<PollReply, _>(
            &mut cursor,
            "Could not deserialize field PollReply::status_1",
        )?;
        let esta_code: u16 = read_field::<PollReply, _>(
            &mut cursor,
            "Could not deserialize field PollReply::esta_code",
        )?;
        let short_name: [u8; 18] = read_field::<PollReply, _>(
            &mut cursor,
            "Could not deserialize field PollReply::short_name",
        )?;
        let long_name: [u8; 64] = read_field::<PollReply, _>(
            &mut cursor,
            "Could not deserialize field PollReply::long_name",
        )?;
        let node_report: [u8; 64] = read_field::<PollReply, _>(
            &mut cursor,
            "Could not deserialize field PollReply::node_report",
        )?;
        let num_ports: [u8; 2] = read_field::<PollReply, _>(
            &mut cursor,
            "Could not deserialize field PollReply::num_ports",
        )?;
        let port_types: [u8; 4] = read_field::<PollReply, _>(
            &mut cursor,
            "Could not deserialize field PollReply::port_types",
        )?;
        let good_input: [u8; 4] = read_field::<PollReply, _>(
            &mut cursor,
            "Could not deserialize field PollReply::good_input",
        )?;
        let good_output: [u8; 4] = read_field::<PollReply, _>(
            &mut cursor,
            "Could not deserialize field PollReply::good_output",
        )?;
        let swin: [u8; 4] = read_field::<PollReply, _>(
            &mut cursor,
            "Could not deserialize field PollReply::swin",
        )?;
        let swout: [u8; 4] = read_field::<PollReply, _>(
            &mut cursor,
            "Could not deserialize field PollReply::swout",
        )?;
        let sw_video: u8 = read_field::<PollReply, _>(
            &mut cursor,
            "Could not deserialize field PollReply::sw_video",
        )?;
        let sw_macro: u8 = read_field::<PollReply, _>(
            &mut cursor,
            "Could not deserialize field PollReply::sw_macro",
        )?;
        let sw_remote: u8 = read_field::<PollReply, _>(
            &mut cursor,
            "Could not deserialize field PollReply::sw_remote",
        )?;
        let spare: [u8; 3] = read_field::<PollReply, _>(
            &mut cursor,
            "Could not deserialize field PollReply::spare",
        )?;
        let style: u8 = read_field::<PollReply, _>(
            &mut cursor,
            "Could not deserialize field PollReply::style",
        )?;
        let mac: [u8; 6] = read_field::<PollReply, _>(
            &mut cursor,
            "Could not deserialize field PollReply::mac",
        )?;
        let bind_ip: [u8; 4] = read_field::<PollReply, _>(
            &mut cursor,
            "Could not deserialize field PollReply::bind_ip",
        )?;
        let bind_index: u8 = read_field::<PollReply, _>(
            &mut cursor,
            "Could not deserialize field PollReply::bind_index",
        )?;
        let status_2: u8 = read_field::<PollReply, _>(
            &mut cursor,
            "Could not deserialize field PollReply::status_2",
        )?;
        let filler: [u8; 26] = read_field::<PollReply, _>(
            &mut cursor,
            "Could not deserialize field PollReply::filler",
        )?;
        Ok(PollReply {
            address,
            port,
            version,
            port_address,
            oem,
            ubea_version,
            status_1,
            esta_code,
            short_name,
            long_name,
            node_report,
            num_ports,
            port_types,
            good_input,
            good_output,
            swin,
            swout,
            sw_video,
            sw_macro,
            sw_remote,
            spare,
            style,
            mac,
            bind_ip,
            bind_index,
            status_2,
            filler,
        })
    }
}

impl Default for PollReply {
    /// Unused fields are zero; the port is 6454.
    fn default() -> (r: PollReply)
        ensures
            forall|i: int| 0 <= i < 4 ==> r.address@[i] == 0,
            r.port == 6454,
            forall|i: int| 0 <= i < 2 ==> r.version@[i] == 0,
            forall|i: int| 0 <= i < 2 ==> r.port_address@[i] == 0,
            forall|i: int| 0 <= i < 2 ==> r.oem@[i] == 0,
            r.ubea_version == 0,
            r.status_1 == 0,
            r.esta_code == 0,
            forall|i: int| 0 <= i < 18 ==> r.short_name@[i] == 0,
            forall|i: int| 0 <= i < 64 ==> r.long_name@[i] == 0,
            forall|i: int| 0 <= i < 64 ==> r.node_report@[i] == 0,
            forall|i: int| 0 <= i < 2 ==> r.num_ports@[i] == 0,
            forall|i: int| 0 <= i < 4 ==> r.port_types@[i] == 0,
            forall|i: int| 0 <= i < 4 ==> r.good_input@[i] == 0,
            forall|i: int| 0 <= i < 4 ==> r.good_output@[i] == 0,
            forall|i: int| 0 <= i < 4 ==> r.swin@[i] == 0,
            forall|i: int| 0 <= i < 4 ==> r.swout@[i] == 0,
            r.sw_video == 0,
            r.sw_macro == 0,
            r.sw_remote == 0,
            forall|i: int| 0 <= i < 3 ==> r.spare@[i] == 0,
            r.style == 0,
            forall|i: int| 0 <= i < 6 ==> r.mac@[i] == 0,
            forall|i: int| 0 <= i < 4 ==> r.bind_ip@[i] == 0,
            r.bind_index == 0,
            r.status_2 == 0,
            forall|i: int| 0 <= i < 26 ==> r.filler@[i] == 0,
    {
        PollReply {
            address: [0u8; 4],
            port: 6454,
            version: [0u8; 2],
            port_address: [0u8; 2],
            oem: [0u8; 2],
            ubea_version: 0,
            status_1: 0,
            esta_code: 0,
            short_name: [0u8; 18],
            long_name: [0u8; 64],
            node_report: [0u8; 64],
            num_ports: [0u8; 2],
            port_types: [0u8; 4],
            good_input: [0u8; 4],
            good_output: [0u8; 4],
            swin: [0u8; 4],
            swout: [0u8; 4],
            sw_video: 0,
            sw_macro: 0,
            sw_remote: 0,
            spare: [0u8; 3],
            style: 0,
            mac: [0u8; 6],
            bind_ip: [0u8; 4],
            bind_index: 0,
            status_2: 0,
            filler: [0u8; 26],
        }
    }
}

} // verus!
