use artnet_protocol::{
    ArtCommand, ArtTalkToMe, Cursor, Error, FrameType, Output, PaddedData, Poll, PollReply,
    PortAddress, Sync, Timecode, Trigger, TriggerKey, ARTNET_HEADER,
};
use std::convert::TryFrom;

const HEADER: [u8; 8] = [65, 114, 116, 45, 78, 101, 116, 0];

fn packet(opcode: [u8; 2], body: &[u8]) -> Vec<u8> {
    [HEADER.to_vec(), opcode.to_vec(), body.to_vec()].concat()
}

#[test]
fn header_constant_is_art_net() {
    assert_eq!(&ARTNET_HEADER, b"Art-Net\0");
}

#[test]
fn output_scenario_bytes() {
    let command = ArtCommand::Output(Output {
        data: vec![0xFF].into(),
        ..Output::default()
    });
    let bytes = command.write_to_buffer().unwrap();
    let expected = packet([0x00, 0x50], &[0x00, 0x0E, 0x00, 0x00, 0x01, 0x00, 0x00, 0x02, 0xFF, 0x00]);
    assert_eq!(bytes, expected);
}

#[test]
fn output_round_trip_even_data() {
    let command = ArtCommand::Output(Output {
        version: [0, 14],
        sequence: 7,
        physical: 3,
        port_address: PortAddress::try_from(300u16).unwrap(),
        data: vec![1, 2, 3, 4].into(),
        ..Output::default()
    });
    let bytes = command.write_to_buffer().unwrap();
    match ArtCommand::from_buffer(&bytes).unwrap() {
        ArtCommand::Output(o) => {
            assert_eq!(o.version, [0, 14]);
            assert_eq!(o.sequence, 7);
            assert_eq!(o.physical, 3);
            assert_eq!(o.port_address.value(), 300);
            assert_eq!(o.length.parsed(), Some(4));
            assert_eq!(o.data.as_slice(), &[1, 2, 3, 4]);
            let again = ArtCommand::Output(o).write_to_buffer().unwrap();
            assert_eq!(again, bytes);
        }
        _ => panic!("not an Output"),
    }
}

#[test]
fn output_odd_data_reads_back_padded_and_rewrites_identically() {
    let command = ArtCommand::Output(Output {
        data: vec![9, 8, 7].into(),
        ..Output::default()
    });
    let bytes = command.write_to_buffer().unwrap();
    match ArtCommand::from_buffer(&bytes).unwrap() {
        ArtCommand::Output(o) => {
            assert_eq!(o.data.as_slice(), &[9, 8, 7, 0]);
            let again = ArtCommand::Output(o).write_to_buffer().unwrap();
            assert_eq!(again, bytes);
        }
        _ => panic!("not an Output"),
    }
}

#[test]
fn padding_lengths() {
    let one = PaddedData::from(vec![5]);
    assert_eq!(one.len(), 1);
    assert_eq!(one.len_rounded_up(), 2);
    let full = PaddedData::from(vec![5; 512]);
    assert_eq!(full.len_rounded_up(), 512);
    let bytes = ArtCommand::Output(Output { data: full, ..Output::default() })
        .write_to_buffer()
        .unwrap();
    assert_eq!(bytes.len(), 18 + 512);
    let bytes = ArtCommand::Output(Output { data: one, ..Output::default() })
        .write_to_buffer()
        .unwrap();
    assert_eq!(&bytes[18..], &[5, 0]);
}

#[test]
fn empty_and_oversized_data_errors() {
    for n in [0usize, 513] {
        let err = ArtCommand::Output(Output {
            data: vec![1; n].into(),
            ..Output::default()
        })
        .write_to_buffer()
        .unwrap_err();
        match err {
            Error::SerializeError(name, inner) => {
                assert_eq!(name, "Could not serialize field Output::data");
                match *inner {
                    Error::MessageSizeInvalid { message, allowed_size } => {
                        assert_eq!(message.len(), n);
                        assert_eq!(allowed_size, 2..512);
                    }
                    other => panic!("unexpected {:?}", other),
                }
            }
            other => panic!("unexpected {:?}", other),
        }
    }
}

#[test]
fn length_field_of_one_value() {
    let bytes = ArtCommand::Output(Output {
        data: vec![0xff].into(),
        ..Output::default()
    })
    .write_to_buffer()
    .unwrap();
    assert_eq!(&bytes[16..18], &[0x00, 0x02]);
}

#[test]
fn port_address_limits() {
    assert!(PortAddress::try_from(0).is_ok());
    assert_eq!(PortAddress::try_from(32_767).unwrap().value(), 32_767);
    match PortAddress::try_from(32_768u16) {
        Err(Error::InvalidPortAddress(v)) => assert_eq!(v, 32_768),
        other => panic!("unexpected {:?}", other),
    }
    match PortAddress::try_from(-5) {
        Err(Error::InvalidPortAddress(v)) => assert_eq!(v, -5),
        other => panic!("unexpected {:?}", other),
    }
    assert_eq!(u16::from(PortAddress::from(200u8)), 200);
}

#[test]
fn decode_rejects_port_address_32768() {
    let bytes = packet([0x00, 0x50], &[0, 14, 0, 0, 0x00, 0x80, 0, 2, 1, 2]);
    match ArtCommand::from_buffer(&bytes) {
        Err(Error::OpcodeError(name, inner)) => {
            assert_eq!(name, "Output");
            match *inner {
                Error::DeserializeError(_, cause) => {
                    assert!(matches!(*cause, Error::InvalidPortAddress(32_768)))
                }
                other => panic!("unexpected {:?}", other),
            }
        }
        other => panic!("unexpected {:?}", other),
    }
}

#[test]
fn too_short_buffer() {
    let bytes = vec![65, 114, 116, 45, 78, 101, 116, 0, 0, 32, 0, 14, 0];
    match ArtCommand::from_buffer(&bytes) {
        Err(Error::MessageTooShort { message, min_len }) => {
            assert_eq!(message, bytes);
            assert_eq!(min_len, 14);
        }
        other => panic!("unexpected {:?}", other),
    }
}

#[test]
fn wrong_header() {
    let mut bytes = packet([0x00, 0x20], &[0, 14, 0, 0x80]);
    bytes[3] = b'_';
    match ArtCommand::from_buffer(&bytes) {
        Err(Error::InvalidArtnetHeader(message)) => assert_eq!(message, bytes),
        other => panic!("unexpected {:?}", other),
    }
}

#[test]
fn unknown_opcode() {
    let bytes = packet([0x34, 0x12], &[0, 14, 0, 0]);
    assert!(matches!(
        ArtCommand::from_buffer(&bytes),
        Err(Error::UnknownOpcode(0x1234))
    ));
}

#[test]
fn body_too_short_is_wrapped_with_opcode_name() {
    // a Timecode body needs 9 bytes
    let bytes = packet([0x00, 0x97], &[0, 14, 0, 0]);
    match ArtCommand::from_buffer(&bytes) {
        Err(Error::OpcodeError(name, inner)) => {
            assert_eq!(name, "Timecode");
            match *inner {
                Error::DeserializeError(field, cause) => {
                    assert_eq!(field, "Could not deserialize field Timecode::frames");
                    assert!(matches!(*cause, Error::CursorEof));
                }
                other => panic!("unexpected {:?}", other),
            }
        }
        other => panic!("unexpected {:?}", other),
    }
}

#[test]
fn old_poll_version_reads() {
    let bytes = packet([0x00, 0x20], &[0, 1, 0xFF, 0x10]);
    match ArtCommand::from_buffer(&bytes).unwrap() {
        ArtCommand::Poll(p) => {
            assert_eq!(p.version, [0, 1]);
            // unknown TalkToMe bits are dropped
            assert_eq!(p.talk_to_me.bits(), 0b0001_1110);
            assert_eq!(p.diagnostics_priority, 0x10);
        }
        _ => panic!("not a Poll"),
    }
}

#[test]
fn poll_round_trip() {
    let poll = Poll {
        talk_to_me: ArtTalkToMe::from_bits_truncate(
            ArtTalkToMe::EMIT_CHANGES | ArtTalkToMe::ENABLE_DIAGNOSTICS,
        ),
        ..Poll::default()
    };
    let bytes = ArtCommand::Poll(poll).write_to_buffer().unwrap();
    assert_eq!(bytes, packet([0x00, 0x20], &[0, 14, 0b0000_0110, 0x80]));
    match ArtCommand::from_buffer(&bytes).unwrap() {
        ArtCommand::Poll(p) => {
            assert!(p.talk_to_me.contains(ArtTalkToMe::EMIT_CHANGES));
            assert!(!p.talk_to_me.contains(ArtTalkToMe::ENABLE_VLC));
            assert_eq!(p.diagnostics_priority, 0x80);
        }
        _ => panic!("not a Poll"),
    }
}

#[test]
fn poll_reply_round_trip() {
    let mut reply = PollReply::default();
    reply.address = [192, 168, 1, 20];
    reply.esta_code = 0x1234;
    reply.short_name[..4].copy_from_slice(b"node");
    reply.mac = [1, 2, 3, 4, 5, 6];
    reply.status_2 = 9;
    let bytes = ArtCommand::PollReply(Box::new(reply)).write_to_buffer().unwrap();
    assert_eq!(bytes.len(), 10 + 229);
    assert_eq!(&bytes[8..10], &[0x00, 0x21]);
    assert_eq!(&bytes[14..16], &[0x36, 0x19]);
    match ArtCommand::from_buffer(&bytes).unwrap() {
        ArtCommand::PollReply(r) => {
            assert_eq!(r.address, [192, 168, 1, 20]);
            assert_eq!(r.port, 6454);
            assert_eq!(r.esta_code, 0x1234);
            assert_eq!(&r.short_name[..4], b"node");
            assert_eq!(r.mac, [1, 2, 3, 4, 5, 6]);
            assert_eq!(r.status_2, 9);
        }
        _ => panic!("not a PollReply"),
    }
}

#[test]
fn sync_round_trip() {
    let bytes = ArtCommand::Sync(Sync::default()).write_to_buffer().unwrap();
    assert_eq!(bytes, packet([0x00, 0x52], &[0, 14, 0, 0]));
    match ArtCommand::from_buffer(&bytes).unwrap() {
        ArtCommand::Sync(s) => assert_eq!((s.version, s.aux1, s.aux2), ([0, 14], 0, 0)),
        _ => panic!("not a Sync"),
    }
}

#[test]
fn timecode_round_trip() {
    let tc = Timecode {
        version: [0, 14],
        filler1: 0,
        stream_id: 2,
        frames: 24,
        seconds: 59,
        minutes: 30,
        hours: 23,
        frame_type: FrameType::SMPTE,
    };
    let bytes = ArtCommand::OpTimeCode(tc).write_to_buffer().unwrap();
    assert_eq!(bytes, packet([0x00, 0x97], &[0, 14, 0, 2, 24, 59, 30, 23, 3]));
    match ArtCommand::from_buffer(&bytes).unwrap() {
        ArtCommand::OpTimeCode(t) => {
            assert_eq!((t.stream_id, t.frames, t.seconds), (2, 24, 59));
            assert_eq!((t.minutes, t.hours), (30, 23));
            assert_eq!(t.frame_type, FrameType::SMPTE);
        }
        _ => panic!("not a Timecode"),
    }
}

#[test]
fn timecode_bad_frame_type() {
    let bytes = packet([0x00, 0x97], &[0, 14, 0, 0, 1, 2, 3, 4, 4]);
    match ArtCommand::from_buffer(&bytes) {
        Err(Error::OpcodeError(_, inner)) => match *inner {
            Error::DeserializeError(_, cause) => {
                assert!(matches!(*cause, Error::InvalidTimecodeFrameType(4)))
            }
            other => panic!("unexpected {:?}", other),
        },
        other => panic!("unexpected {:?}", other),
    }
}

#[test]
fn frame_type_codes() {
    assert_eq!(FrameType::try_from(0).unwrap(), FrameType::Film);
    assert_eq!(FrameType::try_from(1).unwrap(), FrameType::EBU);
    assert_eq!(FrameType::try_from(2).unwrap(), FrameType::DF);
    assert_eq!(FrameType::try_from(3).unwrap(), FrameType::SMPTE);
    assert!(FrameType::try_from(4).is_err());
    assert_eq!(FrameType::DF.to_byte(), 2);
}

#[test]
fn trigger_round_trip() {
    let mut trigger = Trigger::default();
    trigger.key = TriggerKey::Undefined(0x42);
    trigger.sub_key = 5;
    trigger.data[511] = 0xAB;
    let bytes = ArtCommand::OpTrigger(trigger).write_to_buffer().unwrap();
    assert_eq!(bytes.len(), 10 + 520);
    assert_eq!(&bytes[10..18], &[0, 14, 0, 0, 0xFF, 0xFF, 0x42, 5]);
    match ArtCommand::from_buffer(&bytes).unwrap() {
        ArtCommand::OpTrigger(t) => {
            assert_eq!(t.key, TriggerKey::Undefined(0x42));
            assert_eq!(t.sub_key, 5);
            assert_eq!(t.data[511], 0xAB);
            assert_eq!((t.oem_hi, t.oem_lo), (0xFF, 0xFF));
        }
        _ => panic!("not a Trigger"),
    }
}

#[test]
fn trigger_key_codes() {
    assert_eq!(TriggerKey::try_from(0).unwrap(), TriggerKey::Ascii);
    assert_eq!(TriggerKey::try_from(3).unwrap(), TriggerKey::Show);
    assert_eq!(TriggerKey::try_from(200).unwrap(), TriggerKey::Undefined(200));
    let b: u8 = TriggerKey::Soft.into();
    assert_eq!(b, 2);
    assert_eq!(u8::from(TriggerKey::Undefined(77)), 77);
}

#[test]
fn placeholder_opcode_reads_as_marker() {
    let bytes = packet([0x00, 0x23], &[1, 2, 3, 4]);
    assert!(matches!(
        ArtCommand::from_buffer(&bytes),
        Ok(ArtCommand::DiagData)
    ));
    let written = ArtCommand::DiagData.write_to_buffer().unwrap();
    assert_eq!(written, packet([0x00, 0x23], &[]));
}

#[test]
fn cursor_reads_in_both_byte_orders() {
    let data = [0x01, 0x02, 0x03, 0x04, 0x05];
    let mut cursor = Cursor::new(&data);
    assert_eq!(cursor.read_u16_le().unwrap(), 0x0201);
    assert_eq!(cursor.read_u16_be().unwrap(), 0x0304);
    assert_eq!(cursor.position(), 4);
    assert!(matches!(cursor.read_u16_le(), Err(Error::CursorEof)));
    assert_eq!(cursor.read_u8().unwrap(), 0x05);
}

#[test]
fn sync_body_too_short() {
    match Sync::from(&[0, 14, 0]) {
        Err(Error::DeserializeError(field, cause)) => {
            assert_eq!(field, "Could not deserialize field Sync::aux2");
            assert!(matches!(*cause, Error::CursorEof));
        }
        other => panic!("unexpected {:?}", other),
    }
}
