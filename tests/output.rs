use artnet_protocol::{ArtCommand, Output, PaddedData, PortAddress};
use std::convert::TryInto;

fn get_data(command: &ArtCommand) -> &PaddedData {
    if let ArtCommand::Output(output) = command {
        &output.data
    } else {
        unreachable!()
    }
}

#[test]
fn output_test_invalid_length() {
    let command = ArtCommand::Output(Output {
        data: vec![0xff; 512].into(),
        ..Output::default()
    });
    let buffer = command.write_to_buffer().unwrap();
    // the length is written big-endian
    assert_eq!(&buffer[0x10..=0x11], &[2, 0]);

    // data is padded to an even length
    let command = ArtCommand::Output(Output {
        data: vec![0xff].into(),
        ..Output::default()
    });
    assert_eq!(get_data(&command).len(), 1);
    assert_eq!(get_data(&command).len_rounded_up(), 2);
    let buffer = command.write_to_buffer().unwrap();
    assert_eq!(&buffer[0x10..=0x11], &[0, 2]);

    // no data is rejected
    let command = ArtCommand::Output(Output {
        data: vec![].into(),
        ..Output::default()
    });
    assert!(command.write_to_buffer().is_err());

    // more than 512 values are rejected
    let command = ArtCommand::Output(Output {
        data: vec![0xff; 513].into(),
        ..Output::default()
    });
    assert!(command.write_to_buffer().is_err());
}

#[test]
fn create_single_dmx_value_art_dmx_packet() {
    let command = ArtCommand::Output(Output {
        data: vec![255].into(),
        ..Output::default()
    });
    let bytes = command.write_to_buffer().unwrap();
    let comparison = vec![
        65, 114, 116, 45, 78, 101, 116, 0, 0, 80, 0, 14, 0, 0, 1, 0, 0, 2, 255, 0,
    ];
    assert_eq!(bytes, comparison)
}

#[test]
fn create_512_dmx_values_art_dmx_packet() {
    let command = ArtCommand::Output(Output {
        data: vec![128; 512].into(),
        ..Output::default()
    });
    let bytes = command.write_to_buffer().unwrap();
    let comparison = [
        vec![
            65, 114, 116, 45, 78, 101, 116, 0, 0, 80, 0, 14, 0, 0, 1, 0, 2, 0,
        ],
        vec![128; 512],
    ]
    .concat();
    assert_eq!(bytes, comparison)
}

#[test]
fn tests_test_invalid_length() {
    let command = ArtCommand::Output(Output {
        data: vec![0xff; 512].into(),
        ..Output::default()
    });
    let buffer = command.write_to_buffer().unwrap();
    assert_eq!(&buffer[0x10..=0x11], &[2, 0]);
    let command = ArtCommand::Output(Output {
        data: vec![0xff].into(),
        ..Output::default()
    });
    assert_eq!(get_data(&command).len(), 1);
    assert_eq!(get_data(&command).len_rounded_up(), 2);
    let buffer = command.write_to_buffer().unwrap();
    assert_eq!(&buffer[0x10..=0x11], &[0, 2]);
    let command = ArtCommand::Output(Output {
        data: vec![].into(),
        ..Output::default()
    });
    assert!(command.write_to_buffer().is_err());
    let command = ArtCommand::Output(Output {
        data: vec![0xff; 513].into(),
        ..Output::default()
    });
    assert!(command.write_to_buffer().is_err());
}

#[test]
fn protver_below_14() {
    // versions below the current one still read: the version is informational
    let packet = &[
        65, 114, 116, 45, 78, 101, 116, 0, 0, 80, 0, 0, 0, 0, 1, 0, 0, 2, 255, 255,
    ];
    let command = ArtCommand::from_buffer(packet).unwrap();
    if let ArtCommand::Output(output) = command {
        assert_eq!(output.version, [0, 0]);
        assert_eq!(output.sequence, 0);
        assert_eq!(output.physical, 0);
        assert_eq!(output.port_address, 1.into());
        assert_eq!(output.length.parsed(), Some(2));
        assert_eq!(output.data.as_slice().to_vec(), vec![255, 255]);
    } else {
        panic!("not an Output");
    }
}

#[test]
fn invalid_port_address() {
    // a port address of 32768 does not fit in 15 bits
    assert!(ArtCommand::from_buffer(
        &[
            vec![65, 114, 116, 45, 78, 101, 116, 0, 0, 80, 0, 14, 0, 0,],
            32_768u16.to_le_bytes().to_vec(),
            vec![0, 2, 255, 255,]
        ]
        .concat()
    )
    .is_err());
}

#[test]
fn port_address_bound_check() {
    assert!(
        PortAddress::try_from(32_768u16).is_err(),
        "u16 values over 32_767 should not convert to PortAddress succesfully"
    );
    assert!(
        PortAddress::try_from(32_768).is_err(),
        "i32 values over 32_767 should not convert to PortAddress succesfully"
    );
    assert!(
        PortAddress::try_from(-1).is_err(),
        "negative i32 values should not convert to PortAddress succesfully"
    );
    assert!(
        PortAddress::try_from(-1_000).is_err(),
        "negative i32 values should not convert to PortAddress succesfully"
    );

    // these convert
    let _c: PortAddress = 0.into();
    let _d: PortAddress = 255.into();
    let _e: PortAddress = 32_767.try_into().unwrap();
    let _f: PortAddress = 256.try_into().unwrap();
    let _f: PortAddress = 32_767u16.try_into().unwrap();
}
