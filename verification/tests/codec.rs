//! Tests for the pure codec: packet encoding, CRC trailers, the
//! acknowledgement taxonomy, and the concrete command encoders/decoders.

use vexv5_serial::checks::VexExtPacketChecks;
use vexv5_serial::commands::{
    Command, Extended, FileTransferExit, FileTransferInit, FileTransferRead, FileTransferSetLink,
    FileTransferWrite, GetSystemVersion, KVRead, KVWrite, SwitchChannel,
};
use vexv5_serial::errors::{DecodeError, DeviceError, VexACKType};
use vexv5_serial::meta::{
    FileTransferComplete, FileTransferFunction, FileTransferOptions, FileTransferTarget,
    FileTransferType, FileTransferVID, V5ControllerChannel, VexProductType,
};

fn crc16(data: &[u8]) -> u16 {
    crc::Crc::<u16>::new(&crc::CRC_16_XMODEM).checksum(data)
}

/// Builds the expected host-to-device extended packet by hand.
fn expected_ext_packet(ext_cmd: u8, payload: &[u8]) -> Vec<u8> {
    let mut p = vec![0xC9, 0x36, 0xB8, 0x47, 0x56, ext_cmd];
    let len = payload.len() as u16;
    if len > 0x80 {
        p.push(((len >> 8) | 0x80) as u8);
    }
    p.push((len & 0xFF) as u8);
    p.extend_from_slice(payload);
    let c = crc16(&p);
    p.push((c >> 8) as u8);
    p.push((c & 0xFF) as u8);
    p
}

/// Parses a host-to-device extended packet back apart, checking its frame.
fn parse_ext_packet(p: &[u8]) -> (u8, Vec<u8>) {
    assert_eq!(&p[0..4], &[0xC9, 0x36, 0xB8, 0x47]);
    assert_eq!(p[4], 0x56);
    let ext = p[5];
    let (len, off) = if p[6] & 0x80 == 0x80 {
        ((((p[6] & 0x7F) as usize) << 8) | p[7] as usize, 8)
    } else {
        (p[6] as usize, 7)
    };
    assert_eq!(p.len(), off + len + 2);
    (ext, p[off..off + len].to_vec())
}

#[test]
fn extended_round_trip_over_lengths() {
    // Lengths 0x7F and below take one length byte; 0x81 and above take
    // two.  Length 0x80 is the one value the encoding cannot represent
    // faithfully, so it is exercised separately below.
    for len in [0usize, 1, 0x7F, 0x81, 0x7FFF] {
        let payload: Vec<u8> = (0..len).map(|i| (i % 251) as u8).collect();
        let (cmd, packet) = Extended(0x21, payload.as_slice()).encode_request().unwrap();
        assert_eq!(cmd, 0x56);
        let (ext, decoded) = parse_ext_packet(&packet);
        assert_eq!(ext, 0x21);
        assert_eq!(decoded, payload);
        let expect_two = len > 0x80;
        assert_eq!(packet[6] & 0x80 == 0x80, expect_two, "length {len}");
    }
}

#[test]
fn extended_length_byte_is_minimal() {
    // One length byte up to 0x80 bytes of payload, two bytes above.
    for len in [0usize, 0x7F, 0x80] {
        let payload = vec![0u8; len];
        let (_, packet) = Extended(0x01, payload.as_slice()).encode_request().unwrap();
        assert_eq!(packet.len(), 4 + 2 + 1 + len + 2, "length {len}");
    }
    for len in [0x81usize, 0x7FFF] {
        let payload = vec![0u8; len];
        let (_, packet) = Extended(0x01, payload.as_slice()).encode_request().unwrap();
        assert_eq!(packet.len(), 4 + 2 + 2 + len + 2, "length {len}");
    }
}

#[test]
fn extended_rejects_oversize_payload() {
    let payload = vec![0u8; 0x8000];
    assert_eq!(
        Extended(0x01, payload.as_slice()).encode_request(),
        Err(DecodeError::PacketLengthError)
    );
}

#[test]
fn crc_of_whole_packet_is_zero() {
    let (_, packet) = Extended(0x2E, b"teamnumber\0").encode_request().unwrap();
    assert_eq!(crc16(&packet), 0);
}

#[test]
fn crc_detects_every_single_bit_flip() {
    let (_, packet) = Extended(0x11, b"abcdef").encode_request().unwrap();
    assert_eq!(crc16(&packet), 0);
    for byte in 0..packet.len() {
        for bit in 0..8 {
            let mut flipped = packet.clone();
            flipped[byte] ^= 1 << bit;
            assert_ne!(crc16(&flipped), 0, "flip of bit {bit} in byte {byte}");
        }
    }
}

#[test]
fn crc16_matches_catalogue_check_value() {
    // The documented check value of CRC-16/XMODEM over "123456789".
    assert_eq!(vexv5_serial::checksum::crc16_xmodem(b"123456789"), 0x31C3);
}

#[test]
fn crc32_matches_check_value() {
    // The check value of the V5's CRC-32 parameters over "123456789".
    assert_eq!(vexv5_serial::checksum::vex_crc32(b"123456789"), 0x89A1897F);
}

#[test]
fn kv_read_teamnumber_wire_bytes() {
    // The documented scenario: reading the team number produces extended
    // command 0x2E with the NUL-terminated key, a single length byte 0x0B,
    // and a CRC that rechecks the whole packet to zero.
    let (cmd, packet) = KVRead("teamnumber").encode_request().unwrap();
    assert_eq!(cmd, 0x56);
    assert_eq!(&packet[0..4], &[0xC9, 0x36, 0xB8, 0x47]);
    assert_eq!(packet[4], 0x56);
    assert_eq!(packet[5], 0x2E);
    assert_eq!(packet[6], 0x0B);
    assert_eq!(&packet[7..18], b"teamnumber\0");
    assert_eq!(packet.len(), 20);
    assert_eq!(crc16(&packet), 0);
    assert_eq!(packet, expected_ext_packet(0x2E, b"teamnumber\0"));
}

#[test]
fn kv_write_truncates_to_per_key_caps() {
    // The team number caps at 7 value bytes.
    let (_, packet) = KVWrite("teamnumber", "123456789").encode_request().unwrap();
    let (ext, payload) = parse_ext_packet(&packet);
    assert_eq!(ext, 0x2F);
    assert_eq!(payload, b"teamnumber\01234567\0".to_vec());

    // The robot name caps at 16.
    let (_, packet) = KVWrite("robotname", "abcdefghijklmnopqrst").encode_request().unwrap();
    let (_, payload) = parse_ext_packet(&packet);
    assert_eq!(payload, b"robotname\0abcdefghijklmnop\0".to_vec());

    // Any other key caps at 254.
    let long = "x".repeat(300);
    let (_, packet) = KVWrite("somekey", long.as_str()).encode_request().unwrap();
    let (_, payload) = parse_ext_packet(&packet);
    let expected: Vec<u8> = b"somekey\0"
        .iter()
        .copied()
        .chain(std::iter::repeat(b'x').take(254))
        .chain(std::iter::once(0))
        .collect();
    assert_eq!(payload, expected);

    // A short value is sent whole.
    let (_, packet) = KVWrite("teamnumber", "42A").encode_request().unwrap();
    let (_, payload) = parse_ext_packet(&packet);
    assert_eq!(payload, b"teamnumber\042A\0".to_vec());
}

#[test]
fn ack_taxonomy_is_total_and_strict() {
    // Every documented byte maps to its variant; every other byte in
    // 0..=255 is an InvalidAck error, never a default.
    let documented: &[(u8, VexACKType)] = &[
        (0x76, VexACKType::ACK),
        (0xCE, VexACKType::NACKCrcError),
        (0xD0, VexACKType::NACKPayloadShort),
        (0xD1, VexACKType::NACKTransferSizeTooLarge),
        (0xD2, VexACKType::NACKProgramCrcFailed),
        (0xD3, VexACKType::NACKProgramFileError),
        (0xD4, VexACKType::NACKUninitializedTransfer),
        (0xD5, VexACKType::NACKInitializationInvalid),
        (0xD6, VexACKType::NACKLengthNotPaddedTo4),
        (0xD7, VexACKType::NACKAddressNoMatch),
        (0xD8, VexACKType::NACKDownloadLengthNoMatch),
        (0xD9, VexACKType::NACKDirectoryNoExist),
        (0xDA, VexACKType::NACKNoFileRoom),
        (0xDB, VexACKType::NACKFileAlreadyExists),
    ];
    for b in 0..=255u8 {
        match documented.iter().find(|(byte, _)| *byte == b) {
            Some((_, ack)) => assert_eq!(VexACKType::from_u8(b), Ok(*ack)),
            None => assert_eq!(VexACKType::from_u8(b), Err(DecodeError::InvalidAck)),
        }
    }
}

#[test]
fn decode_extended_reports_each_failure() {
    let all = VexExtPacketChecks::all();
    // Not an extended simple command.
    assert_eq!(
        Extended::decode_extended(0xA4, vec![0x01, 0x76, 0, 0], all),
        Err(DecodeError::ExpectedExtended)
    );
    // No command byte at all.
    assert_eq!(
        Extended::decode_extended(0x56, vec![], all),
        Err(DecodeError::PacketLengthError)
    );
    // No acknowledgement byte.
    assert_eq!(
        Extended::decode_extended(0x56, vec![0x01], all),
        Err(DecodeError::PacketLengthError)
    );
    // An undocumented acknowledgement byte.
    assert_eq!(
        Extended::decode_extended(0x56, vec![0x01, 0x42, 0, 0], all),
        Err(DecodeError::InvalidAck)
    );
    // A NACK carries its specific variant.
    assert_eq!(
        Extended::decode_extended(0x56, vec![0x01, 0xCE, 0, 0], all),
        Err(DecodeError::NACK(VexACKType::NACKCrcError))
    );
    // Too short to strip the CRC trailer.
    assert_eq!(
        Extended::decode_extended(0x56, vec![0x01, 0x76, 0], all),
        Err(DecodeError::PacketLengthError)
    );
    // A well-formed payload decodes to the command id and the data
    // between the acknowledgement byte and the CRC trailer.
    let resp = Extended::decode_extended(
        0x56,
        vec![0x01, 0x76, 0x68, 0x69, 0x00, 0xAB, 0xCD],
        all,
    )
    .unwrap();
    assert_eq!(resp.0, 0x01);
    assert_eq!(resp.1, vec![0x68, 0x69, 0x00]);
}

#[test]
fn decode_extended_without_ack_check_skips_the_ack() {
    // With the ACK check off, a NACK byte in the ack position is not
    // interpreted; the data still comes back.
    let checks = VexExtPacketChecks { ack: false, crc: true, length: true };
    let resp = Extended::decode_extended(0x56, vec![0x14, 0xCE, 9, 9, 0, 0], checks).unwrap();
    assert_eq!(resp.0, 0x14);
    assert_eq!(resp.1, vec![9, 9]);
}

#[test]
fn switch_channel_wire_bytes() {
    let (cmd, packet) = SwitchChannel(V5ControllerChannel::Download).encode_request().unwrap();
    assert_eq!(cmd, 0x56);
    assert_eq!(packet, expected_ext_packet(0x10, &[0x01]));
    let (_, packet) = SwitchChannel(V5ControllerChannel::Pit).encode_request().unwrap();
    assert_eq!(packet, expected_ext_packet(0x10, &[0x00]));
    // An empty response to the right command id decodes to nothing.
    assert_eq!(
        SwitchChannel::decode_response(0x56, vec![0x10, 0x76, 0, 0]),
        Ok(())
    );
    // A response to a different command is a desynchronization error.
    assert_eq!(
        SwitchChannel::decode_response(0x56, vec![0x11, 0x76, 0, 0]),
        Err(DecodeError::ExpectedCommand(0x10, 0x11))
    );
}

#[test]
fn system_version_encodes_and_decodes() {
    let (cmd, payload) = GetSystemVersion().encode_request().unwrap();
    assert_eq!(cmd, 0xA4);
    assert!(payload.is_empty());

    let v = GetSystemVersion::decode_response(0xA4, vec![1, 2, 3, 4, 5, 0x10, 0x00]).unwrap();
    assert_eq!(v.system_version, (1, 2, 3, 4, 5));
    assert!(matches!(v.product_type, VexProductType::V5Brain(_)));

    let v = GetSystemVersion::decode_response(0xA4, vec![9, 8, 7, 6, 5, 0x11, 0x03]).unwrap();
    match v.product_type {
        VexProductType::V5Controller(f) => {
            assert!(f.connected_cable);
            assert!(f.connected_wireless);
        }
        _ => panic!("expected a controller"),
    }

    // Unknown flag bits read as no flags rather than failing.
    let v = GetSystemVersion::decode_response(0xA4, vec![9, 8, 7, 6, 5, 0x11, 0xF0]).unwrap();
    match v.product_type {
        VexProductType::V5Controller(f) => {
            assert!(!f.connected_cable);
            assert!(!f.connected_wireless);
        }
        _ => panic!("expected a controller"),
    }

    // An unknown product byte is an error.
    assert_eq!(
        GetSystemVersion::decode_response(0xA4, vec![1, 2, 3, 4, 5, 0x42, 0]),
        Err(DecodeError::DeviceError(DeviceError::InvalidDevice))
    );
    // A short payload is an error, not a panic.
    assert_eq!(
        GetSystemVersion::decode_response(0xA4, vec![1, 2, 3]),
        Err(DecodeError::PacketLengthError)
    );
    // A response to a different command is rejected.
    assert_eq!(
        GetSystemVersion::decode_response(0x56, vec![1, 2, 3, 4, 5, 0x10, 0]),
        Err(DecodeError::ExpectedExtended)
    );
}

#[test]
fn file_read_request_pads_count_to_four() {
    // A count of 10 goes out as 12.
    let (_, packet) = FileTransferRead(0x11223344, 10).encode_request().unwrap();
    let (ext, payload) = parse_ext_packet(&packet);
    assert_eq!(ext, 0x14);
    assert_eq!(payload, vec![0x44, 0x33, 0x22, 0x11, 12, 0]);

    // A count already aligned is unchanged.
    let (_, packet) = FileTransferRead(0, 8).encode_request().unwrap();
    let (_, payload) = parse_ext_packet(&packet);
    assert_eq!(payload, vec![0, 0, 0, 0, 8, 0]);

    // Every encoded count is a multiple of four.
    for n in 0..64u16 {
        let (_, packet) = FileTransferRead(0, n).encode_request().unwrap();
        let (_, payload) = parse_ext_packet(&packet);
        let wire_count = u16::from_le_bytes([payload[4], payload[5]]);
        assert_eq!(wire_count % 4, 0, "count {n}");
        assert!(wire_count >= n);
        assert!(wire_count < n + 4);
    }

    // A count whose padding cannot fit sixteen bits is rejected.
    assert_eq!(
        FileTransferRead(0, 0xFFFD).encode_request(),
        Err(DecodeError::PacketLengthError)
    );
}

#[test]
fn file_write_request_pads_data_to_four() {
    let (_, packet) = FileTransferWrite(0x01020304, &[1, 2, 3, 4, 5]).encode_request().unwrap();
    let (ext, payload) = parse_ext_packet(&packet);
    assert_eq!(ext, 0x13);
    assert_eq!(payload, vec![0x04, 0x03, 0x02, 0x01, 1, 2, 3, 4, 5, 0, 0, 0]);

    // Every transmitted write payload length is a multiple of four.
    for n in 0..16usize {
        let data = vec![0xEE; n];
        let (_, packet) = FileTransferWrite(0, data.as_slice()).encode_request().unwrap();
        let (_, payload) = parse_ext_packet(&packet);
        assert_eq!(payload.len() % 4, 0, "data length {n}");
    }
}

#[test]
fn file_init_encodes_its_fixed_layout() {
    let init = FileTransferInit {
        function: FileTransferFunction::Upload,
        target: FileTransferTarget::Flash,
        vid: FileTransferVID::User,
        options: FileTransferOptions { overwrite: true },
        file_type: FileTransferType::Bin,
        length: 0x11223344,
        addr: 0x03800000,
        crc: 0xAABBCCDD,
        timestamp: 0x01020304,
        version: 0x01000000,
        name: *b"slot_1.bin\0\0\0\0\0\0\0\0\0\0\0\0\0\0",
    };
    let (cmd, packet) = init.encode_request().unwrap();
    assert_eq!(cmd, 0x56);
    let (ext, payload) = parse_ext_packet(&packet);
    assert_eq!(ext, 0x11);
    let mut expected = vec![0x01, 0x01, 0x01, 0x01];
    expected.extend_from_slice(&0x11223344u32.to_le_bytes());
    expected.extend_from_slice(&0x03800000u32.to_le_bytes());
    expected.extend_from_slice(&0xAABBCCDDu32.to_le_bytes());
    expected.extend_from_slice(b"bin\0");
    expected.extend_from_slice(&0x01020304u32.to_le_bytes());
    expected.extend_from_slice(&0x01000000u32.to_le_bytes());
    expected.extend_from_slice(b"slot_1.bin\0\0\0\0\0\0\0\0\0\0\0\0\0\0");
    assert_eq!(payload, expected);
}

#[test]
fn file_init_response_decodes_metadata() {
    let mut data = vec![0x11, 0x76];
    data.extend_from_slice(&0x0200u16.to_le_bytes());
    data.extend_from_slice(&0x00012345u32.to_le_bytes());
    data.extend_from_slice(&0xCAFEBABEu32.to_le_bytes());
    data.extend_from_slice(&[0, 0]);
    let resp = FileTransferInit::decode_response(0x56, data).unwrap();
    assert_eq!(resp.max_packet_size, 0x0200);
    assert_eq!(resp.file_size, 0x00012345);
    assert_eq!(resp.crc, 0xCAFEBABE);

    // A payload too short for the metadata is an error.
    assert_eq!(
        FileTransferInit::decode_response(0x56, vec![0x11, 0x76, 1, 2, 3, 4]),
        Err(DecodeError::PacketLengthError)
    );
}

#[test]
fn file_exit_and_set_link_encode() {
    let (_, packet) = FileTransferExit(FileTransferComplete::RunProgram).encode_request().unwrap();
    let (ext, payload) = parse_ext_packet(&packet);
    assert_eq!(ext, 0x12);
    assert_eq!(payload, vec![1]);

    let link = FileTransferSetLink(
        *b"liblink.bin\0\0\0\0\0\0\0\0\0\0\0\0\0",
        FileTransferVID::PROS,
        FileTransferOptions { overwrite: false },
    );
    let (_, packet) = link.encode_request().unwrap();
    let (ext, payload) = parse_ext_packet(&packet);
    assert_eq!(ext, 0x15);
    assert_eq!(payload[0], 24);
    assert_eq!(payload[1], 0);
    assert_eq!(&payload[2..], b"liblink.bin\0\0\0\0\0\0\0\0\0\0\0\0\0");
}

#[test]
fn meta_conversions_match_wire_bytes() {
    assert_eq!(FileTransferVID::from_u8(1), FileTransferVID::User);
    assert_eq!(FileTransferVID::from_u8(15), FileTransferVID::System);
    assert_eq!(FileTransferVID::from_u8(16), FileTransferVID::RMS);
    assert_eq!(FileTransferVID::from_u8(24), FileTransferVID::PROS);
    assert_eq!(FileTransferVID::from_u8(32), FileTransferVID::MW);
    assert_eq!(FileTransferVID::from_u8(99), FileTransferVID::Other(99));
    for b in 0..=255u8 {
        assert_eq!(FileTransferVID::from_u8(b).to_u8(), b);
    }

    assert_eq!(FileTransferType::Bin.to_bytes(), *b"bin\0");
    assert_eq!(FileTransferType::Ini.to_bytes(), *b"ini\0");
    assert_eq!(FileTransferType::Other(*b"txt").to_bytes(), *b"txt\0");
    assert_eq!(FileTransferType::from_bytes(b"bin\0"), FileTransferType::Bin);
    assert_eq!(FileTransferType::from_bytes(b"ini\0"), FileTransferType::Ini);
    assert_eq!(
        FileTransferType::from_bytes(b"txt\0"),
        FileTransferType::Other(*b"txt")
    );

    assert_eq!(FileTransferFunction::Upload.to_u8(), 1);
    assert_eq!(FileTransferFunction::Download.to_u8(), 2);
    assert_eq!(FileTransferTarget::Flash.to_u8(), 1);
    assert_eq!(FileTransferTarget::Screen.to_u8(), 2);
    assert_eq!(FileTransferComplete::DoNothing.to_u8(), 0);
    assert_eq!(FileTransferComplete::RunProgram.to_u8(), 1);
    assert_eq!(FileTransferComplete::ShowRunScreen.to_u8(), 2);
}

#[test]
fn kv_read_decode_strips_nul_and_checks_utf8() {
    // The value comes back with its trailing NUL stripped.
    assert_eq!(
        KVRead::decode_response(0x56, vec![0x2E, 0x76, b'8', b'0', b'8', b'0', b'A', 0, 0, 0]),
        Ok("8080A".to_string())
    );
    // A response without a trailing NUL is malformed.
    assert_eq!(
        KVRead::decode_response(0x56, vec![0x2E, 0x76, b'a', b'b', 0, 1]),
        Err(DecodeError::PacketLengthError)
    );
    // A response to another command is a desynchronization error.
    assert_eq!(
        KVRead::decode_response(0x56, vec![0x2F, 0x76, b'a', 0, 0, 0]),
        Err(DecodeError::ExpectedCommand(0x2E, 0x2F))
    );
    // Bytes that are not UTF-8 are rejected, not mangled.
    assert_eq!(
        KVRead::decode_response(0x56, vec![0x2E, 0x76, 0xFF, 0xFE, 0, 0, 0]),
        Err(DecodeError::Utf8Error)
    );
}

#[test]
fn file_write_rejects_oversize_data() {
    let data = vec![0u8; 0x7FF9];
    assert_eq!(
        FileTransferWrite(0, data.as_slice()).encode_request(),
        Err(DecodeError::PacketLengthError)
    );
}
