//! Tests for the device layer: request/response exchanges over an
//! in-memory stream, the serial read buffer, port selection, and the
//! chunked file-transfer session, including the write-then-read round
//! trip.

use vexv5_serial::commands::KVRead;
use vexv5_serial::device::file::{
    VexFileMetadataSet, VexFileMode, VexFileTarget, VexFiletransferFinished,
    VexFiletransferMetadata, VexInitialFileMetadata, VexVID,
};
use vexv5_serial::device::handle::V5FileHandle;
use vexv5_serial::device::{Device, VexProduct};
use vexv5_serial::errors::{DecodeError, DeviceError};
use vexv5_serial::io::MemoryStream;
use vexv5_serial::ports::{find_ports, VexSerialClass, VexSerialInfo};

fn crc16(data: &[u8]) -> u16 {
    crc::Crc::<u16>::new(&crc::CRC_16_XMODEM).checksum(data)
}

/// Builds a device-to-host extended response packet.
fn ext_response(ext_cmd: u8, ack: u8, data: &[u8]) -> Vec<u8> {
    let len = data.len() + 4;
    let mut p = vec![0xAA, 0x55, 0x56];
    if len > 0x7F {
        p.push(((len >> 8) | 0x80) as u8);
        p.push((len & 0xFF) as u8);
    } else {
        p.push(len as u8);
    }
    p.push(ext_cmd);
    p.push(ack);
    p.extend_from_slice(data);
    let c = crc16(&p);
    p.push((c >> 8) as u8);
    p.push((c & 0xFF) as u8);
    p
}

/// Builds the expected host-to-device extended packet.
fn host_ext_packet(ext_cmd: u8, payload: &[u8]) -> Vec<u8> {
    let mut p = vec![0xC9, 0x36, 0xB8, 0x47, 0x56, ext_cmd];
    let len = payload.len() as u16;
    if len > 0x80 {
        p.push(((len >> 8) | 0x80) as u8);
    }
    p.push((len & 0xFF) as u8);
    p.extend_from_slice(payload);
    let c = crc16(&p);
    p.push((c >> 8) as u8);
    p.push((c & 0xFF) as u8);
    p
}

/// Splits a captured stream of host-to-device extended packets into
/// (extended command id, payload) pairs.
fn parse_host_packets(bytes: &[u8]) -> Vec<(u8, Vec<u8>)> {
    let mut out = Vec::new();
    let mut i = 0usize;
    while i < bytes.len() {
        assert_eq!(&bytes[i..i + 4], &[0xC9, 0x36, 0xB8, 0x47]);
        assert_eq!(bytes[i + 4], 0x56);
        let ext = bytes[i + 5];
        let (len, off) = if bytes[i + 6] & 0x80 == 0x80 {
            (
                (((bytes[i + 6] & 0x7F) as usize) << 8) | bytes[i + 7] as usize,
                8,
            )
        } else {
            (bytes[i + 6] as usize, 7)
        };
        assert_eq!(crc16(&bytes[i..i + off + len + 2]), 0);
        out.push((ext, bytes[i + off..i + off + len].to_vec()));
        i += off + len + 2;
    }
    out
}

fn new_device(input: Vec<u8>) -> Device<MemoryStream, MemoryStream> {
    Device::new(MemoryStream::new(input), None)
}

#[test]
fn device_version_parses_simple_response() {
    let mut dev = new_device(vec![0xAA, 0x55, 0xA4, 0x07, 1, 2, 3, 4, 5, 0x10, 0x00]);
    let v = dev.get_device_version().unwrap();
    assert_eq!(v.system_version, (1, 2, 3, 4, 5));
    assert!(matches!(v.product_type, VexProduct::V5Brain(_)));
    let (stream, _) = dev.into_ports();
    assert_eq!(stream.output, vec![0xC9, 0x36, 0xB8, 0x47, 0xA4]);
}

#[test]
fn is_controller_distinguishes_products() {
    let mut dev = new_device(vec![0xAA, 0x55, 0xA4, 0x07, 1, 2, 3, 4, 5, 0x10, 0x00]);
    assert_eq!(dev.is_controller(), Ok(false));
    let mut dev = new_device(vec![0xAA, 0x55, 0xA4, 0x07, 1, 2, 3, 4, 5, 0x11, 0x01]);
    assert_eq!(dev.is_controller(), Ok(true));
}

#[test]
fn kv_exchange_through_device() {
    let mut dev = new_device(ext_response(0x2E, 0x76, b"8080A\0"));
    let value = dev.send_request(KVRead("teamnumber")).unwrap();
    assert_eq!(value, "8080A");
    let (stream, _) = dev.into_ports();
    assert_eq!(stream.output, host_ext_packet(0x2E, b"teamnumber\0"));
}

#[test]
fn kv_exchange_surfaces_nack() {
    let mut dev = new_device(ext_response(0x2E, 0xD0, b""));
    assert_eq!(
        dev.send_request(KVRead("teamnumber")),
        Err(DecodeError::NACK(vexv5_serial::VexACKType::NACKPayloadShort))
    );
}

#[test]
fn read_serial_buffers_and_drops_echo_byte() {
    // The response data region is one echo byte, then the serial bytes.
    let mut dev = new_device(ext_response(0x27, 0x76, &[0xAA, b'h', b'e', b'y']));
    let first = dev.read_serial(2).unwrap();
    assert_eq!(first, b"he".to_vec());
    // A request the buffer can serve makes no new exchange.
    let rest = dev.read_serial(1).unwrap();
    assert_eq!(rest, b"y".to_vec());
    let (stream, _) = dev.into_ports();
    // Exactly one passthrough request went out: download channel, 32-byte
    // default read size.
    assert_eq!(stream.output, host_ext_packet(0x27, &[0x01, 0x20]));
}

#[test]
fn write_and_flush_need_a_user_port() {
    let mut dev = new_device(Vec::new());
    assert_eq!(
        dev.write(b"abc"),
        Err(DecodeError::DeviceError(DeviceError::NoWriteOnWireless))
    );
    assert_eq!(
        dev.flush(),
        Err(DecodeError::DeviceError(DeviceError::NoWriteOnWireless))
    );

    let mut dev = Device::new(
        MemoryStream::new(Vec::new()),
        Some(MemoryStream::new(Vec::new())),
    );
    assert_eq!(dev.write(b"abc"), Ok(3));
    assert_eq!(dev.flush(), Ok(()));
    let (_, user) = dev.into_ports();
    assert_eq!(user.unwrap().output, b"abc".to_vec());
}

#[test]
fn find_ports_picks_system_then_controller() {
    let port = |name: &str, class: VexSerialClass| VexSerialInfo {
        port_name: name.to_string(),
        class,
    };

    assert_eq!(find_ports(vec![]), Err(DeviceError::NoPortsFound));

    // Only user ports: nothing can serve as the system port.
    assert_eq!(
        find_ports(vec![port("u", VexSerialClass::User)]),
        Err(DeviceError::NoSystemPort)
    );

    // A system port wins over a controller port, and the user port rides
    // along.
    let (sys, user) = find_ports(vec![
        port("c", VexSerialClass::Controller),
        port("s", VexSerialClass::System),
        port("u", VexSerialClass::User),
    ])
    .unwrap();
    assert_eq!(sys.port_name, "s");
    assert_eq!(user.unwrap().port_name, "u");

    // A lone controller port serves as the system port.
    let (sys, user) = find_ports(vec![port("c", VexSerialClass::Controller)]).unwrap();
    assert_eq!(sys.port_name, "c");
    assert!(user.is_none());
}

#[test]
fn directory_count_decodes_signed_counts() {
    let mut dev = new_device(ext_response(0x16, 0x76, &[0x05, 0x00]));
    assert_eq!(dev.get_directory_count(None, None), Ok(5));
    let mut dev = new_device(ext_response(0x16, 0x76, &[0xFF, 0xFF]));
    assert_eq!(dev.get_directory_count(None, None), Ok(-1));
    let (ext, payload) = {
        let mut dev = new_device(ext_response(0x16, 0x76, &[0x00, 0x00]));
        dev.get_directory_count(Some(VexVID::PROS), Some(3)).unwrap();
        let (stream, _) = dev.into_ports();
        parse_host_packets(&stream.output).remove(0)
    };
    assert_eq!(ext, 0x16);
    assert_eq!(payload, vec![24, 3]);
}

#[test]
fn metadata_by_index_parses_record() {
    let mut record = vec![7u8];
    record.extend_from_slice(&0x00000100u32.to_le_bytes());
    record.extend_from_slice(&0x03800000u32.to_le_bytes());
    record.extend_from_slice(&0xDEADBEEFu32.to_le_bytes());
    record.extend_from_slice(b"bin\0");
    record.extend_from_slice(&11111u32.to_le_bytes());
    record.extend_from_slice(&0x01000000u32.to_le_bytes());
    record.extend_from_slice(b"slot_1.bin\0\0\0\0\0\0\0\0\0\0\0\0\0\0");
    let mut dev = new_device(ext_response(0x17, 0x76, &record));
    let meta = dev.file_metadata_from_index(7, None).unwrap();
    assert_eq!(meta.idx, 7);
    assert_eq!(meta.size, 0x100);
    assert_eq!(meta.addr, 0x03800000);
    assert_eq!(meta.crc, 0xDEADBEEF);
    assert_eq!(&meta.file_type, b"bin\0");
    assert_eq!(meta.timestamp, 11111);
    assert_eq!(meta.version, 0x01000000);
    assert_eq!(meta.filename, b"slot_1.bin\0\0\0\0\0\0\0\0\0\0\0\0\0\0".to_vec());

    // A record too short to parse is an error.
    let mut dev = new_device(ext_response(0x17, 0x76, &[1, 2, 3]));
    assert_eq!(
        dev.file_metadata_from_index(1, None),
        Err(DecodeError::PacketLengthError)
    );
}

#[test]
fn delete_file_sends_delete_then_close() {
    let mut input = ext_response(0x1B, 0x76, b"");
    input.extend_from_slice(&ext_response(0x12, 0x76, b""));
    let mut dev = new_device(input);
    dev.delete_file("slot_1.bin", None, None).unwrap();
    let (stream, _) = dev.into_ports();
    let packets = parse_host_packets(&stream.output);
    assert_eq!(packets.len(), 2);
    let mut expected = vec![1u8, 0x80];
    expected.extend_from_slice(b"slot_1.bin\0\0\0\0\0\0\0\0\0\0\0\0\0\0");
    assert_eq!(packets[0], (0x1B, expected));
    assert_eq!(packets[1], (0x12, vec![0x00]));
}

#[test]
fn non_ascii_names_are_rejected_before_sending() {
    let mut dev = new_device(Vec::new());
    assert_eq!(
        dev.execute_program_file("プログラム.bin", None, None),
        Err(DecodeError::NotAscii)
    );
    let (stream, _) = dev.into_ports();
    assert!(stream.output.is_empty());
}

#[test]
fn open_negotiates_metadata_and_links_uploads() {
    let mut init_resp = Vec::new();
    init_resp.extend_from_slice(&48u16.to_le_bytes());
    init_resp.extend_from_slice(&1000u32.to_le_bytes());
    init_resp.extend_from_slice(&0xCAFED00Du32.to_le_bytes());
    let mut input = ext_response(0x11, 0x76, &init_resp);
    input.extend_from_slice(&ext_response(0x15, 0x76, b""));
    let mut dev = new_device(input);
    let handle = dev.open("slot_1.bin", None).unwrap();
    assert_eq!(handle.transfer_metadata.max_packet_size, 48);
    assert_eq!(handle.transfer_metadata.file_size, 1000);
    assert_eq!(handle.transfer_metadata.crc, 0xCAFED00D);
    assert!(!handle.closed);
    assert_eq!(handle.file_name, b"slot_1.bin\0\0\0\0\0\0\0\0\0\0\0\0\0\0".to_vec());

    let (stream, _) = dev.into_ports();
    let packets = parse_host_packets(&stream.output);
    assert_eq!(packets.len(), 2);
    assert_eq!(packets[0].0, 0x11);
    // Upload of a binary to flash with overwrite: function 1, target 1,
    // user VID, the overwrite bit.
    assert_eq!(&packets[0].1[0..4], &[1, 1, 1, 1]);
    assert_eq!(packets[1].0, 0x15);

    // Closing the transfer marks the handle closed.
    let mut handle = handle;
    let mut dev = new_device(ext_response(0x12, 0x76, b""));
    handle.close(&mut dev, VexFiletransferFinished::DoNothing).unwrap();
    assert!(handle.closed);
}

/// Runs a full write-then-read session against an emulated device memory
/// and checks that the bytes come back exactly.
fn roundtrip(data: Vec<u8>, max_packet_size: u16) {
    let base_addr: u32 = 0x1000;
    let file_size = data.len() as u32;
    let handle = V5FileHandle {
        transfer_metadata: VexFiletransferMetadata {
            max_packet_size,
            file_size,
            crc: 0,
        },
        metadata: VexInitialFileMetadata {
            function: VexFileMode::Upload(VexFileTarget::FLASH, true),
            vid: VexVID::USER,
            options: 0,
            length: file_size,
            addr: base_addr,
            crc: 0,
            file_type: *b"bin\0",
            timestamp: 0,
            version: 0,
        },
        file_name: b"slot_1.bin\0\0\0\0\0\0\0\0\0\0\0\0\0\0".to_vec(),
        closed: false,
    };

    // Phase one: write.  The device ACKs each chunk.
    let step = (max_packet_size / 2 + max_packet_size / 4) as usize;
    let n_chunks = (data.len() + step - 1) / step;
    let mut write_responses = Vec::new();
    for _ in 0..n_chunks {
        write_responses.extend_from_slice(&ext_response(0x13, 0x76, b""));
    }
    let mut dev = new_device(write_responses);
    let written = handle.write_all(&mut dev, data.clone()).unwrap();
    assert_eq!(written, data.len());

    // Apply the captured write requests to an emulated memory.
    let padded_len = (data.len() + 3) / 4 * 4;
    let mut memory = vec![0u8; padded_len];
    let (stream, _) = dev.into_ports();
    for (ext, payload) in parse_host_packets(&stream.output) {
        assert_eq!(ext, 0x13);
        // Padding holds: the transmitted payload length is a multiple of
        // four.
        assert_eq!(payload.len() % 4, 0);
        let addr = u32::from_le_bytes([payload[0], payload[1], payload[2], payload[3]]);
        let off = (addr - base_addr) as usize;
        let chunk = &payload[4..];
        assert!(chunk.len() <= step + 3);
        memory[off..off + chunk.len()].copy_from_slice(chunk);
    }

    // Phase two: read.  The device serves 512-byte chunks out of the
    // emulated memory, each behind a four-byte address echo.
    let mut read_responses = Vec::new();
    let mut off = 0usize;
    while off < data.len() {
        let want = std::cmp::min(512, data.len() - off);
        let n_pad = (want + 3) / 4 * 4;
        let mut body = vec![0u8; 4];
        body.extend_from_slice(&memory[off..off + n_pad]);
        read_responses.extend_from_slice(&ext_response(0x14, 0x76, &body));
        off += 512;
    }
    let mut dev = new_device(read_responses);
    let out = handle.read_all(&mut dev).unwrap();
    assert_eq!(out, data, "round trip of {} bytes at step {}", data.len(), step);
}

#[test]
fn write_then_read_reproduces_data_small_packets() {
    // A negotiated packet size of 48 gives a write step of 36.
    for len in [0usize, 1, 35, 36, 37] {
        let data: Vec<u8> = (0..len).map(|i| (i * 7 % 256) as u8).collect();
        roundtrip(data, 48);
    }
}

#[test]
fn write_then_read_reproduces_data_large_packets() {
    // A negotiated packet size of 512 gives a write step of 384.
    for len in [0usize, 1, 383, 384, 385, 2000] {
        let data: Vec<u8> = (0..len).map(|i| (i * 13 % 256) as u8).collect();
        roundtrip(data, 512);
    }
}

#[test]
fn write_all_stops_at_file_size() {
    // A buffer longer than the negotiated file size is cut off there.
    let file_size = 100u32;
    let data: Vec<u8> = (0..150).map(|i| i as u8).collect();
    let handle = V5FileHandle {
        transfer_metadata: VexFiletransferMetadata {
            max_packet_size: 48,
            file_size,
            crc: 0,
        },
        metadata: VexInitialFileMetadata {
            function: VexFileMode::Upload(VexFileTarget::FLASH, true),
            vid: VexVID::USER,
            options: 0,
            length: file_size,
            addr: 0,
            crc: 0,
            file_type: *b"bin\0",
            timestamp: 0,
            version: 0,
        },
        file_name: vec![0; 24],
        closed: false,
    };
    let mut responses = Vec::new();
    for _ in 0..3 {
        responses.extend_from_slice(&ext_response(0x13, 0x76, b""));
    }
    let mut dev = new_device(responses);
    assert_eq!(handle.write_all(&mut dev, data.clone()), Ok(100));
    let (stream, _) = dev.into_ports();
    let packets = parse_host_packets(&stream.output);
    let mut sent = Vec::new();
    for (ext, payload) in packets {
        assert_eq!(ext, 0x13);
        sent.extend_from_slice(&payload[4..]);
    }
    // Everything sent, minus the zero padding, is the first 100 bytes.
    assert_eq!(&sent[..100], &data[..100]);
    assert!(sent[100..].iter().all(|b| *b == 0));
}

#[test]
fn read_len_strips_address_echo() {
    let handle = V5FileHandle {
        transfer_metadata: VexFiletransferMetadata {
            max_packet_size: 48,
            file_size: 8,
            crc: 0,
        },
        metadata: VexInitialFileMetadata {
            function: VexFileMode::Download(VexFileTarget::FLASH, true),
            vid: VexVID::USER,
            options: 0,
            length: 8,
            addr: 0,
            crc: 0,
            file_type: *b"bin\0",
            timestamp: 0,
            version: 0,
        },
        file_name: vec![0; 24],
        closed: false,
    };
    let mut body = vec![0xEE; 4];
    body.extend_from_slice(&[1, 2, 3, 4, 5, 6, 7, 8]);
    let mut dev = new_device(ext_response(0x14, 0x76, &body));
    let out = handle.read_len(&mut dev, 0, 6).unwrap();
    assert_eq!(out, vec![1, 2, 3, 4, 5, 6]);
    let (stream, _) = dev.into_ports();
    let packets = parse_host_packets(&stream.output);
    // The wire count was padded from 6 to 8.
    assert_eq!(packets[0], (0x14, vec![0, 0, 0, 0, 8, 0]));
}

#[test]
fn open_download_does_not_set_link() {
    let mut init_resp = Vec::new();
    init_resp.extend_from_slice(&244u16.to_le_bytes());
    init_resp.extend_from_slice(&16u32.to_le_bytes());
    init_resp.extend_from_slice(&0u32.to_le_bytes());
    let mut dev = new_device(ext_response(0x11, 0x76, &init_resp));
    let meta = VexInitialFileMetadata {
        function: VexFileMode::Download(VexFileTarget::FLASH, true),
        vid: VexVID::USER,
        options: 0,
        length: 0,
        addr: 0x3800000,
        crc: 0,
        file_type: *b"bin\0",
        timestamp: 0,
        version: 0,
    };
    let handle = dev.open("slot_1.bin", Some(meta)).unwrap();
    assert_eq!(handle.transfer_metadata.max_packet_size, 244);
    let (stream, _) = dev.into_ports();
    let packets = parse_host_packets(&stream.output);
    // Only the open request went out: downloads set no linked file.
    assert_eq!(packets.len(), 1);
    assert_eq!(packets[0].0, 0x11);
    // Download of a binary: function byte 2.
    assert_eq!(packets[0].1[0], 2);
}

#[test]
fn open_truncates_long_names_to_24_bytes() {
    let mut init_resp = Vec::new();
    init_resp.extend_from_slice(&48u16.to_le_bytes());
    init_resp.extend_from_slice(&0u32.to_le_bytes());
    init_resp.extend_from_slice(&0u32.to_le_bytes());
    let mut input = ext_response(0x11, 0x76, &init_resp);
    input.extend_from_slice(&ext_response(0x15, 0x76, b""));
    let mut dev = new_device(input);
    let handle = dev
        .open("a_very_long_file_name_beyond_24_chars.bin", None)
        .unwrap();
    assert_eq!(handle.file_name, b"a_very_long_file_name_be".to_vec());
    assert_eq!(handle.file_name.len(), 24);
}

#[test]
fn execute_program_file_sends_its_payload() {
    let mut dev = new_device(ext_response(0x18, 0x76, b""));
    dev.execute_program_file("slot_1.bin", Some(VexVID::RMS), Some(2)).unwrap();
    let (stream, _) = dev.into_ports();
    let packets = parse_host_packets(&stream.output);
    let mut expected = vec![16u8, 2];
    expected.extend_from_slice(b"slot_1.bin\0\0\0\0\0\0\0\0\0\0\0\0\0\0");
    assert_eq!(packets[0], (0x18, expected));
}

#[test]
fn metadata_by_name_parses_record() {
    let mut record = vec![24u8];
    record.extend_from_slice(&64u32.to_le_bytes());
    record.extend_from_slice(&0x07800000u32.to_le_bytes());
    record.extend_from_slice(&5u32.to_le_bytes());
    record.extend_from_slice(b"ini\0");
    record.extend_from_slice(&7u32.to_le_bytes());
    record.extend_from_slice(&8u32.to_le_bytes());
    record.extend_from_slice(b"linked.bin\0\0\0\0\0\0\0\0\0\0\0\0\0\0");
    let mut dev = new_device(ext_response(0x19, 0x76, &record));
    let meta = dev.file_metadata_from_name("slot_1.bin", None, None).unwrap();
    assert_eq!(meta.linked_vid, 24);
    assert_eq!(meta.size, 64);
    assert_eq!(meta.addr, 0x07800000);
    assert_eq!(&meta.file_type, b"ini\0");
    assert_eq!(meta.linked_filename, b"linked.bin\0\0\0\0\0\0\0\0\0\0\0\0\0\0".to_vec());
}

#[test]
fn set_program_file_metadata_packs_fields() {
    let mut dev = new_device(ext_response(0x1A, 0x76, b""));
    let set = VexFileMetadataSet {
        vid: 1,
        options: 0,
        addr: 0x03800000,
        file_type: *b"bin\0",
        timestamp: 1234,
        version: 0x01000000,
    };
    dev.set_program_file_metadata("slot_1.bin", set).unwrap();
    let (stream, _) = dev.into_ports();
    let packets = parse_host_packets(&stream.output);
    let mut expected = vec![1u8, 0];
    expected.extend_from_slice(&0x03800000u32.to_le_bytes());
    expected.extend_from_slice(b"bin\0");
    expected.extend_from_slice(&1234u32.to_le_bytes());
    expected.extend_from_slice(&0x01000000u32.to_le_bytes());
    expected.extend_from_slice(b"slot_1.bin\0\0\0\0\0\0\0\0\0\0\0\0\0\0");
    assert_eq!(packets[0], (0x1A, expected));
}

#[test]
fn switch_channel_skips_brains_and_reaches_controllers() {
    // A brain has no channels: only the version query goes out.
    let mut dev = new_device(vec![0xAA, 0x55, 0xA4, 0x07, 1, 2, 3, 4, 5, 0x10, 0x00]);
    dev.switch_channel(Some(vexv5_serial::meta::V5ControllerChannel::Download)).unwrap();
    let (stream, _) = dev.into_ports();
    assert_eq!(stream.output, vec![0xC9, 0x36, 0xB8, 0x47, 0xA4]);

    // A controller gets the channel switch after the version query.
    let mut input = vec![0xAA, 0x55, 0xA4, 0x07, 1, 2, 3, 4, 5, 0x11, 0x01];
    input.extend_from_slice(&ext_response(0x10, 0x76, b""));
    let mut dev = new_device(input);
    dev.switch_channel(Some(vexv5_serial::meta::V5ControllerChannel::Download)).unwrap();
    let (stream, _) = dev.into_ports();
    assert_eq!(&stream.output[0..5], &[0xC9, 0x36, 0xB8, 0x47, 0xA4]);
    let packets = parse_host_packets(&stream.output[5..]);
    assert_eq!(packets[0], (0x10, vec![0x01]));
}
