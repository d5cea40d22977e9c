//! Tests for the framer and the protocol layer over an in-memory stream:
//! synchronization, timeouts, length decoding, and the receive checks.

use vexv5_serial::checks::VexExtPacketChecks;
use vexv5_serial::commands::{decode_extended_payload, Simple};
use vexv5_serial::errors::{DecodeError, VexACKType};
use vexv5_serial::io::MemoryStream;
use vexv5_serial::protocol::{V5Protocol, VexDeviceCommand};

fn crc16(data: &[u8]) -> u16 {
    crc::Crc::<u16>::new(&crc::CRC_16_XMODEM).checksum(data)
}

/// Builds a device-to-host extended response packet: sync, the extended
/// marker, the length, the extended command id, the acknowledgement byte,
/// the data, and a CRC that checks the whole packet to zero.
fn ext_response(ext_cmd: u8, ack: u8, data: &[u8]) -> Vec<u8> {
    let len = data.len() + 4;
    let mut p = vec![0xAA, 0x55, 0x56];
    if len > 0x7F {
        p.push(((len >> 8) | 0x80) as u8);
        p.push((len & 0xFF) as u8);
    } else {
        p.push(len as u8);
    }
    p.push(ext_cmd);
    p.push(ack);
    p.extend_from_slice(data);
    let c = crc16(&p);
    p.push((c >> 8) as u8);
    p.push((c & 0xFF) as u8);
    p
}

#[test]
fn framer_resynchronizes_past_garbage_and_partial_sync() {
    // Garbage, then a spurious 0xAA followed by a non-0x55 byte, then a
    // valid packet: the framer must find and decode the valid packet.
    let mut input = vec![0x00, 0xFF, 0x13, 0xAA, 0x13];
    let packet = ext_response(0x2E, 0x76, b"A\0");
    input.extend_from_slice(&packet);
    let mut stream = MemoryStream::new(input);
    let resp = Simple::decode_stream(&mut stream, 1000).unwrap();
    assert_eq!(resp.0, 0x56);
    assert_eq!(resp.2, packet);
    let decoded = decode_extended_payload(resp.0, resp.1).unwrap();
    assert_eq!(decoded.0, 0x2E);
    assert_eq!(decoded.1, b"A\0".to_vec());
}

#[test]
fn framer_restarts_match_on_repeated_sync_byte() {
    // After 0xAA 0xAA, the second 0xAA must count as a fresh first sync
    // byte, so 0xAA 0xAA 0x55 still synchronizes.
    let input = vec![0xAA, 0xAA, 0x55, 0x01, 0x02, 9, 8];
    let mut stream = MemoryStream::new(input);
    let resp = Simple::decode_stream(&mut stream, 1000).unwrap();
    assert_eq!(resp.0, 0x01);
    assert_eq!(resp.1, vec![9, 8]);
    assert_eq!(resp.2, vec![0xAA, 0x55, 0x01, 0x02, 9, 8]);
}

#[test]
fn framer_times_out_without_sync() {
    // A stream that never produces the sync bytes fails with a header
    // timeout once its deadline passes (for a replayed stream, when the
    // bytes run out).
    let mut stream = MemoryStream::new(vec![0x11; 32]);
    assert_eq!(
        Simple::decode_stream(&mut stream, 1000),
        Err(DecodeError::HeaderTimeout)
    );
    let mut empty = MemoryStream::new(Vec::new());
    assert_eq!(
        Simple::decode_stream(&mut empty, 1000),
        Err(DecodeError::HeaderTimeout)
    );
}

#[test]
fn framer_reports_short_reads_mid_packet() {
    // Once synchronized, a stream that dries up mid-packet is an error,
    // never a silent truncation.
    let mut stream = MemoryStream::new(vec![0xAA, 0x55, 0x56, 0x05, 0x01]);
    assert_eq!(
        Simple::decode_stream(&mut stream, 1000),
        Err(DecodeError::IoError)
    );
}

#[test]
fn framer_reads_two_byte_lengths() {
    // A payload long enough to need the two-byte length form.
    let data = vec![0x5A; 0x100];
    let packet = ext_response(0x14, 0x76, &data);
    assert_eq!(packet[3] & 0x80, 0x80);
    let mut stream = MemoryStream::new(packet.clone());
    let resp = Simple::decode_stream(&mut stream, 1000).unwrap();
    assert_eq!(resp.0, 0x56);
    assert_eq!(resp.1.len(), 0x104);
    assert_eq!(resp.2, packet);
}

#[test]
fn device_response_scenario_decodes_to_data() {
    // Sync, cmd 0x56, length, ext command 0x01, ACK, "hi\0", CRC: with
    // every check on, decoding yields command id 1, a success ACK, and
    // the data "hi\0", which the caller strips to "hi".
    let packet = ext_response(0x01, 0x76, b"hi\0");
    assert_eq!(crc16(&packet), 0);
    let mut stream = MemoryStream::new(packet);
    let resp = Simple::decode_stream(&mut stream, 1000).unwrap();
    assert_eq!(resp.0, 0x56);
    assert_eq!(crc16(&resp.2), 0);
    let decoded = decode_extended_payload(resp.0, resp.1).unwrap();
    assert_eq!(decoded.0, 0x01);
    assert_eq!(decoded.1, b"hi\0".to_vec());
    let stripped = &decoded.1[..decoded.1.len() - 1];
    assert_eq!(std::str::from_utf8(stripped).unwrap(), "hi");
}

#[test]
fn receive_extended_runs_the_requested_checks() {
    // A clean exchange.
    let mut proto = V5Protocol::new(
        MemoryStream::new(ext_response(0x12, 0x76, b"")),
        Some(1000),
    );
    let (cmd, payload, raw) = proto.receive_extended(VexExtPacketChecks::all()).unwrap();
    assert_eq!(cmd, VexDeviceCommand::ExitFile);
    assert!(payload.is_empty());
    assert_eq!(crc16(&raw), 0);

    // A NACK surfaces as its specific variant.
    let mut proto = V5Protocol::new(
        MemoryStream::new(ext_response(0x12, 0xD1, b"")),
        Some(1000),
    );
    assert_eq!(
        proto.receive_extended(VexExtPacketChecks::all()),
        Err(DecodeError::NACK(VexACKType::NACKTransferSizeTooLarge))
    );

    // An undocumented acknowledgement byte is invalid.
    let mut proto = V5Protocol::new(
        MemoryStream::new(ext_response(0x12, 0x42, b"")),
        Some(1000),
    );
    assert_eq!(
        proto.receive_extended(VexExtPacketChecks::all()),
        Err(DecodeError::InvalidAck)
    );

    // A corrupted packet fails the CRC check...
    let mut packet = ext_response(0x12, 0x76, b"abc");
    let last = packet.len() - 1;
    packet[last] ^= 0x01;
    let mut proto = V5Protocol::new(MemoryStream::new(packet.clone()), Some(1000));
    assert_eq!(
        proto.receive_extended(VexExtPacketChecks::all()),
        Err(DecodeError::CrcError)
    );

    // ...unless the CRC check is off.
    let mut proto = V5Protocol::new(MemoryStream::new(packet), Some(1000));
    let checks = VexExtPacketChecks { ack: true, crc: false, length: true };
    let (cmd, payload, _) = proto.receive_extended(checks).unwrap();
    assert_eq!(cmd, VexDeviceCommand::ExitFile);
    assert_eq!(payload.len(), 3);

    // A non-extended packet is not an extended response.
    let mut proto = V5Protocol::new(
        MemoryStream::new(vec![0xAA, 0x55, 0xA4, 0x01, 0x00]),
        Some(1000),
    );
    assert_eq!(
        proto.receive_extended(VexExtPacketChecks::all()),
        Err(DecodeError::ExpectedExtended)
    );

    // An extended response whose command byte is undocumented is reported.
    let mut proto = V5Protocol::new(
        MemoryStream::new(ext_response(0x99, 0x76, b"")),
        Some(1000),
    );
    assert_eq!(
        proto.receive_extended(VexExtPacketChecks::all()),
        Err(DecodeError::UnknownCommand(0x99))
    );
}

#[test]
fn receive_simple_maps_command_bytes() {
    let mut proto = V5Protocol::new(
        MemoryStream::new(vec![0xAA, 0x55, 0xA4, 0x02, 7, 8]),
        Some(1000),
    );
    let (cmd, payload, raw) = proto.receive_simple().unwrap();
    assert_eq!(cmd, VexDeviceCommand::GetSystemVersion);
    assert_eq!(payload, vec![7, 8]);
    assert_eq!(raw, vec![0xAA, 0x55, 0xA4, 0x02, 7, 8]);

    let mut proto = V5Protocol::new(
        MemoryStream::new(vec![0xAA, 0x55, 0x99, 0x00]),
        Some(1000),
    );
    assert_eq!(proto.receive_simple(), Err(DecodeError::UnknownCommand(0x99)));
}

#[test]
fn send_simple_and_extended_write_wire_bytes() {
    let mut proto = V5Protocol::new(MemoryStream::new(Vec::new()), None);
    let n = proto
        .send_simple(VexDeviceCommand::GetSystemVersion, Vec::new())
        .unwrap();
    assert_eq!(n, 5);
    let stream = proto.into_inner();
    assert_eq!(stream.output, vec![0xC9, 0x36, 0xB8, 0x47, 0xA4]);

    let mut proto = V5Protocol::new(MemoryStream::new(Vec::new()), None);
    proto
        .send_extended(VexDeviceCommand::ExitFile, vec![0x00])
        .unwrap();
    let stream = proto.into_inner();
    let mut expected = vec![0xC9, 0x36, 0xB8, 0x47, 0x56, 0x12, 0x01, 0x00];
    let c = crc16(&expected);
    expected.push((c >> 8) as u8);
    expected.push((c & 0xFF) as u8);
    assert_eq!(stream.output, expected);
    assert_eq!(crc16(&stream.output), 0);
}

#[test]
fn simple_encode_prepends_host_sync() {
    let packet = Simple(0xA4, &[1, 2, 3]).encode_request();
    assert_eq!(packet, vec![0xC9, 0x36, 0xB8, 0x47, 0xA4, 1, 2, 3]);
}
