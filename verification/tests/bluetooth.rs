use bytes::BytesMut;
use ear_native::bluetooth::drain_packets;
use ear_native::protocol::{Packet, PacketCommand};

#[test]
fn drain_packets_skips_noise_and_keeps_partial_tail() {
    let packet = Packet::new(PacketCommand::ReadBattery, vec![0x01, 0x02], 7).to_bytes();
    let mut buffer = BytesMut::from(&[0x00, 0x01][..]);
    buffer.extend_from_slice(&packet);
    buffer.extend_from_slice(&packet[..6]);

    let emitted = drain_packets(&mut buffer);

    assert_eq!(emitted.len(), 1);
    assert_eq!(emitted[0].command, PacketCommand::ReadBattery);
    assert_eq!(buffer.as_ref(), &packet[..6]);
}

#[test]
fn drain_packets_takes_several_frames_in_order() {
    let a = Packet::new(PacketCommand::RespAnc, vec![0x01, 0x05], 1).to_bytes();
    let b = Packet::new(PacketCommand::RespLatency, vec![0x01], 2).to_bytes();
    let mut buffer = BytesMut::new();
    buffer.extend_from_slice(&a);
    buffer.extend_from_slice(&b);
    let emitted = drain_packets(&mut buffer);
    assert_eq!(emitted.len(), 2);
    assert_eq!(emitted[0].command, PacketCommand::RespAnc);
    assert_eq!(emitted[0].payload, vec![0x01, 0x05]);
    assert_eq!(emitted[0].operation_id, 1);
    assert_eq!(emitted[1].command, PacketCommand::RespLatency);
    assert_eq!(emitted[1].operation_id, 2);
    assert!(buffer.is_empty());
}

#[test]
fn drain_packets_empties_a_buffer_without_marker() {
    let mut buffer = BytesMut::from(&[0x01, 0x02, 0x03][..]);
    let emitted = drain_packets(&mut buffer);
    assert!(emitted.is_empty());
    assert!(buffer.is_empty());
}

#[test]
fn drain_packets_drops_a_marker_with_unknown_command() {
    // A marker followed by a frame whose command code is unknown is skipped
    // byte by byte; the good frame after it is still found.
    let good = Packet::new(PacketCommand::RespInEar, vec![0x00, 0x00, 0x01], 9).to_bytes();
    let mut bad = vec![0x55, 0x60, 0x01, 0x34, 0x12, 0x00, 0x00, 0x00, 0x00, 0x00];
    bad.extend_from_slice(&good);
    let mut buffer = BytesMut::from(&bad[..]);
    let emitted = drain_packets(&mut buffer);
    assert_eq!(emitted.len(), 1);
    assert_eq!(emitted[0].command, PacketCommand::RespInEar);
    assert!(buffer.is_empty());
}

#[test]
fn drain_packets_keeps_only_the_newest_bytes() {
    let packet = Packet::new(PacketCommand::RespBattery, vec![0x00], 3).to_bytes();
    let mut bytes = vec![0u8; 9000];
    bytes.extend_from_slice(&packet);
    let mut buffer = BytesMut::from(&bytes[..]);
    let emitted = drain_packets(&mut buffer);
    assert_eq!(emitted.len(), 1);
    assert_eq!(emitted[0].command, PacketCommand::RespBattery);
    assert!(buffer.is_empty());
}
