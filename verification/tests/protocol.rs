use ear_native::protocol::{
    calculate_crc, AncMode, DeviceId, EqMode, GestureAction, GestureType, Packet, PacketCommand,
    ParsedResponse,
};

fn modbus(data: &[u8]) -> u16 {
    crc::Crc::<u16>::new(&crc::CRC_16_MODBUS).checksum(data)
}

#[test]
fn crc_of_the_check_string() {
    assert_eq!(calculate_crc(b"123456789"), 0x4B37);
    assert_eq!(calculate_crc(&[]), 0xFFFF);
}

#[test]
fn frame_of_a_battery_read() {
    let bytes = Packet::new(PacketCommand::ReadBattery, vec![0x01, 0x02], 7).to_bytes();
    let body = [0x55, 0x60, 0x01, 0x07, 0xC0, 0x02, 0x00, 0x07, 0x01, 0x02];
    assert_eq!(&bytes[..10], &body);
    let crc = modbus(&body);
    assert_eq!(bytes[10], (crc & 0xff) as u8);
    assert_eq!(bytes[11], (crc >> 8) as u8);
    assert_eq!(bytes.len(), 12);
    assert_eq!(Packet::encoded_len(&bytes), Some(12));
    assert_eq!(Packet::encoded_len(&bytes[..5]), None);
}

#[test]
fn frame_roundtrip() {
    let p = Packet::new(PacketCommand::SetCustomEq, (0u8..53).collect(), 200);
    let q = Packet::from_bytes(&p.to_bytes()).unwrap();
    assert_eq!(q.command, PacketCommand::SetCustomEq);
    assert_eq!(q.payload, p.payload);
    assert_eq!(q.operation_id, 200);
}

#[test]
fn from_bytes_rejects_bad_frames() {
    let good = Packet::new(PacketCommand::ReadAnc, vec![], 1).to_bytes();
    assert!(Packet::from_bytes(&good[..9]).is_none());
    let mut no_marker = good.clone();
    no_marker[0] = 0x54;
    assert!(Packet::from_bytes(&no_marker).is_none());
    let mut unknown = good.clone();
    unknown[3] = 0x00;
    unknown[4] = 0x00;
    assert!(Packet::from_bytes(&unknown).is_none());
    let mut short = Packet::new(PacketCommand::ReadAnc, vec![1, 2, 3], 1).to_bytes();
    short.truncate(11);
    assert!(Packet::from_bytes(&short).is_none());
}

#[test]
fn from_bytes_does_not_check_the_checksum() {
    let mut bytes = Packet::new(PacketCommand::ReadAnc, vec![], 1).to_bytes();
    bytes[8] ^= 0xff;
    assert!(Packet::from_bytes(&bytes).is_some());
}

#[test]
fn command_codes() {
    assert_eq!(PacketCommand::ReadBattery.to_u16(), 49159);
    assert_eq!(PacketCommand::RespAdvancedEqStatus.to_u16(), 16460);
    assert_eq!(PacketCommand::from_u16(61505), Some(PacketCommand::SetCustomEq));
    assert_eq!(PacketCommand::from_u16(1), None);
}

#[test]
fn small_enums() {
    assert_eq!(DeviceId::from_u8(0x02), Some(DeviceId::Left));
    assert_eq!(DeviceId::from_u8(0x03), Some(DeviceId::Right));
    assert_eq!(DeviceId::from_u8(0x04), Some(DeviceId::Case));
    assert_eq!(DeviceId::from_u8(0x05), None);
    assert_eq!(AncMode::from_u8(0x05), Some(AncMode::Off));
    assert_eq!(AncMode::from_u8(0x04), Some(AncMode::NcAdaptive));
    assert_eq!(AncMode::from_u8(0x00), None);
    assert_eq!(EqMode::from_u8(0), Some(EqMode::Balanced));
    assert_eq!(EqMode::from_u8(200), None);
    assert_eq!(GestureType::from_u8(0x02), Some(GestureType::DoubleTap));
    assert_eq!(GestureAction::from_u8(11).to_u8(), 11);
    assert_eq!(GestureAction::from_u8(200), GestureAction::Unknown(200));
}

fn parse(command: PacketCommand, payload: Vec<u8>) -> ParsedResponse {
    Packet::new(command, payload, 0).parse()
}

#[test]
fn parse_battery() {
    match parse(PacketCommand::RespBattery, vec![3, 0x02, 0x55, 0x03, 0xE4, 0x04, 0x20]) {
        ParsedResponse::Battery(b) => {
            assert_eq!(b.left.unwrap().level, 0x55);
            assert!(!b.left.unwrap().is_charging);
            assert_eq!(b.right.unwrap().level, 0x64);
            assert!(b.right.unwrap().is_charging);
            assert_eq!(b.case.unwrap().level, 0x20);
        }
        other => panic!("unexpected {:?}", other),
    }
    match parse(PacketCommand::RespBatteryAlt, vec![2, 0x02, 0x10]) {
        ParsedResponse::Battery(b) => {
            assert_eq!(b.left.unwrap().level, 0x10);
            assert!(b.right.is_none());
            assert!(b.case.is_none());
        }
        other => panic!("unexpected {:?}", other),
    }
}

#[test]
fn parse_anc_eq_and_flags() {
    assert!(matches!(parse(PacketCommand::RespAnc, vec![0, 0x07]), ParsedResponse::Anc(AncMode::Transparent)));
    assert!(matches!(parse(PacketCommand::RespAnc, vec![0, 0x09]), ParsedResponse::Unknown(57347, _)));
    assert!(matches!(
        parse(PacketCommand::RespEq, vec![3]),
        ParsedResponse::Eq { mode: EqMode::Voice, preset: 3 }
    ));
    assert!(matches!(
        parse(PacketCommand::RespEqAlt, vec![99]),
        ParsedResponse::Eq { mode: EqMode::Balanced, preset: 99 }
    ));
    assert!(matches!(parse(PacketCommand::RespInEar, vec![0, 0, 1]), ParsedResponse::InEar(true)));
    assert!(matches!(parse(PacketCommand::RespInEar, vec![]), ParsedResponse::InEar(false)));
    assert!(matches!(parse(PacketCommand::RespLatency, vec![1]), ParsedResponse::Latency(true)));
    assert!(matches!(parse(PacketCommand::RespAdvancedEqStatus, vec![1]), ParsedResponse::AdvancedEq(true)));
    assert!(matches!(parse(PacketCommand::RespAdvancedEqStatus, vec![2]), ParsedResponse::AdvancedEq(false)));
    assert!(matches!(
        parse(PacketCommand::RespPersonalizedAnc, vec![1]),
        ParsedResponse::PersonalizedAnc(true)
    ));
    assert!(matches!(
        parse(PacketCommand::RespEnhancedBass, vec![1, 6]),
        ParsedResponse::EnhancedBass { enabled: true, level: 3 }
    ));
    assert!(matches!(parse(PacketCommand::RespEnhancedBass, vec![1]), ParsedResponse::Unknown(16462, _)));
    assert!(matches!(
        parse(PacketCommand::RespEarFitTest, vec![1, 2]),
        ParsedResponse::EarFitTest { left: 1, right: 2 }
    ));
    assert!(matches!(parse(PacketCommand::SetAnc, vec![]), ParsedResponse::Unknown(61455, _)));
}

#[test]
fn parse_firmware_and_sku() {
    match parse(PacketCommand::RespFirmware, b"1.0.2\0".to_vec()) {
        ParsedResponse::Firmware(s) => assert_eq!(s, "1.0.2\0"),
        other => panic!("unexpected {:?}", other),
    }
    match parse(PacketCommand::RespFirmware, vec![0x61, 0xff]) {
        ParsedResponse::Firmware(s) => assert_eq!(s, "a\u{fffd}"),
        other => panic!("unexpected {:?}", other),
    }
    match parse(PacketCommand::RespSku, vec![0x00, 0x1f]) {
        ParsedResponse::Sku(s) => assert_eq!(s, "1f"),
        other => panic!("unexpected {:?}", other),
    }
    match parse(PacketCommand::ReadSku, vec![0x0a]) {
        ParsedResponse::Sku(s) => assert_eq!(s, "0a"),
        other => panic!("unexpected {:?}", other),
    }
    match parse(PacketCommand::ReadSkuAlt, vec![]) {
        ParsedResponse::Sku(s) => assert_eq!(s, "unknown"),
        other => panic!("unexpected {:?}", other),
    }
}

#[test]
fn parse_gestures() {
    match parse(PacketCommand::RespGesture, vec![2, 0x02, 0, 0x02, 8, 0x03, 0, 0x05, 9]) {
        ParsedResponse::Gestures(g) => {
            assert_eq!(g.len(), 1);
            assert_eq!(g[0].device, DeviceId::Left);
            assert_eq!(g[0].gesture_type, GestureType::DoubleTap);
            assert_eq!(g[0].action.to_u8(), 8);
        }
        other => panic!("unexpected {:?}", other),
    }
}

fn f32_le(v: f32) -> [u8; 4] {
    v.to_le_bytes()
}

#[test]
fn parse_custom_eq_bands() {
    let mut payload = vec![0u8; 45];
    payload[6..10].copy_from_slice(&f32_le(2.0));
    payload[19..23].copy_from_slice(&f32_le(-3.0));
    payload[32..36].copy_from_slice(&f32_le(5.0));
    match parse(PacketCommand::RespCustomEq, payload) {
        ParsedResponse::CustomEq(bits) => {
            assert_eq!(f32::from_bits(bits.low), 5.0);
            assert_eq!(f32::from_bits(bits.mid), 2.0);
            assert_eq!(f32::from_bits(bits.high), -3.0);
        }
        other => panic!("unexpected {:?}", other),
    }
    assert!(matches!(parse(PacketCommand::RespCustomEq, vec![0u8; 44]), ParsedResponse::Unknown(16452, _)));
}
