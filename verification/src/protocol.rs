use vstd::prelude::*;
use crate::text::{byte_hex, hex2, hex_char, lossy_utf8, owned, utf8_lossy};

verus! {

/// Command identifiers of the earbud protocol.
#[derive(Debug, Clone, Copy, PartialEq, Eq, Structural)]
pub enum PacketCommand {
    ReadBattery,
    ReadAnc,
    SetAnc,
    ReadEq,
    SetEq,
    ReadPersonalizedAnc,
    SetPersonalizedAnc,
    ReadListeningMode,
    SetListeningMode,
    ReadEnhancedBass,
    SetEnhancedBass,
    ReadAdvancedEq,
    SetAdvancedEqEnabled,
    ReadCustomEq,
    SetCustomEq,
    StartEarFitTest,
    ReadFirmware,
    ReadInEar,
    SetInEar,
    ReadLatency,
    SetLatency,
    SetRingBuds,
    ReadSku,
    ReadSkuAlt,
    RespSku,
    RespBattery,
    RespBatteryAlt,
    RespAnc,
    RespAncAlt,
    RespEq,
    RespEqAlt,
    RespPersonalizedAnc,
    RespFirmware,
    RespInEar,
    RespLatency,
    RespGesture,
    RespEarFitTest,
    RespEnhancedBass,
    RespCustomEq,
    RespAdvancedEqStatus,
}

/// The 16-bit wire code of each command.
pub open spec fn command_code(c: PacketCommand) -> u16 {
    match c {
        PacketCommand::ReadBattery => 49159,
        PacketCommand::ReadAnc => 49182,
        PacketCommand::SetAnc => 61455,
        PacketCommand::ReadEq => 49183,
        PacketCommand::SetEq => 61456,
        PacketCommand::ReadPersonalizedAnc => 49184,
        PacketCommand::SetPersonalizedAnc => 61457,
        PacketCommand::ReadListeningMode => 49232,
        PacketCommand::SetListeningMode => 61469,
        PacketCommand::ReadEnhancedBass => 49230,
        PacketCommand::SetEnhancedBass => 61521,
        PacketCommand::ReadAdvancedEq => 49228,
        PacketCommand::SetAdvancedEqEnabled => 61519,
        PacketCommand::ReadCustomEq => 49220,
        PacketCommand::SetCustomEq => 61505,
        PacketCommand::StartEarFitTest => 61460,
        PacketCommand::ReadFirmware => 49218,
        PacketCommand::ReadInEar => 49166,
        PacketCommand::SetInEar => 61444,
        PacketCommand::ReadLatency => 49217,
        PacketCommand::SetLatency => 61504,
        PacketCommand::SetRingBuds => 61442,
        PacketCommand::ReadSku => 49160,
        PacketCommand::ReadSkuAlt => 16392,
        PacketCommand::RespSku => 57352,
        PacketCommand::RespBattery => 57345,
        PacketCommand::RespBatteryAlt => 16391,
        PacketCommand::RespAnc => 57347,
        PacketCommand::RespAncAlt => 16414,
        PacketCommand::RespEq => 16415,
        PacketCommand::RespEqAlt => 16464,
        PacketCommand::RespPersonalizedAnc => 16416,
        PacketCommand::RespFirmware => 16450,
        PacketCommand::RespInEar => 16398,
        PacketCommand::RespLatency => 16449,
        PacketCommand::RespGesture => 16408,
        PacketCommand::RespEarFitTest => 57357,
        PacketCommand::RespEnhancedBass => 16462,
        PacketCommand::RespCustomEq => 16452,
        PacketCommand::RespAdvancedEqStatus => 16460,
    }
}

/// The command whose wire code is `v`, if any.
pub open spec fn command_of(v: u16) -> Option<PacketCommand> {
    if exists|c: PacketCommand| command_code(c) == v {
        Some(choose|c: PacketCommand| command_code(c) == v)
    } else {
        None
    }
}

/// Distinct commands have distinct wire codes.
pub proof fn lemma_command_code_injective(a: PacketCommand, b: PacketCommand)
    ensures
        command_code(a) == command_code(b) ==> a == b,
{
}

/// Decoding the wire code of a command gives that command back.
pub proof fn lemma_command_of_code(c: PacketCommand)
    ensures
        command_of(command_code(c)) == Some(c),
{
    let d = choose|d: PacketCommand| command_code(d) == command_code(c);
    lemma_command_code_injective(c, d);
}

impl PacketCommand {
    /// The wire code of this command.
    pub fn to_u16(&self) -> (r: u16)
        ensures
            r == command_code(*self),
    {
        match self {
            PacketCommand::ReadBattery => 49159,
            PacketCommand::ReadAnc => 49182,
            PacketCommand::SetAnc => 61455,
            PacketCommand::ReadEq => 49183,
            PacketCommand::SetEq => 61456,
            PacketCommand::ReadPersonalizedAnc => 49184,
            PacketCommand::SetPersonalizedAnc => 61457,
            PacketCommand::ReadListeningMode => 49232,
            PacketCommand::SetListeningMode => 61469,
            PacketCommand::ReadEnhancedBass => 49230,
            PacketCommand::SetEnhancedBass => 61521,
            PacketCommand::ReadAdvancedEq => 49228,
            PacketCommand::SetAdvancedEqEnabled => 61519,
            PacketCommand::ReadCustomEq => 49220,
            PacketCommand::SetCustomEq => 61505,
            PacketCommand::StartEarFitTest => 61460,
            PacketCommand::ReadFirmware => 49218,
            PacketCommand::ReadInEar => 49166,
            PacketCommand::SetInEar => 61444,
            PacketCommand::ReadLatency => 49217,
            PacketCommand::SetLatency => 61504,
            PacketCommand::SetRingBuds => 61442,
            PacketCommand::ReadSku => 49160,
            PacketCommand::ReadSkuAlt => 16392,
            PacketCommand::RespSku => 57352,
            PacketCommand::RespBattery => 57345,
            PacketCommand::RespBatteryAlt => 16391,
            PacketCommand::RespAnc => 57347,
            PacketCommand::RespAncAlt => 16414,
            PacketCommand::RespEq => 16415,
            PacketCommand::RespEqAlt => 16464,
            PacketCommand::RespPersonalizedAnc => 16416,
            PacketCommand::RespFirmware => 16450,
            PacketCommand::RespInEar => 16398,
            PacketCommand::RespLatency => 16449,
            PacketCommand::RespGesture => 16408,
            PacketCommand::RespEarFitTest => 57357,
            PacketCommand::RespEnhancedBass => 16462,
            PacketCommand::RespCustomEq => 16452,
            PacketCommand::RespAdvancedEqStatus => 16460,
        }
    }

    /// The command with wire code `v`; `None` when no command has that code.
    pub fn from_u16(v: u16) -> (r: Option<PacketCommand>)
        ensures
            r == command_of(v),
    {
        let r = match v {
            49159 => Some(PacketCommand::ReadBattery),
            49182 => Some(PacketCommand::ReadAnc),
            61455 => Some(PacketCommand::SetAnc),
            49183 => Some(PacketCommand::ReadEq),
            61456 => Some(PacketCommand::SetEq),
            49184 => Some(PacketCommand::ReadPersonalizedAnc),
            61457 => Some(PacketCommand::SetPersonalizedAnc),
            49232 => Some(PacketCommand::ReadListeningMode),
            61469 => Some(PacketCommand::SetListeningMode),
            49230 => Some(PacketCommand::ReadEnhancedBass),
            61521 => Some(PacketCommand::SetEnhancedBass),
            49228 => Some(PacketCommand::ReadAdvancedEq),
            61519 => Some(PacketCommand::SetAdvancedEqEnabled),
            49220 => Some(PacketCommand::ReadCustomEq),
            61505 => Some(PacketCommand::SetCustomEq),
            61460 => Some(PacketCommand::StartEarFitTest),
            49218 => Some(PacketCommand::ReadFirmware),
            49166 => Some(PacketCommand::ReadInEar),
            61444 => Some(PacketCommand::SetInEar),
            49217 => Some(PacketCommand::ReadLatency),
            61504 => Some(PacketCommand::SetLatency),
            61442 => Some(PacketCommand::SetRingBuds),
            49160 => Some(PacketCommand::ReadSku),
            16392 => Some(PacketCommand::ReadSkuAlt),
            57352 => Some(PacketCommand::RespSku),
            57345 => Some(PacketCommand::RespBattery),
            16391 => Some(PacketCommand::RespBatteryAlt),
            57347 => Some(PacketCommand::RespAnc),
            16414 => Some(PacketCommand::RespAncAlt),
            16415 => Some(PacketCommand::RespEq),
            16464 => Some(PacketCommand::RespEqAlt),
            16416 => Some(PacketCommand::RespPersonalizedAnc),
            16450 => Some(PacketCommand::RespFirmware),
            16398 => Some(PacketCommand::RespInEar),
            16449 => Some(PacketCommand::RespLatency),
            16408 => Some(PacketCommand::RespGesture),
            57357 => Some(PacketCommand::RespEarFitTest),
            16462 => Some(PacketCommand::RespEnhancedBass),
            16452 => Some(PacketCommand::RespCustomEq),
            16460 => Some(PacketCommand::RespAdvancedEqStatus),
            _ => None,
        };
        proof {
            match r {
                Some(c) => {
                    lemma_command_of_code(c);
                },
                None => {
                    assert forall|c: PacketCommand| command_code(c) != v by {
                        match c {
                            _ => {},
                        }
                    }
                },
            }
        }
        r
    }
}

/// Which part of the device a status byte refers to.
#[derive(Debug, Clone, Copy, PartialEq, Eq, Structural)]
pub enum DeviceId {
    Left,
    Right,
    Case,
}

/// Wire code of a device part.
pub open spec fn device_code(d: DeviceId) -> u8 {
    match d {
        DeviceId::Left => 0x02,
        DeviceId::Right => 0x03,
        DeviceId::Case => 0x04,
    }
}

/// The device part with wire code `v`.
pub open spec fn device_of(v: u8) -> Option<DeviceId> {
    if v == 0x02 {
        Some(DeviceId::Left)
    } else if v == 0x03 {
        Some(DeviceId::Right)
    } else if v == 0x04 {
        Some(DeviceId::Case)
    } else {
        None
    }
}

impl DeviceId {
    /// Decodes a device part; `None` for any other byte.
    pub fn from_u8(value: u8) -> (r: Option<DeviceId>)
        ensures
            r == device_of(value),
    {
        match value {
            0x02 => Some(DeviceId::Left),
            0x03 => Some(DeviceId::Right),
            0x04 => Some(DeviceId::Case),
            _ => None,
        }
    }

    /// Wire code of this device part.
    pub fn to_u8(&self) -> (r: u8)
        ensures
            r == device_code(*self),
    {
        match self {
            DeviceId::Left => 0x02,
            DeviceId::Right => 0x03,
            DeviceId::Case => 0x04,
        }
    }
}

/// Noise-control mode reported and accepted by the device.
#[derive(Debug, Clone, Copy, PartialEq, Eq, Structural)]
pub enum AncMode {
    Off,
    Transparent,
    NcLow,
    NcHigh,
    NcMid,
    NcAdaptive,
}

/// Wire code of a noise-control mode.
pub open spec fn anc_code(m: AncMode) -> u8 {
    match m {
        AncMode::Off => 0x05,
        AncMode::Transparent => 0x07,
        AncMode::NcLow => 0x03,
        AncMode::NcHigh => 0x01,
        AncMode::NcMid => 0x02,
        AncMode::NcAdaptive => 0x04,
    }
}

/// The noise-control mode with wire code `v`.
pub open spec fn anc_of(v: u8) -> Option<AncMode> {
    if v == 0x05 {
        Some(AncMode::Off)
    } else if v == 0x07 {
        Some(AncMode::Transparent)
    } else if v == 0x03 {
        Some(AncMode::NcLow)
    } else if v == 0x01 {
        Some(AncMode::NcHigh)
    } else if v == 0x02 {
        Some(AncMode::NcMid)
    } else if v == 0x04 {
        Some(AncMode::NcAdaptive)
    } else {
        None
    }
}

impl AncMode {
    /// Decodes a noise-control mode; `None` for any other byte.
    pub fn from_u8(value: u8) -> (r: Option<AncMode>)
        ensures
            r == anc_of(value),
    {
        match value {
            0x05 => Some(AncMode::Off),
            0x07 => Some(AncMode::Transparent),
            0x03 => Some(AncMode::NcLow),
            0x01 => Some(AncMode::NcHigh),
            0x02 => Some(AncMode::NcMid),
            0x04 => Some(AncMode::NcAdaptive),
            _ => None,
        }
    }

    /// Wire code of this mode.
    pub fn to_u8(&self) -> (r: u8)
        ensures
            r == anc_code(*self),
    {
        match self {
            AncMode::Off => 0x05,
            AncMode::Transparent => 0x07,
            AncMode::NcLow => 0x03,
            AncMode::NcHigh => 0x01,
            AncMode::NcMid => 0x02,
            AncMode::NcAdaptive => 0x04,
        }
    }
}

/// Equalizer preset family.
#[derive(Debug, Clone, Copy, PartialEq, Eq, Structural)]
pub enum EqMode {
    Balanced,
    MoreTreble,
    MoreBass,
    Voice,
    Custom,
}

/// The equalizer mode with raw value `v`.
pub open spec fn eq_mode_of(v: u8) -> Option<EqMode> {
    if v == 0 {
        Some(EqMode::Balanced)
    } else if v == 1 {
        Some(EqMode::MoreTreble)
    } else if v == 2 {
        Some(EqMode::MoreBass)
    } else if v == 3 {
        Some(EqMode::Voice)
    } else if v == 6 {
        Some(EqMode::Custom)
    } else {
        None
    }
}

impl EqMode {
    /// Decodes an equalizer mode; `None` for any other byte.
    pub fn from_u8(value: u8) -> (r: Option<EqMode>)
        ensures
            r == eq_mode_of(value),
    {
        match value {
            0 => Some(EqMode::Balanced),
            1 => Some(EqMode::MoreTreble),
            2 => Some(EqMode::MoreBass),
            3 => Some(EqMode::Voice),
            6 => Some(EqMode::Custom),
            _ => None,
        }
    }
}

/// Touch gesture kinds.
#[derive(Debug, Clone, Copy, PartialEq, Eq, Structural)]
pub enum GestureType {
    DoubleTap,
    TripleTap,
    TapAndHold,
    DoubleTapAndHold,
}

/// The gesture kind with wire code `v`.
pub open spec fn gesture_type_of(v: u8) -> Option<GestureType> {
    if v == 2 {
        Some(GestureType::DoubleTap)
    } else if v == 3 {
        Some(GestureType::TripleTap)
    } else if v == 7 {
        Some(GestureType::TapAndHold)
    } else if v == 9 {
        Some(GestureType::DoubleTapAndHold)
    } else {
        None
    }
}

impl GestureType {
    /// Decodes a gesture kind; `None` for any other byte.
    pub fn from_u8(value: u8) -> (r: Option<GestureType>)
        ensures
            r == gesture_type_of(value),
    {
        match value {
            2 => Some(GestureType::DoubleTap),
            3 => Some(GestureType::TripleTap),
            7 => Some(GestureType::TapAndHold),
            9 => Some(GestureType::DoubleTapAndHold),
            _ => None,
        }
    }
}

/// Action bound to a gesture.
#[derive(Debug, Clone, Copy, PartialEq, Eq, Structural)]
pub enum GestureAction {
    NoAction,
    SkipBack,
    SkipForward,
    VoiceAssistant,
    NoiseControl,
    VolumeUp,
    VolumeDown,
    NoiseControlToggles(u8),
    Unknown(u8),
}

/// The gesture action that raw byte `v` stands for.
pub open spec fn gesture_action_of(v: u8) -> GestureAction {
    if v == 1 {
        GestureAction::NoAction
    } else if v == 8 {
        GestureAction::SkipBack
    } else if v == 9 {
        GestureAction::SkipForward
    } else if v == 11 {
        GestureAction::VoiceAssistant
    } else if v == 10 {
        GestureAction::NoiseControl
    } else if v == 18 {
        GestureAction::VolumeUp
    } else if v == 19 {
        GestureAction::VolumeDown
    } else if 20 <= v <= 22 {
        GestureAction::NoiseControlToggles(v)
    } else {
        GestureAction::Unknown(v)
    }
}

/// Raw byte of a gesture action.
pub open spec fn gesture_action_code(a: GestureAction) -> u8 {
    match a {
        GestureAction::NoAction => 1,
        GestureAction::SkipBack => 8,
        GestureAction::SkipForward => 9,
        GestureAction::VoiceAssistant => 11,
        GestureAction::NoiseControl => 10,
        GestureAction::VolumeUp => 18,
        GestureAction::VolumeDown => 19,
        GestureAction::NoiseControlToggles(v) => v,
        GestureAction::Unknown(v) => v,
    }
}

/// Whether an action is one that decoding can produce (its payload byte, if
/// any, is the one decoding would give it).
pub open spec fn gesture_action_canonical(a: GestureAction) -> bool {
    gesture_action_of(gesture_action_code(a)) == a
}

impl GestureAction {
    /// Decodes a gesture action; every byte decodes to some action.
    pub fn from_u8(value: u8) -> (r: GestureAction)
        ensures
            r == gesture_action_of(value),
    {
        match value {
            1 => GestureAction::NoAction,
            8 => GestureAction::SkipBack,
            9 => GestureAction::SkipForward,
            11 => GestureAction::VoiceAssistant,
            10 => GestureAction::NoiseControl,
            18 => GestureAction::VolumeUp,
            19 => GestureAction::VolumeDown,
            20 | 21 | 22 => GestureAction::NoiseControlToggles(value),
            _ => GestureAction::Unknown(value),
        }
    }

    /// Raw byte of this action.
    pub fn to_u8(&self) -> (r: u8)
        ensures
            r == gesture_action_code(*self),
    {
        match self {
            GestureAction::NoAction => 1,
            GestureAction::SkipBack => 8,
            GestureAction::SkipForward => 9,
            GestureAction::VoiceAssistant => 11,
            GestureAction::NoiseControl => 10,
            GestureAction::VolumeUp => 18,
            GestureAction::VolumeDown => 19,
            GestureAction::NoiseControlToggles(v) => *v,
            GestureAction::Unknown(v) => *v,
        }
    }
}

/// Encoding a decoded gesture byte gives the byte back, for every byte.
pub proof fn lemma_gesture_action_byte_roundtrip(v: u8)
    ensures
        gesture_action_code(gesture_action_of(v)) == v,
{
}

/// Decoding the byte of a canonical action gives the action back; the
/// canonical actions are exactly the named ones, the toggles 20 to 22 and
/// `Unknown` of a byte that no named action or toggle uses.
pub proof fn lemma_gesture_action_roundtrip(a: GestureAction)
    ensures
        gesture_action_canonical(a) <==> (match a {
            GestureAction::NoiseControlToggles(v) => 20 <= v <= 22,
            GestureAction::Unknown(v) => !(v == 1 || v == 8 || v == 9 || v == 10 || v == 11
                || v == 18 || v == 19 || (20 <= v <= 22)),
            _ => true,
        }),
{
}

/// Decoding the code of any device part, noise mode or command gives it back.
pub proof fn lemma_codes_roundtrip(d: DeviceId, m: AncMode, c: PacketCommand)
    ensures
        device_of(device_code(d)) == Some(d),
        anc_of(anc_code(m)) == Some(m),
        command_of(command_code(c)) == Some(c),
{
    lemma_command_of_code(c);
}

/// Charge level and charging flag of one part.
#[derive(Debug, Clone, Copy, PartialEq, Eq, Structural)]
pub struct BatteryStatus {
    pub level: u8,
    pub is_charging: bool,
}

/// Battery state of the left bud, the right bud and the case.
#[derive(Debug, Clone, Copy, PartialEq, Eq, Structural)]
pub struct DeviceBattery {
    pub left: Option<BatteryStatus>,
    pub right: Option<BatteryStatus>,
    pub case: Option<BatteryStatus>,
}

impl Default for DeviceBattery {
    fn default() -> (r: DeviceBattery)
        ensures
            r == (DeviceBattery { left: None, right: None, case: None }),
    {
        DeviceBattery::empty()
    }
}

impl DeviceBattery {
    /// No part reported.
    pub fn empty() -> (r: DeviceBattery)
        ensures
            r == (DeviceBattery { left: None, right: None, case: None }),
    {
        DeviceBattery { left: None, right: None, case: None }
    }
}

/// A gesture binding reported by the device.
#[derive(Debug, Clone, Copy, PartialEq, Eq, Structural)]
pub struct Gesture {
    pub device: DeviceId,
    pub gesture_type: GestureType,
    pub action: GestureAction,
}

/// What `crc::Crc::<u16>::checksum` computes under the CRC parameters of the
/// protocol (width 16, polynomial 0x8005, initial value 0xffff, reflected
/// input and output, no final xor).
pub uninterp spec fn crc16_modbus(data: Seq<u8>) -> u16;

/// Checksum of a frame. Calls `crc::Crc::<u16>::new` with the catalog entry
/// `CRC_16_MODBUS`, whose parameters (width 16, polynomial 0x8005, init
/// 0xffff, reflected in and out, xorout 0) are the protocol's, and then
/// `checksum`. The contract names the result as a function of the bytes.
#[verifier::external_body]
pub fn calculate_crc(data: &[u8]) -> (r: u16)
    ensures
        r == crc16_modbus(data@),
{
    crc::Crc::<u16>::new(&crc::CRC_16_MODBUS).checksum(data)
}

/// Start byte of every frame.
pub const FRAME_MARKER: u8 = 0x55;

/// A command together with its payload and operation number.
#[derive(Debug)]
pub struct Packet {
    pub command: PacketCommand,
    pub payload: Vec<u8>,
    pub operation_id: u8,
}

/// Mathematical value of a packet.
pub struct PacketView {
    pub command: PacketCommand,
    pub payload: Seq<u8>,
    pub operation_id: u8,
}

impl View for Packet {
    type V = PacketView;

    open spec fn view(&self) -> PacketView {
        PacketView { command: self.command, payload: self.payload@, operation_id: self.operation_id }
    }
}

impl Clone for Packet {
    fn clone(&self) -> (r: Self)
        ensures
            r@ == self@,
    {
        Packet {
            command: self.command,
            payload: copy_bytes(&self.payload),
            operation_id: self.operation_id,
        }
    }
}

/// A fresh vector with the same bytes.
pub fn copy_bytes(v: &Vec<u8>) -> (r: Vec<u8>)
    ensures
        r@ == v@,
{
    vstd::slice::slice_to_vec(v.as_slice())
}

/// First eight bytes of the frame of `p`: marker, protocol constants, the
/// command code in little-endian order, the payload length modulo 256, a zero
/// byte and the operation number.
pub open spec fn frame_header(p: PacketView) -> Seq<u8> {
    seq![
        0x55u8,
        0x60u8,
        0x01u8,
        (command_code(p.command) % 256) as u8,
        (command_code(p.command) / 256) as u8,
        (p.payload.len() % 256) as u8,
        0u8,
        p.operation_id,
    ]
}

/// The complete frame of `p`: header, payload and the checksum of both in
/// little-endian order.
pub open spec fn encode_packet(p: PacketView) -> Seq<u8> {
    let body = frame_header(p) + p.payload;
    let crc = crc16_modbus(body);
    body + seq![(crc % 256) as u8, (crc / 256) as u8]
}

/// The packet that a frame starting at index 0 of `b` carries. The checksum is
/// not checked; bytes after the frame are ignored.
pub open spec fn decode_packet(b: Seq<u8>) -> Option<PacketView> {
    if b.len() < 10 || b[0] != 0x55 {
        None
    } else {
        match command_of((b[3] + b[4] * 256) as u16) {
            None => None,
            Some(c) => if b.len() < 10 + b[5] {
                None
            } else {
                Some(
                    PacketView {
                        command: c,
                        payload: b.subrange(8, 8 + b[5]),
                        operation_id: b[7],
                    },
                )
            },
        }
    }
}

/// Total length of the frame that starts at index 0 of `b`, once its length
/// byte has arrived.
pub open spec fn frame_len(b: Seq<u8>) -> Option<int> {
    if b.len() < 6 {
        None
    } else {
        Some(10 + b[5])
    }
}

impl Packet {
    /// A packet with the given parts.
    pub fn new(command: PacketCommand, payload: Vec<u8>, operation_id: u8) -> (r: Packet)
        ensures
            r.command == command,
            r.payload@ == payload@,
            r.operation_id == operation_id,
    {
        Packet { command, payload, operation_id }
    }

    /// The frame of this packet; a payload longer than 255 bytes has its length
    /// byte taken modulo 256.
    pub fn to_bytes(&self) -> (r: Vec<u8>)
        ensures
            r@ == encode_packet(self@),
    {
        let code = self.command.to_u16();
        let mut data: Vec<u8> = Vec::new();
        data.push(0x55);
        data.push(0x60);
        data.push(0x01);
        data.push((code % 256) as u8);
        data.push((code / 256) as u8);
        data.push((self.payload.len() % 256) as u8);
        data.push(0);
        data.push(self.operation_id);
        proof {
            assert(data@ =~= frame_header(self@));
        }
        let n = self.payload.len();
        let mut i: usize = 0;
        while i < n
            invariant
                n == self.payload@.len(),
                i <= n,
                data@ =~= frame_header(self@) + self.payload@.take(i as int),
            decreases n - i,
        {
            data.push(self.payload[i]);
            i = i + 1;
            proof {
                assert(self.payload@.take(i as int) =~= self.payload@.take(i - 1) + seq![
                    self.payload@[i - 1],
                ]);
            }
        }
        proof {
            assert(self.payload@.take(n as int) =~= self.payload@);
        }
        let crc = calculate_crc(data.as_slice());
        data.push((crc % 256) as u8);
        data.push((crc / 256) as u8);
        proof {
            assert(data@ =~= encode_packet(self@));
        }
        data
    }

    /// Length of the frame that begins at the start of `bytes`, or `None` while
    /// fewer than six bytes (the length byte) are there.
    pub fn encoded_len(bytes: &[u8]) -> (r: Option<usize>)
        ensures
            match r {
                Some(n) => frame_len(bytes@) == Some(n as int),
                None => frame_len(bytes@) is None,
            },
    {
        if bytes.len() < 6 {
            None
        } else {
            Some(10 + bytes[5] as usize)
        }
    }

    /// Reads the packet whose frame starts at the beginning of `bytes`:
    /// `None` when fewer than ten bytes are there, the marker is missing, the
    /// command code is unknown or the payload is cut short.
    pub fn from_bytes(bytes: &[u8]) -> (r: Option<Packet>)
        ensures
            match r {
                Some(p) => decode_packet(bytes@) == Some(p@),
                None => decode_packet(bytes@) is None,
            },
    {
        if bytes.len() < 10 || bytes[0] != 0x55 {
            return None;
        }
        let code: u16 = bytes[3] as u16 + (bytes[4] as u16) * 256;
        let command = match PacketCommand::from_u16(code) {
            Some(c) => c,
            None => {
                return None;
            },
        };
        let len = bytes[5] as usize;
        let op = bytes[7];
        if bytes.len() < 10 + len {
            return None;
        }
        let payload = vstd::slice::slice_to_vec(vstd::slice::slice_subrange(bytes, 8, 8 + len));
        Some(Packet { command, payload, operation_id: op })
    }
}

/// Reading back the frame of a packet gives the packet, when its payload fits
/// the length byte.
pub proof fn lemma_decode_encode(p: PacketView)
    requires
        p.payload.len() <= 255,
    ensures
        decode_packet(encode_packet(p)) == Some(p),
{
    let b = encode_packet(p);
    let code = command_code(p.command);
    assert(b[0] == 0x55);
    assert(b[3] == (code % 256) as u8);
    assert(b[4] == (code / 256) as u8);
    assert((b[3] + b[4] * 256) as u16 == code);
    lemma_command_of_code(p.command);
    assert(b[5] == p.payload.len());
    assert(b.subrange(8, 8 + b[5]) =~= p.payload);
}

/// Reading a frame only looks at the frame: appending bytes after a decodable
/// frame does not change what it decodes to.
pub proof fn lemma_decode_prefix(b: Seq<u8>, rest: Seq<u8>)
    requires
        decode_packet(b) is Some,
    ensures
        decode_packet(b + rest) == decode_packet(b),
{
    let c = b + rest;
    assert(c.subrange(8, 8 + b[5]) =~= b.subrange(8, 8 + b[5]));
}

/// The three custom-equalizer bands as raw single-precision bit patterns, in
/// the order low, mid, high.
#[derive(Debug, Clone, Copy, PartialEq, Eq, Structural)]
pub struct EqBandBits {
    pub low: u32,
    pub mid: u32,
    pub high: u32,
}

/// A decoded device response.
#[derive(Debug)]
pub enum ParsedResponse {
    Battery(DeviceBattery),
    Anc(AncMode),
    Eq { mode: EqMode, preset: u8 },
    Firmware(String),
    InEar(bool),
    Latency(bool),
    Gestures(Vec<Gesture>),
    EnhancedBass { enabled: bool, level: u8 },
    CustomEq(EqBandBits),
    EarFitTest { left: u8, right: u8 },
    Sku(String),
    PersonalizedAnc(bool),
    AdvancedEq(bool),
    Unknown(u16, Vec<u8>),
}

/// Mathematical value of a decoded response.
pub enum ResponseView {
    Battery(DeviceBattery),
    Anc(AncMode),
    Eq { mode: EqMode, preset: u8 },
    Firmware(Seq<char>),
    InEar(bool),
    Latency(bool),
    Gestures(Seq<Gesture>),
    EnhancedBass { enabled: bool, level: u8 },
    CustomEq(EqBandBits),
    EarFitTest { left: u8, right: u8 },
    Sku(Seq<char>),
    PersonalizedAnc(bool),
    AdvancedEq(bool),
    Unknown(u16, Seq<u8>),
}

impl View for ParsedResponse {
    type V = ResponseView;

    open spec fn view(&self) -> ResponseView {
        match self {
            ParsedResponse::Battery(b) => ResponseView::Battery(*b),
            ParsedResponse::Anc(m) => ResponseView::Anc(*m),
            ParsedResponse::Eq { mode, preset } => ResponseView::Eq { mode: *mode, preset: *preset },
            ParsedResponse::Firmware(s) => ResponseView::Firmware(s@),
            ParsedResponse::InEar(b) => ResponseView::InEar(*b),
            ParsedResponse::Latency(b) => ResponseView::Latency(*b),
            ParsedResponse::Gestures(g) => ResponseView::Gestures(g@),
            ParsedResponse::EnhancedBass { enabled, level } => ResponseView::EnhancedBass {
                enabled: *enabled,
                level: *level,
            },
            ParsedResponse::CustomEq(b) => ResponseView::CustomEq(*b),
            ParsedResponse::EarFitTest { left, right } => ResponseView::EarFitTest {
                left: *left,
                right: *right,
            },
            ParsedResponse::Sku(s) => ResponseView::Sku(s@),
            ParsedResponse::PersonalizedAnc(b) => ResponseView::PersonalizedAnc(*b),
            ParsedResponse::AdvancedEq(b) => ResponseView::AdvancedEq(*b),
            ParsedResponse::Unknown(c, p) => ResponseView::Unknown(*c, p@),
        }
    }
}

/// Byte `i` of a payload, or 0 when the payload is shorter.
pub open spec fn byte_or_zero(p: Seq<u8>, i: int) -> u8 {
    if 0 <= i < p.len() {
        p[i]
    } else {
        0
    }
}

/// Status byte of one battery entry: the low seven bits are the level, the top
/// bit the charging flag.
pub open spec fn battery_status_of(s: u8) -> BatteryStatus {
    BatteryStatus { level: s % 128, is_charging: s >= 128 }
}

/// Number of battery entries read: the count in byte 0, bounded by the
/// complete two-byte entries that follow it.
pub open spec fn battery_entry_count(p: Seq<u8>) -> int {
    if p.len() == 0 {
        0
    } else if p[0] <= (p.len() - 1) / 2 {
        p[0] as int
    } else {
        (p.len() - 1) / 2
    }
}

/// The battery state after the first `k` entries, a later entry for a part
/// replacing an earlier one; entries for unknown parts are ignored.
pub open spec fn battery_after(p: Seq<u8>, k: int) -> DeviceBattery
    decreases k,
{
    if k <= 0 {
        DeviceBattery { left: None, right: None, case: None }
    } else {
        let b = battery_after(p, k - 1);
        let stat = battery_status_of(p[2 * k]);
        match device_of(p[2 * k - 1]) {
            Some(DeviceId::Left) => DeviceBattery { left: Some(stat), ..b },
            Some(DeviceId::Right) => DeviceBattery { right: Some(stat), ..b },
            Some(DeviceId::Case) => DeviceBattery { case: Some(stat), ..b },
            None => b,
        }
    }
}

/// Number of gesture entries read: the count in byte 0, bounded by the
/// complete four-byte entries that follow it.
pub open spec fn gesture_entry_count(p: Seq<u8>) -> int {
    if p.len() == 0 {
        0
    } else if p[0] <= (p.len() - 1) / 4 {
        p[0] as int
    } else {
        (p.len() - 1) / 4
    }
}

/// The gestures of the first `k` entries, in order; an entry whose part or
/// gesture kind is unknown is skipped.
pub open spec fn gestures_after(p: Seq<u8>, k: int) -> Seq<Gesture>
    decreases k,
{
    if k <= 0 {
        Seq::empty()
    } else {
        let g = gestures_after(p, k - 1);
        match (device_of(p[4 * k - 3]), gesture_type_of(p[4 * k - 1])) {
            (Some(d), Some(t)) => g.push(
                Gesture { device: d, gesture_type: t, action: gesture_action_of(p[4 * k]) },
            ),
            _ => g,
        }
    }
}

/// Bit pattern of one equalizer band stored at `base`: the four bytes read in
/// little-endian order, except that a pattern whose upper three bytes are zero
/// and whose lowest byte has its top bit set stands for the negated value of
/// that byte without its top bit.
pub open spec fn band_bits(p: Seq<u8>, base: int) -> u32 {
    let b0 = p[base];
    let b1 = p[base + 1];
    let b2 = p[base + 2];
    let b3 = p[base + 3];
    if b1 == 0 && b2 == 0 && b3 == 0 && b0 >= 128 {
        (0x8000_0000 + (b0 - 128)) as u32
    } else {
        (b0 + b1 * 0x100 + b2 * 0x1_0000 + b3 * 0x100_0000) as u32
    }
}

/// What a packet decodes to.
#[verifier::opaque]
pub open spec fn parse_response(p: PacketView) -> ResponseView {
    let pl = p.payload;
    let unknown = ResponseView::Unknown(command_code(p.command), pl);
    match p.command {
        PacketCommand::RespBattery | PacketCommand::RespBatteryAlt => ResponseView::Battery(
            battery_after(pl, battery_entry_count(pl)),
        ),
        PacketCommand::RespAnc | PacketCommand::RespAncAlt => match anc_of(byte_or_zero(pl, 1)) {
            Some(m) => ResponseView::Anc(m),
            None => unknown,
        },
        PacketCommand::RespEq | PacketCommand::RespEqAlt => ResponseView::Eq {
            mode: match eq_mode_of(byte_or_zero(pl, 0)) {
                Some(m) => m,
                None => EqMode::Balanced,
            },
            preset: byte_or_zero(pl, 0),
        },
        PacketCommand::RespFirmware => ResponseView::Firmware(utf8_lossy(pl)),
        PacketCommand::RespInEar => ResponseView::InEar(byte_or_zero(pl, 2) != 0),
        PacketCommand::RespLatency => ResponseView::Latency(byte_or_zero(pl, 0) != 0),
        PacketCommand::RespGesture => ResponseView::Gestures(
            gestures_after(pl, gesture_entry_count(pl)),
        ),
        PacketCommand::RespAdvancedEqStatus => ResponseView::AdvancedEq(
            pl.len() > 0 && pl[0] == 1,
        ),
        PacketCommand::RespCustomEq | PacketCommand::ReadCustomEq => if pl.len() >= 45 {
            ResponseView::CustomEq(
                EqBandBits {
                    low: band_bits(pl, 32),
                    mid: band_bits(pl, 6),
                    high: band_bits(pl, 19),
                },
            )
        } else {
            unknown
        },
        PacketCommand::RespEarFitTest => if pl.len() >= 2 {
            ResponseView::EarFitTest { left: pl[0], right: pl[1] }
        } else {
            unknown
        },
        PacketCommand::RespEnhancedBass | PacketCommand::ReadEnhancedBass => if pl.len() >= 2 {
            ResponseView::EnhancedBass { enabled: pl[0] == 1, level: (pl[1] / 2) as u8 }
        } else {
            unknown
        },
        PacketCommand::RespPersonalizedAnc
        | PacketCommand::ReadPersonalizedAnc => ResponseView::PersonalizedAnc(
            pl.len() > 0 && pl[0] == 1,
        ),
        PacketCommand::RespSku | PacketCommand::ReadSku | PacketCommand::ReadSkuAlt => {
            ResponseView::Sku(
                if pl.len() >= 2 {
                    hex2(pl[1])
                } else if pl.len() == 1 {
                    hex2(pl[0])
                } else {
                    seq!['u', 'n', 'k', 'n', 'o', 'w', 'n']
                },
            )
        },
        _ => unknown,
    }
}

/// Byte `i` of `v`, or 0 when `v` is shorter.
fn get_or_zero(v: &Vec<u8>, i: usize) -> (r: u8)
    ensures
        r == byte_or_zero(v@, i as int),
{
    if i < v.len() {
        v[i]
    } else {
        0
    }
}

fn read_band_bits(p: &Vec<u8>, base: usize) -> (r: u32)
    requires
        base + 3 < p@.len(),
    ensures
        r == band_bits(p@, base as int),
{
    let n = p.len();
    assert(base + 3 < n);
    let b0 = p[base];
    let b1 = p[base + 1];
    let b2 = p[base + 2];
    let b3 = p[base + 3];
    if b1 == 0 && b2 == 0 && b3 == 0 && b0 >= 128 {
        0x8000_0000u32 + (b0 - 128) as u32
    } else {
        b0 as u32 + (b1 as u32) * 0x100 + (b2 as u32) * 0x1_0000 + (b3 as u32) * 0x100_0000
    }
}

fn parse_battery(p: &Vec<u8>) -> (r: DeviceBattery)
    ensures
        r == battery_after(p@, battery_entry_count(p@)),
{
    let mut battery = DeviceBattery::empty();
    let count: usize = get_or_zero(p, 0) as usize;
    let n = p.len();
    let mut i: usize = 0;
    while i < count
        invariant
            n == p@.len(),
            count == byte_or_zero(p@, 0),
            i <= count,
            i <= battery_entry_count(p@),
            battery == battery_after(p@, i as int),
        ensures
            battery == battery_after(p@, battery_entry_count(p@)),
        decreases count - i,
    {
        let base = 1 + i * 2;
        if base + 1 >= n {
            assert(i == battery_entry_count(p@));
            break;
        }
        let id = p[base];
        let st = p[base + 1];
        let stat = BatteryStatus { level: st % 128, is_charging: st >= 128 };
        match DeviceId::from_u8(id) {
            Some(DeviceId::Left) => {
                battery.left = Some(stat);
            },
            Some(DeviceId::Right) => {
                battery.right = Some(stat);
            },
            Some(DeviceId::Case) => {
                battery.case = Some(stat);
            },
            None => {},
        }
        i = i + 1;
    }
    battery
}

fn parse_gestures(p: &Vec<u8>) -> (r: Vec<Gesture>)
    ensures
        r@ == gestures_after(p@, gesture_entry_count(p@)),
{
    let mut out: Vec<Gesture> = Vec::new();
    let count: usize = get_or_zero(p, 0) as usize;
    let n = p.len();
    let mut i: usize = 0;
    while i < count
        invariant
            n == p@.len(),
            count == byte_or_zero(p@, 0),
            i <= count,
            i <= gesture_entry_count(p@),
            out@ == gestures_after(p@, i as int),
        ensures
            out@ == gestures_after(p@, gesture_entry_count(p@)),
        decreases count - i,
    {
        let base = 1 + i * 4;
        if base + 3 >= n {
            assert(i == gesture_entry_count(p@));
            break;
        }
        let d = DeviceId::from_u8(p[base]);
        let t = GestureType::from_u8(p[base + 2]);
        match (d, t) {
            (Some(d), Some(t)) => {
                out.push(
                    Gesture { device: d, gesture_type: t, action: GestureAction::from_u8(p[base + 3]) },
                );
            },
            _ => {},
        }
        i = i + 1;
    }
    out
}

impl Packet {
    /// Decodes the response carried by this packet.
    pub fn parse(&self) -> (r: ParsedResponse)
        ensures
            r@ == parse_response(self@),
    {
        proof {
            reveal(parse_response);
        }
        let pl = &self.payload;
        let code = self.command.to_u16();
        match self.command {
            PacketCommand::RespBattery | PacketCommand::RespBatteryAlt => {
                ParsedResponse::Battery(parse_battery(pl))
            },
            PacketCommand::RespAnc | PacketCommand::RespAncAlt => {
                match AncMode::from_u8(get_or_zero(pl, 1)) {
                    Some(m) => ParsedResponse::Anc(m),
                    None => ParsedResponse::Unknown(code, copy_bytes(pl)),
                }
            },
            PacketCommand::RespEq | PacketCommand::RespEqAlt => {
                let preset = get_or_zero(pl, 0);
                let mode = match EqMode::from_u8(preset) {
                    Some(m) => m,
                    None => EqMode::Balanced,
                };
                ParsedResponse::Eq { mode, preset }
            },
            PacketCommand::RespFirmware => ParsedResponse::Firmware(lossy_utf8(pl.as_slice())),
            PacketCommand::RespInEar => ParsedResponse::InEar(get_or_zero(pl, 2) != 0),
            PacketCommand::RespLatency => ParsedResponse::Latency(get_or_zero(pl, 0) != 0),
            PacketCommand::RespGesture => ParsedResponse::Gestures(parse_gestures(pl)),
            PacketCommand::RespAdvancedEqStatus => {
                ParsedResponse::AdvancedEq(pl.len() > 0 && pl[0] == 1)
            },
            PacketCommand::RespCustomEq | PacketCommand::ReadCustomEq => {
                if pl.len() >= 45 {
                    ParsedResponse::CustomEq(
                        EqBandBits {
                            low: read_band_bits(pl, 32),
                            mid: read_band_bits(pl, 6),
                            high: read_band_bits(pl, 19),
                        },
                    )
                } else {
                    ParsedResponse::Unknown(code, copy_bytes(pl))
                }
            },
            PacketCommand::RespEarFitTest => {
                if pl.len() >= 2 {
                    ParsedResponse::EarFitTest { left: pl[0], right: pl[1] }
                } else {
                    ParsedResponse::Unknown(code, copy_bytes(pl))
                }
            },
            PacketCommand::RespEnhancedBass | PacketCommand::ReadEnhancedBass => {
                if pl.len() >= 2 {
                    ParsedResponse::EnhancedBass { enabled: pl[0] == 1, level: pl[1] / 2 }
                } else {
                    ParsedResponse::Unknown(code, copy_bytes(pl))
                }
            },
            PacketCommand::RespPersonalizedAnc | PacketCommand::ReadPersonalizedAnc => {
                ParsedResponse::PersonalizedAnc(pl.len() > 0 && pl[0] == 1)
            },
            PacketCommand::RespSku | PacketCommand::ReadSku | PacketCommand::ReadSkuAlt => {
                let sku = if pl.len() >= 2 {
                    byte_hex(pl[1])
                } else if pl.len() == 1 {
                    byte_hex(pl[0])
                } else {
                    let u = owned("unknown");
                    proof {
                        reveal_strlit("unknown");
                        assert(u@ =~= seq!['u', 'n', 'k', 'n', 'o', 'w', 'n']);
                    }
                    u
                };
                ParsedResponse::Sku(sku)
            },
            _ => ParsedResponse::Unknown(code, copy_bytes(pl)),
        }
    }
}


/// The response decoded from a packet with command `c` and payload `pl`.
pub open spec fn report_of(c: PacketCommand, pl: Seq<u8>, op: u8) -> ResponseView {
    parse_response(PacketView { command: c, payload: pl, operation_id: op })
}

/// An enhanced-bass report of at least two bytes `[e, l, ..]` reads as
/// enabled exactly when `e` is 1, whatever `l`, and with level `l / 2`; a
/// shorter one is not understood. The same holds of the answer to a read.
pub proof fn lemma_enhanced_bass_report(pl: Seq<u8>, op: u8)
    ensures
        pl.len() >= 2 ==> report_of(PacketCommand::RespEnhancedBass, pl, op)
            == (ResponseView::EnhancedBass { enabled: pl[0] == 1, level: (pl[1] / 2) as u8 }),
        pl.len() >= 2 ==> report_of(PacketCommand::ReadEnhancedBass, pl, op)
            == (ResponseView::EnhancedBass { enabled: pl[0] == 1, level: (pl[1] / 2) as u8 }),
        pl.len() < 2 ==> (report_of(PacketCommand::RespEnhancedBass, pl, op) is Unknown),
{
    reveal(parse_response);
}

/// The on/off reports: low latency is on when the first byte is present and
/// not zero; in-ear detection when the third byte is present and not zero;
/// personalized noise cancellation and the advanced equalizer when the first
/// byte is 1. The ear-tip fit test reports the left and right results in its
/// first two bytes.
pub proof fn lemma_switch_reports(pl: Seq<u8>, op: u8)
    ensures
        report_of(PacketCommand::RespLatency, pl, op) == ResponseView::Latency(
            pl.len() >= 1 && pl[0] != 0,
        ),
        report_of(PacketCommand::RespInEar, pl, op) == ResponseView::InEar(pl.len() >= 3 && pl[2] != 0),
        report_of(PacketCommand::RespPersonalizedAnc, pl, op) == ResponseView::PersonalizedAnc(
            pl.len() >= 1 && pl[0] == 1,
        ),
        report_of(PacketCommand::RespAdvancedEqStatus, pl, op) == ResponseView::AdvancedEq(
            pl.len() >= 1 && pl[0] == 1,
        ),
        pl.len() >= 2 ==> report_of(PacketCommand::RespEarFitTest, pl, op)
            == (ResponseView::EarFitTest { left: pl[0], right: pl[1] }),
{
    reveal(parse_response);
}

/// A noise-control report gives the mode of its second byte: 5 off,
/// 7 transparent, 3 low, 1 high, 2 mid, 4 adaptive noise cancellation; any
/// other byte, or a missing one, is not understood.
pub proof fn lemma_anc_report_modes(pl: Seq<u8>, op: u8)
    ensures
        ({
            let v: u8 = if pl.len() >= 2 {
                pl[1]
            } else {
                0
            };
            let r = report_of(PacketCommand::RespAnc, pl, op);
            &&& v == 5 ==> r == ResponseView::Anc(AncMode::Off)
            &&& v == 7 ==> r == ResponseView::Anc(AncMode::Transparent)
            &&& v == 3 ==> r == ResponseView::Anc(AncMode::NcLow)
            &&& v == 1 ==> r == ResponseView::Anc(AncMode::NcHigh)
            &&& v == 2 ==> r == ResponseView::Anc(AncMode::NcMid)
            &&& v == 4 ==> r == ResponseView::Anc(AncMode::NcAdaptive)
            &&& !(v == 1 || v == 2 || v == 3 || v == 4 || v == 5 || v == 7) ==> r is Unknown
        }),
{
    reveal(parse_response);
}

/// An equalizer report gives its first byte (0 when missing) as the preset,
/// and as the mode 0 balanced, 1 more treble, 2 more bass, 3 voice, 6 custom,
/// and balanced for any other value.
pub proof fn lemma_eq_report_modes(pl: Seq<u8>, op: u8)
    ensures
        ({
            let v: u8 = if pl.len() >= 1 {
                pl[0]
            } else {
                0
            };
            let mode = if v == 1 {
                EqMode::MoreTreble
            } else if v == 2 {
                EqMode::MoreBass
            } else if v == 3 {
                EqMode::Voice
            } else if v == 6 {
                EqMode::Custom
            } else {
                EqMode::Balanced
            };
            report_of(PacketCommand::RespEq, pl, op) == ResponseView::Eq { mode, preset: v }
        }),
{
    reveal(parse_response);
}

/// Value of a lower-case hexadecimal digit, or -1 for any other character.
pub open spec fn hex_value(c: char) -> int {
    if '0' <= c && c <= '9' {
        (c as int) - ('0' as int)
    } else if 'a' <= c && c <= 'f' {
        (c as int) - ('a' as int) + 10
    } else {
        -1
    }
}

/// A SKU report gives its second byte (or its only byte) as two lower-case
/// hexadecimal digits, most significant first; an empty one gives "unknown".
pub proof fn lemma_sku_report_digits(pl: Seq<u8>, op: u8)
    ensures
        pl.len() >= 1 ==> ({
            let b: u8 = if pl.len() >= 2 {
                pl[1]
            } else {
                pl[0]
            };
            report_of(PacketCommand::RespSku, pl, op) matches ResponseView::Sku(t) && t.len() == 2
                && 0 <= hex_value(t[0]) && 0 <= hex_value(t[1]) && hex_value(t[0]) * 16 + hex_value(
                t[1],
            ) == b
        }),
        pl.len() == 0 ==> report_of(PacketCommand::RespSku, pl, op) == ResponseView::Sku(
            "unknown"@,
        ),
{
    reveal(parse_response);
    reveal_strlit("unknown");
    assert(seq!['u', 'n', 'k', 'n', 'o', 'w', 'n'] =~= "unknown"@);
    if pl.len() >= 1 {
        let b: u8 = if pl.len() >= 2 {
            pl[1]
        } else {
            pl[0]
        };
        lemma_hex_digit_value((b / 16) as int);
        lemma_hex_digit_value((b % 16) as int);
    }
}

/// A digit written by `hex_char` reads back as its value.
proof fn lemma_hex_digit_value(d: int)
    requires
        0 <= d < 16,
    ensures
        hex_value(hex_char(d)) == d,
{
}

/// Battery state read from a status byte: the low seven bits are the level
/// and the top bit tells whether the part charges.
pub open spec fn status_from(b: u8) -> BatteryStatus {
    BatteryStatus { level: (b % 128) as u8, is_charging: b >= 128 }
}

/// A battery report `[3, 2, a, 3, b, 4, c]` gives the left bud status `a`,
/// the right bud status `b` and the case status `c`; a report of a single
/// entry for a part gives that part alone.
pub proof fn lemma_battery_report(a: u8, b: u8, c: u8, op: u8)
    ensures
        report_of(PacketCommand::RespBattery, seq![3u8, 2u8, a, 3u8, b, 4u8, c], op)
            == ResponseView::Battery(
            DeviceBattery {
                left: Some(status_from(a)),
                right: Some(status_from(b)),
                case: Some(status_from(c)),
            },
        ),
        report_of(PacketCommand::RespBattery, seq![1u8, 2u8, a], op) == ResponseView::Battery(
            DeviceBattery { left: Some(status_from(a)), right: None, case: None },
        ),
        report_of(PacketCommand::RespBattery, seq![1u8, 3u8, a], op) == ResponseView::Battery(
            DeviceBattery { left: None, right: Some(status_from(a)), case: None },
        ),
        report_of(PacketCommand::RespBattery, seq![1u8, 4u8, a], op) == ResponseView::Battery(
            DeviceBattery { left: None, right: None, case: Some(status_from(a)) },
        ),
{
    reveal(parse_response);
    reveal_with_fuel(battery_after, 4);
}

} // verus!
