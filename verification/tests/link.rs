use ear_native::bluetooth::{BluetoothEvent, DiscoveredDevice, ManagerCommand, StreamRead};
use ear_native::link::{LinkInput, LinkManager, LinkStep};
use ear_native::protocol::{Packet, PacketCommand};

#[test]
fn connect_write_and_read() {
    let mut m = LinkManager::new();
    let s = m.step(LinkInput::Command(ManagerCommand::Connect("AA".to_string())));
    assert_eq!(s.len(), 1);
    assert!(matches!(&s[0], LinkStep::Connect(id) if id == "AA"));
    let s = m.step(LinkInput::Command(ManagerCommand::SendPacket(Packet::new(PacketCommand::ReadAnc, vec![], 1))));
    assert!(s.is_empty());
    let s = m.step(LinkInput::ConnectSucceeded("AA".to_string()));
    assert!(matches!(&s[0], LinkStep::Report(BluetoothEvent::Connected(id)) if id == "AA"));
    assert!(m.streaming);
    let s = m.step(LinkInput::Command(ManagerCommand::SendPacket(Packet::new(PacketCommand::ReadAnc, vec![], 2))));
    assert!(matches!(&s[0], LinkStep::Write(p) if p.operation_id == 2));

    let frame = Packet::new(PacketCommand::RespAnc, vec![1, 5], 3).to_bytes();
    let s = m.step(LinkInput::Read(StreamRead::Data(frame[..4].to_vec())));
    assert!(s.is_empty());
    let s = m.step(LinkInput::Read(StreamRead::Data(frame[4..].to_vec())));
    assert_eq!(s.len(), 1);
    assert!(matches!(&s[0], LinkStep::Report(BluetoothEvent::PacketReceived(p)) if p.command == PacketCommand::RespAnc));

    let s = m.step(LinkInput::Read(StreamRead::Closed));
    assert!(matches!(s[0], LinkStep::CloseStream));
    assert!(matches!(s[1], LinkStep::Report(BluetoothEvent::Disconnected)));
    assert!(!m.streaming);
}

#[test]
fn failures_are_reported() {
    let mut m = LinkManager::new();
    let s = m.step(LinkInput::ConnectFailed("timeout".to_string()));
    assert!(matches!(&s[0], LinkStep::Report(BluetoothEvent::Error(e)) if e == "Connect err: timeout"));
    m.step(LinkInput::ConnectSucceeded("AA".to_string()));
    let s = m.step(LinkInput::WriteFailed("pipe".to_string()));
    assert_eq!(s.len(), 3);
    assert!(matches!(s[0], LinkStep::CloseStream));
    assert!(matches!(&s[1], LinkStep::Report(BluetoothEvent::Error(e)) if e == "Write err: pipe"));
    assert!(matches!(s[2], LinkStep::Report(BluetoothEvent::Disconnected)));
    let s = m.step(LinkInput::ReadFailed("gone".to_string()));
    assert_eq!(s.len(), 2);
    assert!(matches!(s[0], LinkStep::Report(BluetoothEvent::Disconnected)));
    assert!(matches!(&s[1], LinkStep::Report(BluetoothEvent::Error(e)) if e == "Read err: gone"));
    let s = m.step(LinkInput::Command(ManagerCommand::Disconnect));
    assert_eq!(s.len(), 1);
}

#[test]
fn monitoring_lists_paired_devices() {
    let mut m = LinkManager::new();
    assert!(matches!(m.step(LinkInput::MonitorTick)[0], LinkStep::ListPaired));
    let devices = vec![
        DiscoveredDevice { id: "A".to_string(), name: "x".to_string(), paired: true, system_connected: false },
        DiscoveredDevice { id: "B".to_string(), name: "y".to_string(), paired: true, system_connected: true },
    ];
    let s = m.step(LinkInput::Paired(devices));
    assert_eq!(s.len(), 2);
    assert!(matches!(&s[1], LinkStep::Report(BluetoothEvent::DeviceDiscovered(d)) if d.id == "B"));
}

#[test]
fn connecting_closes_the_open_stream_first() {
    let mut m = LinkManager::new();
    m.step(LinkInput::ConnectSucceeded("AA".to_string()));
    let s = m.step(LinkInput::Command(ManagerCommand::Connect("BB".to_string())));
    assert_eq!(s.len(), 2);
    assert!(matches!(s[0], LinkStep::CloseStream));
    assert!(matches!(&s[1], LinkStep::Connect(id) if id == "BB"));
    assert!(!m.streaming);
    m.step(LinkInput::ConnectSucceeded("BB".to_string()));
    let s = m.step(LinkInput::Command(ManagerCommand::Disconnect));
    assert_eq!(s.len(), 2);
    assert!(matches!(s[0], LinkStep::CloseStream));
    assert!(matches!(s[1], LinkStep::Report(BluetoothEvent::Disconnected)));
}
