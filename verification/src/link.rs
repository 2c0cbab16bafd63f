//! Decisions of the Bluetooth connection manager: what it does with each
//! request of the application and with each outcome on the link. The runtime
//! performs the returned steps (closing and opening streams, writing,
//! reporting events) and feeds their outcomes back.

use vstd::prelude::*;
use bytes::BytesMut;
use crate::app::state::{discovered_view, BluetoothEventView, DiscoveredDeviceView};
use crate::bluetooth::{
    bounded_rx, drain_frames, drain_packets, lemma_drain_keeps_partial_frame,
    lemma_drain_single_frame, packet_views, rx_clear, rx_contents, rx_extend,
    rx_new, BluetoothEvent, DiscoveredDevice, ManagerCommand, StreamRead, MAX_RX_BUF,
};
use crate::protocol::{encode_packet, Packet, PacketView};
use crate::text::{contains_seq, contains_str, lowercase, owned, to_lower};

verus! {

/// What the connection manager reacts to.
#[derive(Debug)]
pub enum LinkInput {
    /// A request of the application.
    Command(ManagerCommand),
    /// The stream to the device with this address is open.
    ConnectSucceeded(String),
    /// Opening a stream failed; the error's text.
    ConnectFailed(String),
    /// Writing a packet failed; the error's text.
    WriteFailed(String),
    /// A read from the stream ended.
    Read(StreamRead),
    /// A read from the stream failed; the error's text.
    ReadFailed(String),
    /// The periodic look at paired devices is due.
    MonitorTick,
    /// The paired devices the adapter lists.
    Paired(Vec<DiscoveredDevice>),
}

/// Mathematical value of a manager input.
pub enum LinkInputView {
    Connect(Seq<char>),
    Disconnect,
    Send(PacketView),
    ConnectSucceeded(Seq<char>),
    ConnectFailed(Seq<char>),
    WriteFailed(Seq<char>),
    Data(Seq<u8>),
    Closed,
    ReadFailed(Seq<char>),
    MonitorTick,
    Paired(Seq<DiscoveredDeviceView>),
}

/// View of a manager input.
pub open spec fn input_view(i: LinkInput) -> LinkInputView {
    match i {
        LinkInput::Command(ManagerCommand::Connect(id)) => LinkInputView::Connect(id@),
        LinkInput::Command(ManagerCommand::Disconnect) => LinkInputView::Disconnect,
        LinkInput::Command(ManagerCommand::SendPacket(p)) => LinkInputView::Send(p@),
        LinkInput::ConnectSucceeded(id) => LinkInputView::ConnectSucceeded(id@),
        LinkInput::ConnectFailed(e) => LinkInputView::ConnectFailed(e@),
        LinkInput::WriteFailed(e) => LinkInputView::WriteFailed(e@),
        LinkInput::Read(StreamRead::Data(d)) => LinkInputView::Data(d@),
        LinkInput::Read(StreamRead::Closed) => LinkInputView::Closed,
        LinkInput::ReadFailed(e) => LinkInputView::ReadFailed(e@),
        LinkInput::MonitorTick => LinkInputView::MonitorTick,
        LinkInput::Paired(ds) => LinkInputView::Paired(
            ds@.map_values(|d: DiscoveredDevice| discovered_view(d)),
        ),
    }
}

/// Work the connection manager hands to its runtime, in order.
#[derive(Debug)]
pub enum LinkStep {
    /// Close the open stream.
    CloseStream,
    /// Open a stream to the device with this address.
    Connect(String),
    /// Write a packet to the open stream.
    Write(Packet),
    /// Report an event to the application.
    Report(BluetoothEvent),
    /// Ask the adapter for the paired devices.
    ListPaired,
}

/// Mathematical value of a manager step.
pub enum LinkStepView {
    CloseStream,
    Connect(Seq<char>),
    Write(PacketView),
    Report(BluetoothEventView),
    ListPaired,
}

impl View for LinkStep {
    type V = LinkStepView;

    open spec fn view(&self) -> LinkStepView {
        match self {
            LinkStep::CloseStream => LinkStepView::CloseStream,
            LinkStep::Connect(id) => LinkStepView::Connect(id@),
            LinkStep::Write(p) => LinkStepView::Write(p@),
            LinkStep::Report(e) => LinkStepView::Report(crate::app::state::event_view(*e)),
            LinkStep::ListPaired => LinkStepView::ListPaired,
        }
    }
}

/// Views of a sequence of steps.
pub open spec fn steps_view(s: Seq<LinkStep>) -> Seq<LinkStepView> {
    s.map_values(|x: LinkStep| x@)
}

/// State of the connection manager: whether a stream is open, and the bytes
/// received that do not yet form a whole frame.
#[derive(Debug)]
pub struct LinkManager {
    pub streaming: bool,
    pub rx_buf: BytesMut,
}

/// Mathematical value of the manager state.
pub struct LinkView {
    pub streaming: bool,
    pub rx: Seq<u8>,
}

impl View for LinkManager {
    type V = LinkView;

    open spec fn view(&self) -> LinkView {
        LinkView { streaming: self.streaming, rx: rx_contents(self.rx_buf) }
    }
}

/// The received bytes never exceed the buffer limit.
pub open spec fn link_wf(s: LinkView) -> bool {
    s.rx.len() <= MAX_RX_BUF
}

/// Closing the stream, if one is open, and forgetting received bytes.
pub open spec fn drop_stream(s: LinkView) -> (LinkView, Seq<LinkStepView>) {
    (
        LinkView { streaming: false, rx: Seq::empty() },
        if s.streaming {
            seq![LinkStepView::CloseStream]
        } else {
            Seq::empty()
        },
    )
}

/// Reports of the packets taken from the received bytes.
pub open spec fn packet_reports(ps: Seq<PacketView>) -> Seq<LinkStepView> {
    ps.map_values(|p: PacketView| LinkStepView::Report(BluetoothEventView::PacketReceived(p)))
}

/// What the manager does with input `i` in state `s`: the next state and
/// the steps to perform, in order.
pub open spec fn link_spec(s: LinkView, i: LinkInputView) -> (LinkView, Seq<LinkStepView>) {
    match i {
        LinkInputView::Connect(id) => {
            let d = drop_stream(s);
            (d.0, d.1.push(LinkStepView::Connect(id)))
        },
        LinkInputView::Disconnect => {
            let d = drop_stream(s);
            (d.0, d.1.push(LinkStepView::Report(BluetoothEventView::Disconnected)))
        },
        LinkInputView::Send(p) => (
            s,
            if s.streaming {
                seq![LinkStepView::Write(p)]
            } else {
                Seq::empty()
            },
        ),
        LinkInputView::ConnectSucceeded(id) => (
            LinkView { streaming: true, ..s },
            seq![LinkStepView::Report(BluetoothEventView::Connected(id))],
        ),
        LinkInputView::ConnectFailed(e) => (
            s,
            seq![LinkStepView::Report(BluetoothEventView::Error("Connect err: "@ + e))],
        ),
        LinkInputView::WriteFailed(e) => {
            let d = drop_stream(s);
            (
                d.0,
                d.1 + seq![
                    LinkStepView::Report(BluetoothEventView::Error("Write err: "@ + e)),
                    LinkStepView::Report(BluetoothEventView::Disconnected),
                ],
            )
        },
        LinkInputView::Data(bytes) => {
            let r = drain_frames(bounded_rx(s.rx + bytes));
            (LinkView { rx: r.1, ..s }, packet_reports(r.0))
        },
        LinkInputView::Closed => {
            let d = drop_stream(s);
            (d.0, d.1.push(LinkStepView::Report(BluetoothEventView::Disconnected)))
        },
        LinkInputView::ReadFailed(e) => {
            let d = drop_stream(s);
            (
                d.0,
                d.1 + seq![
                    LinkStepView::Report(BluetoothEventView::Disconnected),
                    LinkStepView::Report(BluetoothEventView::Error("Read err: "@ + e)),
                ],
            )
        },
        LinkInputView::MonitorTick => (s, seq![LinkStepView::ListPaired]),
        LinkInputView::Paired(ds) => (
            s,
            ds.map_values(
                |d: DiscoveredDeviceView|
                    LinkStepView::Report(BluetoothEventView::DeviceDiscovered(d)),
            ),
        ),
    }
}

/// One step, as a sequence.
fn just(step: LinkStep) -> (r: Vec<LinkStep>)
    ensures
        steps_view(r@) == seq![step@],
{
    let mut r: Vec<LinkStep> = Vec::new();
    r.push(step);
    proof {
        assert(steps_view(r@) =~= seq![step@]);
    }
    r
}

/// `a` followed by `b`.
fn text_join(a: &str, b: &str) -> (r: String)
    ensures
        r@ == a@ + b@,
{
    let mut r = owned(a);
    r.append(b);
    r
}

impl LinkManager {
    /// No stream open and nothing received.
    pub fn new() -> (r: LinkManager)
        ensures
            r@ == (LinkView { streaming: false, rx: Seq::empty() }),
    {
        LinkManager { streaming: false, rx_buf: rx_new() }
    }

    /// Closes the stream, if one is open, and forgets the received bytes.
    fn drop_stream(&mut self) -> (r: Vec<LinkStep>)
        ensures
            (final(self)@, steps_view(r@)) == drop_stream(old(self)@),
    {
        let mut r: Vec<LinkStep> = Vec::new();
        if self.streaming {
            r.push(LinkStep::CloseStream);
        }
        self.streaming = false;
        rx_clear(&mut self.rx_buf);
        proof {
            assert(steps_view(r@) =~= drop_stream(old(self)@).1);
        }
        r
    }

    /// Reacts to `input` (see `link_spec`); the returned steps are for the
    /// runtime to perform in order.
    pub fn step(&mut self, input: LinkInput) -> (r: Vec<LinkStep>)
        requires
            link_wf(old(self)@),
            input matches LinkInput::Read(StreamRead::Data(d)) ==> d@.len() <= isize::MAX
                - MAX_RX_BUF,
        ensures
            link_wf(final(self)@),
            (final(self)@, steps_view(r@)) == link_spec(old(self)@, input_view(input)),
    {
        match input {
            LinkInput::Command(ManagerCommand::Connect(id)) => {
                let mut r = self.drop_stream();
                let ghost before = r@;
                r.push(LinkStep::Connect(id));
                proof {
                    assert(steps_view(r@) =~= steps_view(before).push(r@.last()@));
                }
                r
            },
            LinkInput::Command(ManagerCommand::Disconnect) => {
                let mut r = self.drop_stream();
                let ghost before = r@;
                r.push(LinkStep::Report(BluetoothEvent::Disconnected));
                proof {
                    assert(steps_view(r@) =~= steps_view(before).push(r@.last()@));
                }
                r
            },
            LinkInput::Command(ManagerCommand::SendPacket(p)) => {
                if self.streaming {
                    just(LinkStep::Write(p))
                } else {
                    let r: Vec<LinkStep> = Vec::new();
                    proof {
                        assert(steps_view(r@) =~= Seq::<LinkStepView>::empty());
                    }
                    r
                }
            },
            LinkInput::ConnectSucceeded(id) => {
                self.streaming = true;
                just(LinkStep::Report(BluetoothEvent::Connected(id)))
            },
            LinkInput::ConnectFailed(e) => {
                just(LinkStep::Report(BluetoothEvent::Error(text_join("Connect err: ", e.as_str()))))
            },
            LinkInput::WriteFailed(e) => {
                let mut r = self.drop_stream();
                let ghost before = r@;
                r.push(LinkStep::Report(BluetoothEvent::Error(text_join("Write err: ", e.as_str()))));
                r.push(LinkStep::Report(BluetoothEvent::Disconnected));
                proof {
                    assert(steps_view(r@) =~= steps_view(before) + seq![
                        r@[r@.len() - 2]@,
                        r@[r@.len() - 1]@,
                    ]);
                }
                r
            },
            LinkInput::Read(StreamRead::Data(d)) => {
                rx_extend(&mut self.rx_buf, d.as_slice());
                let mut packets = drain_packets(&mut self.rx_buf);
                proof {
                    crate::bluetooth::lemma_drain_rest_shorter(
                        bounded_rx(old(self)@.rx + d@),
                    );
                }
                let ghost pv = packet_views(packets@);
                let mut r: Vec<LinkStep> = Vec::new();
                let n = packets.len();
                let mut k: usize = 0;
                while packets.len() > 0
                    invariant
                        k + packets@.len() == n,
                        n == pv.len(),
                        forall|j: int| 0 <= j < packets@.len() ==> (#[trigger] packets@[j])@ == pv[k + j],
                        steps_view(r@) == packet_reports(pv.take(k as int)),
                    decreases packets@.len(),
                {
                    let p = packets.remove(0);
                    let ghost before = r@;
                    r.push(LinkStep::Report(BluetoothEvent::PacketReceived(p)));
                    proof {
                        assert(pv.take(k + 1) =~= pv.take(k as int).push(pv[k as int]));
                        assert(steps_view(r@) =~= steps_view(before).push(r@.last()@));
                        assert(packet_reports(pv.take(k + 1)) =~= packet_reports(pv.take(k as int)).push(
                            LinkStepView::Report(BluetoothEventView::PacketReceived(pv[k as int])),
                        ));
                    }
                    k = k + 1;
                }
                proof {
                    assert(pv.take(n as int) =~= pv);
                }
                r
            },
            LinkInput::Read(StreamRead::Closed) => {
                let mut r = self.drop_stream();
                let ghost before = r@;
                r.push(LinkStep::Report(BluetoothEvent::Disconnected));
                proof {
                    assert(steps_view(r@) =~= steps_view(before).push(r@.last()@));
                }
                r
            },
            LinkInput::ReadFailed(e) => {
                let mut r = self.drop_stream();
                let ghost before = r@;
                r.push(LinkStep::Report(BluetoothEvent::Disconnected));
                r.push(LinkStep::Report(BluetoothEvent::Error(text_join("Read err: ", e.as_str()))));
                proof {
                    assert(steps_view(r@) =~= steps_view(before) + seq![
                        r@[r@.len() - 2]@,
                        r@[r@.len() - 1]@,
                    ]);
                }
                r
            },
            LinkInput::MonitorTick => just(LinkStep::ListPaired),
            LinkInput::Paired(devices) => {
                let ghost dv = devices@.map_values(|d: DiscoveredDevice| discovered_view(d));
                let mut devices = devices;
                let n = devices.len();
                let mut r: Vec<LinkStep> = Vec::new();
                let mut k: usize = 0;
                while devices.len() > 0
                    invariant
                        k + devices@.len() == n,
                        n == dv.len(),
                        forall|j: int|
                            0 <= j < devices@.len() ==> discovered_view(#[trigger] devices@[j])
                                == dv[k + j],
                        steps_view(r@) == dv.take(k as int).map_values(
                            |d: DiscoveredDeviceView|
                                LinkStepView::Report(BluetoothEventView::DeviceDiscovered(d)),
                        ),
                    decreases devices@.len(),
                {
                    let d = devices.remove(0);
                    let ghost before = r@;
                    r.push(LinkStep::Report(BluetoothEvent::DeviceDiscovered(d)));
                    proof {
                        assert(steps_view(r@) =~= steps_view(before).push(r@.last()@));
                        assert(dv.take(k + 1) =~= dv.take(k as int).push(dv[k as int]));
                        assert(dv.take(k + 1).map_values(
                            |d: DiscoveredDeviceView|
                                LinkStepView::Report(BluetoothEventView::DeviceDiscovered(d)),
                        ) =~= dv.take(k as int).map_values(
                            |d: DiscoveredDeviceView|
                                LinkStepView::Report(BluetoothEventView::DeviceDiscovered(d)),
                        ).push(LinkStepView::Report(BluetoothEventView::DeviceDiscovered(dv[k as int]))));
                    }
                    k = k + 1;
                }
                proof {
                    assert(dv.take(n as int) =~= dv);
                }
                r
            },
        }
    }
}

/// A frame that arrives in two reads is reported once, whole, after the
/// second read, and nothing is left over.
pub proof fn lemma_link_reassembles(s: LinkView, p: PacketView, n: int)
    requires
        s.rx.len() == 0,
        p.payload.len() <= 255,
        1 <= n < encode_packet(p).len(),
    ensures
        ({
            let e = encode_packet(p);
            let r1 = link_spec(s, LinkInputView::Data(e.take(n)));
            let r2 = link_spec(r1.0, LinkInputView::Data(e.skip(n)));
            &&& r1.1 == Seq::<LinkStepView>::empty()
            &&& r2.1 == seq![LinkStepView::Report(BluetoothEventView::PacketReceived(p))]
            &&& r2.0.rx == Seq::<u8>::empty()
        }),
{
    let e = encode_packet(p);
    assert(s.rx + e.take(n) =~= e.take(n));
    lemma_drain_keeps_partial_frame(p, n);
    assert(e.take(n) + e.skip(n) =~= e);
    lemma_drain_single_frame(p);
    assert(packet_reports(Seq::<PacketView>::empty()) =~= Seq::<LinkStepView>::empty());
    assert(packet_reports(seq![p]) =~= seq![
        LinkStepView::Report(BluetoothEventView::PacketReceived(p)),
    ]);
}

/// Packets are written only while a stream is open.
pub proof fn lemma_link_writes_only_when_streaming(s: LinkView, p: PacketView)
    ensures
        link_spec(s, LinkInputView::Send(p)).1 == if s.streaming {
            seq![LinkStepView::Write(p)]
        } else {
            Seq::<LinkStepView>::empty()
        },
        link_spec(s, LinkInputView::Send(p)).0 == s,
{
}

/// How the link manager opens, closes and loses a stream: a connect request
/// first closes an open stream and then connects; a connection attempt is
/// answered with exactly one report, `Connected` on success and a
/// "Connect err: " error on failure; a disconnect request closes an open
/// stream and reports `Disconnected`; a failed write closes the stream, then
/// reports a "Write err: " error and then `Disconnected`.
pub proof fn lemma_link_connection_steps(s: LinkView, id: Seq<char>, e: Seq<char>)
    ensures
        ({
            let close: Seq<LinkStepView> = if s.streaming {
                seq![LinkStepView::CloseStream]
            } else {
                Seq::empty()
            };
            &&& link_spec(s, LinkInputView::Connect(id)).1 == close + seq![LinkStepView::Connect(id)]
            &&& !link_spec(s, LinkInputView::Connect(id)).0.streaming
            &&& link_spec(s, LinkInputView::ConnectSucceeded(id)).1 == seq![
                LinkStepView::Report(BluetoothEventView::Connected(id)),
            ]
            &&& link_spec(s, LinkInputView::ConnectSucceeded(id)).0.streaming
            &&& link_spec(s, LinkInputView::ConnectFailed(e)).1 == seq![
                LinkStepView::Report(BluetoothEventView::Error("Connect err: "@ + e)),
            ]
            &&& link_spec(s, LinkInputView::Disconnect).1 == close + seq![
                LinkStepView::Report(BluetoothEventView::Disconnected),
            ]
            &&& link_spec(s, LinkInputView::WriteFailed(e)).1 == close + seq![
                LinkStepView::Report(BluetoothEventView::Error("Write err: "@ + e)),
                LinkStepView::Report(BluetoothEventView::Disconnected),
            ]
            &&& !link_spec(s, LinkInputView::WriteFailed(e)).0.streaming
        }),
{
    let close: Seq<LinkStepView> = if s.streaming {
        seq![LinkStepView::CloseStream]
    } else {
        Seq::empty()
    };
    assert(close.push(LinkStepView::Connect(id)) =~= close + seq![LinkStepView::Connect(id)]);
    assert(close.push(LinkStepView::Report(BluetoothEventView::Disconnected)) =~= close + seq![
        LinkStepView::Report(BluetoothEventView::Disconnected),
    ]);
}

/// RFCOMM channels on which the vendor command service is looked for, most
/// likely first.
pub fn channel_candidates() -> (r: Vec<u8>)
    ensures
        r@ == seq![15u8, 13u8, 14u8, 16u8],
{
    let mut r: Vec<u8> = Vec::new();
    r.push(15);
    r.push(13);
    r.push(14);
    r.push(16);
    proof {
        assert(r@ =~= seq![15u8, 13u8, 14u8, 16u8]);
    }
    r
}

/// The channel to connect on, given the candidates found open in probing
/// order: the first of them, or channel 15 when none answered.
pub fn choose_channel(open: &Vec<u8>) -> (r: u8)
    ensures
        r == if open@.len() > 0 {
            open@[0]
        } else {
            15u8
        },
{
    if open.len() > 0 {
        open[0]
    } else {
        15
    }
}

/// Index of the first text, from index `i` on, that contains `pat`.
pub open spec fn first_containing(u: Seq<Seq<char>>, pat: Seq<char>, i: int) -> Option<int>
    decreases u.len() - i,
{
    if i < 0 || i >= u.len() {
        None
    } else if contains_seq(u[i], pat) {
        Some(i)
    } else {
        first_containing(u, pat, i + 1)
    }
}

/// Index of the last text among the first `n` that contains `pat`.
pub open spec fn last_containing(u: Seq<Seq<char>>, pat: Seq<char>, n: int) -> Option<int>
    decreases n,
{
    if n <= 0 {
        None
    } else if contains_seq(u[n - 1], pat) {
        Some(n - 1)
    } else {
        last_containing(u, pat, n - 1)
    }
}

/// The RFCOMM service to connect to, given the services' UUIDs as text: the
/// first whose lower-cased UUID holds the vendor service's "aeac", otherwise
/// the last that holds the serial port's "1101", otherwise the first service.
pub open spec fn service_choice(uuids: Seq<Seq<char>>) -> int {
    let lower = uuids.map_values(|u: Seq<char>| lowercase(u));
    match first_containing(lower, "aeac"@, 0) {
        Some(i) => i,
        None => match last_containing(lower, "1101"@, lower.len() as int) {
            Some(j) => j,
            None => 0,
        },
    }
}

/// Index of the RFCOMM service to connect to (see `service_choice`).
pub fn choose_service(uuids: &Vec<String>) -> (r: usize)
    requires
        uuids@.len() > 0,
    ensures
        r == service_choice(uuids@.map_values(|u: String| u@)),
        r < uuids@.len(),
{
    let ghost texts = uuids@.map_values(|u: String| u@);
    let ghost lower = texts.map_values(|u: Seq<char>| lowercase(u));
    let n = uuids.len();
    let mut fallback: Option<usize> = None;
    let mut i: usize = 0;
    while i < n
        invariant
            n == uuids@.len(),
            texts == uuids@.map_values(|u: String| u@),
            lower == texts.map_values(|u: Seq<char>| lowercase(u)),
            i <= n,
            first_containing(lower, "aeac"@, 0) == first_containing(lower, "aeac"@, i as int),
            match fallback {
                Some(j) => last_containing(lower, "1101"@, i as int) == Some(j as int) && j < n,
                None => last_containing(lower, "1101"@, i as int) is None,
            },
        decreases n - i,
    {
        let u = to_lower(uuids[i].as_str());
        proof {
            assert(lower[i as int] == u@);
        }
        if contains_str(u.as_str(), "aeac") {
            return i;
        }
        if contains_str(u.as_str(), "1101") {
            fallback = Some(i);
        }
        i = i + 1;
    }
    match fallback {
        Some(j) => j,
        None => 0,
    }
}

} // verus!
