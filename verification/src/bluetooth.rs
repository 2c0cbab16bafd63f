use vstd::prelude::*;
use bytes::Buf;
use bytes::BytesMut;
use crate::protocol::{decode_packet, encode_packet, frame_len, lemma_decode_encode, Packet, PacketView};

verus! {

/// Largest number of received bytes kept while waiting for complete frames.
pub const MAX_RX_BUF: usize = 8192;

/// The receive buffer type of the `bytes` crate, `BytesMut`, made known to
/// the verifier as an opaque type; what it holds is `rx_contents`.
#[verifier::external_type_specification]
#[verifier::external_body]
pub struct ExBytesMut(BytesMut);

/// The bytes that a receive buffer holds, oldest first.
pub uninterp spec fn rx_contents(buf: BytesMut) -> Seq<u8>;

/// `BytesMut::len`: the number of bytes held.
#[verifier::external_body]
fn rx_len(buf: &BytesMut) -> (n: usize)
    ensures
        n == rx_contents(*buf).len(),
{
    buf.len()
}

/// Indexing through `BytesMut`'s `Deref` to `[u8]`: byte `i`.
#[verifier::external_body]
fn rx_byte(buf: &BytesMut, i: usize) -> (b: u8)
    requires
        i < rx_contents(*buf).len(),
    ensures
        b == rx_contents(*buf)[i as int],
{
    buf[i]
}

/// A copy of the first `n` bytes, taken through `BytesMut`'s `Deref` to `[u8]`.
#[verifier::external_body]
fn rx_prefix(buf: &BytesMut, n: usize) -> (v: Vec<u8>)
    requires
        n <= rx_contents(*buf).len(),
    ensures
        v@ == rx_contents(*buf).take(n as int),
{
    buf[..n].to_vec()
}

/// `<BytesMut as Buf>::advance`: drops the first `n` bytes (it panics when
/// `n` exceeds the length, which `requires` rules out).
#[verifier::external_body]
fn rx_advance(buf: &mut BytesMut, n: usize)
    requires
        n <= rx_contents(*old(buf)).len(),
    ensures
        rx_contents(*final(buf)) == rx_contents(*old(buf)).skip(n as int),
{
    buf.advance(n)
}

/// `BytesMut::clear`: drops every byte.
#[verifier::external_body]
pub(crate) fn rx_clear(buf: &mut BytesMut)
    ensures
        rx_contents(*final(buf)) == Seq::<u8>::empty(),
{
    buf.clear()
}

/// `BytesMut::new`: an empty buffer.
#[verifier::external_body]
pub(crate) fn rx_new() -> (buf: BytesMut)
    ensures
        rx_contents(buf) == Seq::<u8>::empty(),
{
    BytesMut::new()
}

/// `BytesMut::extend_from_slice`: appends `data` after the bytes held (it
/// panics when the capacity needed overflows, which `requires` rules out).
#[verifier::external_body]
pub(crate) fn rx_extend(buf: &mut BytesMut, data: &[u8])
    requires
        rx_contents(*old(buf)).len() + data@.len() <= isize::MAX,
    ensures
        rx_contents(*final(buf)) == rx_contents(*old(buf)) + data@,
{
    buf.extend_from_slice(data)
}

/// Index of the first frame marker at or after `i`.
pub open spec fn marker_from(b: Seq<u8>, i: int) -> Option<int>
    decreases b.len() - i,
{
    if i < 0 || i >= b.len() {
        None
    } else if b[i] == crate::protocol::FRAME_MARKER {
        Some(i)
    } else {
        marker_from(b, i + 1)
    }
}

/// The newest `MAX_RX_BUF` bytes of a receive buffer.
pub open spec fn bounded_rx(b: Seq<u8>) -> Seq<u8> {
    if b.len() > MAX_RX_BUF {
        b.skip(b.len() - MAX_RX_BUF)
    } else {
        b
    }
}

/// Packets that can be taken from the front of a receive buffer, and what
/// remains of it: bytes before a frame marker are dropped; a marker whose frame
/// is complete yields its packet, or is dropped alone when the frame does not
/// decode; a frame still arriving is kept whole; a buffer without marker is
/// emptied.
pub open spec fn drain_frames(b: Seq<u8>) -> (Seq<PacketView>, Seq<u8>)
    decreases b.len(),
{
    match marker_from(b, 0) {
        None => (Seq::empty(), Seq::empty()),
        Some(start) => {
            let c = b.skip(start);
            match frame_len(c) {
                None => (Seq::empty(), c),
                Some(total) => if c.len() < total {
                    (Seq::empty(), c)
                } else {
                    proof {
                        lemma_marker_from_bounds(b, 0);
                    }
                    match decode_packet(c.take(total)) {
                        Some(p) => {
                            let r = drain_frames(c.skip(total));
                            (seq![p] + r.0, r.1)
                        },
                        None => drain_frames(c.skip(1)),
                    }
                },
            }
        },
    }
}

/// A marker found at or after `i` lies inside the buffer.
pub proof fn lemma_marker_from_bounds(b: Seq<u8>, i: int)
    ensures
        marker_from(b, i) matches Some(j) ==> 0 <= i <= j < b.len() && b[j]
            == crate::protocol::FRAME_MARKER,
    decreases b.len() - i,
{
    if 0 <= i < b.len() && b[i] != crate::protocol::FRAME_MARKER {
        lemma_marker_from_bounds(b, i + 1);
    }
}

proof fn lemma_marker_from_skip(b: Seq<u8>, i: int)
    requires
        0 <= i <= b.len(),
        forall|j: int| 0 <= j < i ==> b[j] != crate::protocol::FRAME_MARKER,
    ensures
        marker_from(b, 0) == marker_from(b, i),
    decreases i,
{
    if i > 0 {
        lemma_marker_from_skip(b, i - 1);
    }
}

/// Views of a sequence of packets.
pub open spec fn packet_views(ps: Seq<Packet>) -> Seq<PacketView> {
    ps.map_values(|p: Packet| p@)
}

/// Takes every complete packet from the front of the receive buffer, after
/// trimming the buffer to its newest `MAX_RX_BUF` bytes; what is left in the
/// buffer is the start of a frame still arriving, or nothing.
pub fn drain_packets(buf: &mut BytesMut) -> (out: Vec<Packet>)
    ensures
        (packet_views(out@), rx_contents(*final(buf))) == drain_frames(
            bounded_rx(rx_contents(*old(buf))),
        ),
{
    let len0 = rx_len(buf);
    if len0 > MAX_RX_BUF {
        rx_advance(buf, len0 - MAX_RX_BUF);
    }
    let ghost target = drain_frames(bounded_rx(rx_contents(*old(buf))));
    let mut out: Vec<Packet> = Vec::new();
    proof {
        assert(packet_views(out@) =~= Seq::<PacketView>::empty());
    }
    loop
        invariant
            packet_views(out@) + drain_frames(rx_contents(*buf)).0 == target.0,
            drain_frames(rx_contents(*buf)).1 == target.1,
        ensures
            packet_views(out@) == target.0,
            rx_contents(*buf) == target.1,
        decreases rx_contents(*buf).len(),
    {
        let ghost cur = rx_contents(*buf);
        let n = rx_len(buf);
        let mut start: usize = 0;
        while start < n && rx_byte(buf, start) != crate::protocol::FRAME_MARKER
            invariant
                n == cur.len(),
                rx_contents(*buf) == cur,
                start <= n,
                forall|j: int| 0 <= j < start ==> cur[j] != crate::protocol::FRAME_MARKER,
            decreases n - start,
        {
            start = start + 1;
        }
        proof {
            lemma_marker_from_skip(cur, start as int);
        }
        if start == n {
            rx_clear(buf);
            proof {
                assert(packet_views(out@) + Seq::<PacketView>::empty() =~= packet_views(out@));
            }
            break;
        }
        if start > 0 {
            rx_advance(buf, start);
        }
        let ghost c = rx_contents(*buf);
        proof {
            assert(c =~= cur.skip(start as int));
        }
        let m = rx_len(buf);
        if m < 6 {
            proof {
                assert(packet_views(out@) + Seq::<PacketView>::empty() =~= packet_views(out@));
            }
            break;
        }
        let total: usize = 10 + rx_byte(buf, 5) as usize;
        if m < total {
            proof {
                assert(packet_views(out@) + Seq::<PacketView>::empty() =~= packet_views(out@));
            }
            break;
        }
        let frame = rx_prefix(buf, total);
        match Packet::from_bytes(frame.as_slice()) {
            Some(p) => {
                let ghost before = packet_views(out@);
                let ghost pv = p@;
                out.push(p);
                rx_advance(buf, total);
                proof {
                    assert(packet_views(out@) =~= before.push(pv));
                    assert(before + (seq![pv] + drain_frames(rx_contents(*buf)).0) =~= before.push(
                        pv,
                    ) + drain_frames(rx_contents(*buf)).0);
                }
            },
            None => {
                rx_advance(buf, 1);
            },
        }
    }
    out
}

/// A buffer that starts with the frame of a packet yields that packet first,
/// then whatever the rest of the buffer yields.
pub proof fn lemma_drain_frame_then_rest(p: PacketView, rest: Seq<u8>)
    requires
        p.payload.len() <= 255,
    ensures
        drain_frames(encode_packet(p) + rest) == (
            seq![p] + drain_frames(rest).0,
            drain_frames(rest).1,
        ),
{
    let e = encode_packet(p);
    let b = e + rest;
    lemma_decode_encode(p);
    assert(b[0] == crate::protocol::FRAME_MARKER);
    assert(b.skip(0) =~= b);
    assert(b.take(e.len() as int) =~= e);
    assert(b.skip(e.len() as int) =~= rest);
}

/// The frame of a packet, alone in the buffer, yields exactly that packet and
/// leaves nothing behind.
pub proof fn lemma_drain_single_frame(p: PacketView)
    requires
        p.payload.len() <= 255,
    ensures
        drain_frames(encode_packet(p)) == (seq![p], Seq::<u8>::empty()),
{
    lemma_drain_frame_then_rest(p, Seq::empty());
    assert(encode_packet(p) + Seq::<u8>::empty() =~= encode_packet(p));
    assert(seq![p] + Seq::<PacketView>::empty() =~= seq![p]);
}

/// Bytes without a frame marker in front of a buffer are skipped.
pub proof fn lemma_drain_skips_noise(noise: Seq<u8>, b: Seq<u8>)
    requires
        forall|i: int| 0 <= i < noise.len() ==> noise[i] != crate::protocol::FRAME_MARKER,
    ensures
        drain_frames(noise + b) == drain_frames(b),
    decreases noise.len(),
{
    if noise.len() > 0 {
        let nb = noise + b;
        let tail = noise.drop_first();
        lemma_marker_from_skip(nb, 1);
        lemma_marker_from_shift(nb, 1);
        assert(nb.skip(1) =~= tail + b);
        lemma_drain_skips_noise(tail, b);
        lemma_drain_shift(nb);
    } else {
        assert(noise + b =~= b);
    }
}

/// Searching for a marker in a buffer from index `i + k` is searching in the
/// buffer without its first `k` bytes from index `i`.
proof fn lemma_marker_from_shift(b: Seq<u8>, k: int)
    requires
        0 <= k <= b.len(),
    ensures
        forall|i: int|
            0 <= i ==> #[trigger] marker_from(b.skip(k), i) == match marker_from(b, i + k) {
                Some(j) => Some(j - k),
                None => None,
            },
{
    assert forall|i: int| 0 <= i implies #[trigger] marker_from(b.skip(k), i) == match marker_from(
        b,
        i + k,
    ) {
        Some(j) => Some(j - k),
        None => None,
    } by {
        lemma_marker_from_shift_at(b, k, i);
    }
}

proof fn lemma_marker_from_shift_at(b: Seq<u8>, k: int, i: int)
    requires
        0 <= k <= b.len(),
        0 <= i,
    ensures
        marker_from(b.skip(k), i) == match marker_from(b, i + k) {
            Some(j) => Some(j - k),
            None => None,
        },
    decreases b.len() - i,
{
    if i < b.len() - k {
        lemma_marker_from_shift_at(b, k, i + 1);
    }
}

/// When the first byte is not a marker, draining a buffer is draining it
/// without that byte.
proof fn lemma_drain_shift(b: Seq<u8>)
    requires
        b.len() > 0,
        b[0] != crate::protocol::FRAME_MARKER,
    ensures
        drain_frames(b) == drain_frames(b.skip(1)),
{
    lemma_marker_from_shift(b, 1);
    lemma_marker_from_bounds(b, 0);
    match marker_from(b, 0) {
        Some(start) => {
            assert(marker_from(b, 0) == marker_from(b, 1));
            assert(b.skip(1).skip(start - 1) =~= b.skip(start));
        },
        None => {
            assert(marker_from(b, 0) == marker_from(b, 1));
        },
    }
}

/// The start of a frame still arriving stays in the buffer and yields nothing.
pub proof fn lemma_drain_keeps_partial_frame(p: PacketView, n: int)
    requires
        p.payload.len() <= 255,
        1 <= n < encode_packet(p).len(),
    ensures
        drain_frames(encode_packet(p).take(n)) == (
            Seq::<PacketView>::empty(),
            encode_packet(p).take(n),
        ),
{
    let q = encode_packet(p).take(n);
    assert(q[0] == crate::protocol::FRAME_MARKER);
    assert(q.skip(0) =~= q);
}

/// A device seen by the Bluetooth adapter.
#[derive(Debug)]
pub struct DiscoveredDevice {
    pub id: String,
    pub name: String,
    pub paired: bool,
    pub system_connected: bool,
}

impl Clone for DiscoveredDevice {
    fn clone(&self) -> (r: Self)
        ensures
            r.id@ == self.id@,
            r.name@ == self.name@,
            r.paired == self.paired,
            r.system_connected == self.system_connected,
    {
        DiscoveredDevice {
            id: self.id.clone(),
            name: self.name.clone(),
            paired: self.paired,
            system_connected: self.system_connected,
        }
    }
}

/// Outcome of one read from a device stream.
#[derive(Debug)]
pub enum StreamRead {
    Data(Vec<u8>),
    Closed,
}

/// Events that the Bluetooth side reports to the application.
#[derive(Debug)]
pub enum BluetoothEvent {
    DeviceDiscovered(DiscoveredDevice),
    Connected(String),
    Disconnected,
    PacketReceived(Packet),
    Error(String),
}

/// Requests that the application makes of the Bluetooth side.
#[derive(Debug)]
pub enum ManagerCommand {
    Connect(String),
    Disconnect,
    SendPacket(Packet),
}

/// What draining leaves of a buffer is never longer than the buffer.
pub proof fn lemma_drain_rest_shorter(b: Seq<u8>)
    ensures
        drain_frames(b).1.len() <= b.len(),
    decreases b.len(),
{
    lemma_marker_from_bounds(b, 0);
    match marker_from(b, 0) {
        None => {},
        Some(start) => {
            let c = b.skip(start);
            match frame_len(c) {
                None => {},
                Some(total) => if c.len() >= total {
                    match decode_packet(c.take(total)) {
                        Some(p) => {
                            lemma_drain_rest_shorter(c.skip(total));
                        },
                        None => {
                            lemma_drain_rest_shorter(c.skip(1));
                        },
                    }
                },
            }
        },
    }
}

} // verus!
