use vstd::prelude::*;
use crate::app::capabilities::{custom_eq_model, listening_mode_model, load_for_model, personalized_anc_model};
use crate::app::state::{
    actions_view, Action, ActionView, AppState, AppStateView, ConnectedDeviceView,
    DiscoveredDeviceView, EqLevels, InitialDataLoad, load_complete,
};
use crate::app::{device_view, EarNative, EarNativeView};
use crate::bluetooth::DiscoveredDevice;
use crate::models::{ModelInfo, ModelInfoView};
use crate::protocol::{band_bits, parse_response, EqBandBits, Packet, PacketCommand, PacketView, ResponseView};
use crate::text::{owned, str_eq};
use crate::bluetooth::ManagerCommand;
use crate::app::state::discovered_view;
use crate::app::capabilities::base_is;

verus! {

/// The state after a packet with `cmd` and `payload` is sent after `delay`
/// milliseconds: the operation number advances (wrapping at 256) whether or
/// not the command channel exists, and the packet, numbered with the new
/// operation number, goes out only when it does.
pub open spec fn send_spec(s: EarNativeView, cmd: PacketCommand, payload: Seq<u8>, delay: u64) -> (
    EarNativeView,
    Seq<ActionView>,
) {
    let op = ((s.operation_id + 1) % 256) as u8;
    (
        EarNativeView { operation_id: op, ..s },
        if s.has_command_channel {
            seq![
                ActionView::SendPacket {
                    packet: PacketView { command: cmd, payload, operation_id: op },
                    delay_ms: delay,
                },
            ]
        } else {
            Seq::empty()
        },
    )
}

/// Sending each of `cmds` in turn: the operation number advances once per
/// command (wrapping at 256) and nothing else changes; when the command
/// channel exists, the k-th command goes out after its delay, numbered with
/// the starting operation number plus k + 1, and otherwise nothing goes out.
pub open spec fn send_all(s: EarNativeView, cmds: Seq<(PacketCommand, Seq<u8>, u64)>) -> (
    EarNativeView,
    Seq<ActionView>,
) {
    (
        EarNativeView { operation_id: ((s.operation_id + cmds.len()) % 256) as u8, ..s },
        if s.has_command_channel {
            Seq::new(
                cmds.len(),
                |k: int|
                    ActionView::SendPacket {
                        packet: PacketView {
                            command: cmds[k].0,
                            payload: cmds[k].1,
                            operation_id: ((s.operation_id + k + 1) % 256) as u8,
                        },
                        delay_ms: cmds[k].2,
                    },
            )
        } else {
            Seq::empty()
        },
    )
}

/// The reads that follow identification of model `m`, with their delays in
/// milliseconds.
pub open spec fn initial_reads(m: ModelInfoView) -> Seq<(PacketCommand, Seq<u8>, u64)> {
    let e = Seq::<u8>::empty();
    seq![
        (PacketCommand::ReadBattery, e, 100u64),
        (PacketCommand::ReadAnc, e, 300u64),
        (
            if listening_mode_model(m) {
                PacketCommand::ReadListeningMode
            } else {
                PacketCommand::ReadEq
            },
            e,
            500u64,
        ),
    ] + (if personalized_anc_model(m) {
        seq![(PacketCommand::ReadPersonalizedAnc, e, 650u64)]
    } else {
        Seq::empty()
    }) + seq![
        (PacketCommand::ReadInEar, e, 700u64),
        (PacketCommand::ReadLatency, e, 900u64),
        (PacketCommand::ReadEnhancedBass, e, 1100u64),
    ] + (if custom_eq_model(m) {
        seq![(PacketCommand::ReadAdvancedEq, e, 1300u64), (PacketCommand::ReadCustomEq, e, 1500u64)]
    } else {
        Seq::empty()
    })
}

/// Starting to load the data of model `m`: the application shows the model as
/// connected, owes the model's initial reports, waits for its artwork, gives
/// the connected device this model, preloads the artwork, sends the initial
/// reads and arms the load timeout.
pub open spec fn start_load_spec(s: EarNativeView, m: ModelInfoView) -> (
    EarNativeView,
    Seq<ActionView>,
) {
    let s1 = EarNativeView {
        state: AppStateView::Connected(m),
        initial_data_load: Some(load_for_model(m)),
        active_model_assets_ready: false,
        connected_device: match s.connected_device {
            Some(d) => Some(ConnectedDeviceView { model: m, ..d }),
            None => None,
        },
        ..s
    };
    let r = send_all(s1, initial_reads(m));
    (
        r.0,
        seq![ActionView::PreloadModelAssets(m)] + r.1 + seq![
            ActionView::ScheduleInitialDataLoadTimeout,
        ],
    )
}

/// Reports awaited during the initial load.
#[derive(Debug, Clone, Copy, PartialEq, Eq, Structural)]
pub enum LoadItem {
    Battery,
    Anc,
    Eq,
    PersonalizedAnc,
    InEar,
    Latency,
    EnhancedBass,
    CustomEq,
}

/// The load record with the report `item` marked as arrived.
pub open spec fn with_item(l: InitialDataLoad, item: LoadItem) -> InitialDataLoad {
    match item {
        LoadItem::Battery => InitialDataLoad { battery: true, ..l },
        LoadItem::Anc => InitialDataLoad { anc: true, ..l },
        LoadItem::Eq => InitialDataLoad { eq: true, ..l },
        LoadItem::PersonalizedAnc => InitialDataLoad { personalized_anc: true, ..l },
        LoadItem::InEar => InitialDataLoad { in_ear: true, ..l },
        LoadItem::Latency => InitialDataLoad { latency: true, ..l },
        LoadItem::EnhancedBass => InitialDataLoad { enhanced_bass: true, ..l },
        LoadItem::CustomEq => InitialDataLoad { custom_eq: true, ..l },
    }
}

/// Marking a report as arrived: a load in progress records it and ends once
/// complete; without a load in progress nothing changes.
pub open spec fn mark_spec(s: EarNativeView, item: LoadItem) -> EarNativeView {
    match s.initial_data_load {
        Some(l) => {
            let l2 = with_item(l, item);
            EarNativeView {
                initial_data_load: if load_complete(l2) {
                    None
                } else {
                    Some(l2)
                },
                ..s
            }
        },
        None => s,
    }
}

/// Time elapsed since `t`, in milliseconds, or 0 when `t` lies ahead.
pub open spec fn elapsed_ms(now: u64, t: u64) -> int {
    if now >= t {
        now - t
    } else {
        0
    }
}

/// Reconnecting automatically to the last connected device when the system
/// reports it paired and connected while the application is disconnected, at
/// most once every 30 seconds and only when the command channel exists.
pub open spec fn auto_connect_spec(s: EarNativeView, dev: DiscoveredDeviceView, now: u64) -> (
    EarNativeView,
    Seq<ActionView>,
) {
    match s.config.last_connected_device_id {
        None => (s, Seq::empty()),
        Some(last) => {
            if !(s.state is Disconnected) || s.connected_device is Some {
                (s, Seq::empty())
            } else if s.last_auto_connect_at matches Some(t) && elapsed_ms(now, t) < 30000 {
                (s, Seq::empty())
            } else if !dev.system_connected || !dev.paired || dev.id != last
                || !s.has_command_channel {
                (s, Seq::empty())
            } else {
                (
                    EarNativeView {
                        last_auto_connect_at: Some(now),
                        state: AppStateView::Connecting("system reconnect"@),
                        active_model_assets_ready: true,
                        loading_frame: 0,
                        ..s
                    },
                    seq![ActionView::ManagerConnect(dev.id)],
                )
            }
        },
    }
}

/// Views of a list of commands to send.
pub open spec fn cmds_view(c: Seq<(PacketCommand, Vec<u8>, u64)>) -> Seq<(PacketCommand, Seq<u8>, u64)> {
    c.map_values(|x: (PacketCommand, Vec<u8>, u64)| (x.0, x.1@, x.2))
}

/// Actions of two steps in order.
pub proof fn lemma_actions_view_add(a: Seq<Action>, b: Seq<Action>)
    ensures
        actions_view(a + b) == actions_view(a) + actions_view(b),
{
    assert(actions_view(a + b) =~= actions_view(a) + actions_view(b));
}

impl EarNative {
    /// Sends `payload` with `command` after `delay_ms` milliseconds, numbering
    /// the packet with the next operation number.
    pub fn send_delayed_command(&mut self, command: PacketCommand, payload: Vec<u8>, delay_ms: u64) -> (r:
        Vec<Action>)
        ensures
            (final(self)@, actions_view(r@)) == send_spec(old(self)@, command, payload@, delay_ms),
    {
        self.operation_id = self.operation_id.wrapping_add(1);
        let mut out: Vec<Action> = Vec::new();
        if self.has_command_channel {
            let packet = Packet::new(command, payload, self.operation_id);
            out.push(Action::SendPacket { packet, delay_ms });
        }
        proof {
            assert(actions_view(out@) =~= send_spec(old(self)@, command, payload@, delay_ms).1);
        }
        out
    }

    /// Sends `payload` with `command` at once.
    pub fn send_command(&mut self, command: PacketCommand, payload: Vec<u8>) -> (r: Vec<Action>)
        ensures
            (final(self)@, actions_view(r@)) == send_spec(old(self)@, command, payload@, 0),
    {
        self.send_delayed_command(command, payload, 0)
    }

    /// Sends each of `cmds` in turn.
    pub fn send_batch(&mut self, cmds: Vec<(PacketCommand, Vec<u8>, u64)>) -> (r: Vec<Action>)
        ensures
            (final(self)@, actions_view(r@)) == send_all(old(self)@, cmds_view(cmds@)),
    {
        let ghost s0 = self@;
        let ghost cv = cmds_view(cmds@);
        let mut out: Vec<Action> = Vec::new();
        let total = cmds.len();
        let mut rest = cmds;
        let ghost n = cv.len();
        let mut i: usize = 0;
        proof {
            assert(cv.take(0) =~= Seq::<(PacketCommand, Seq<u8>, u64)>::empty());
            assert(actions_view(out@) =~= send_all(s0, cv.take(0)).1);
        }
        while rest.len() > 0
            invariant
                n == cv.len(),
                n == total,
                i + rest@.len() == n,
                forall|k: int|
                    0 <= k < rest@.len() ==> (#[trigger] rest@[k]).0 == cv[i + k].0 && rest@[k].1@ == cv[i + k].1
                        && rest@[k].2 == cv[i + k].2,
                (self@, actions_view(out@)) == send_all(s0, cv.take(i as int)),
            decreases rest@.len(),
        {
            let ghost first = rest@[0];
            let c = rest.remove(0);
            let ghost before = out@;
            let ghost self_before = self@;
            let mut step = self.send_delayed_command(c.0, c.1, c.2);
            let ghost stepv = step@;
            out.append(&mut step);
            proof {
                lemma_actions_view_add(before, stepv);
                vstd::arithmetic::div_mod::lemma_add_mod_noop(s0.operation_id + i, 1, 256);
                assert(self_before.operation_id == ((s0.operation_id + i) % 256) as u8);
                assert(((self_before.operation_id + 1) % 256) as u8 == ((s0.operation_id + (i + 1))
                    % 256) as u8);
                assert(c.0 == cv[i as int].0 && c.1@ == cv[i as int].1 && c.2 == cv[i as int].2);
                let t = cv.take(i + 1);
                assert forall|k: int| 0 <= k < i + 1 implies #[trigger] t[k] == cv[k] by {}
                if s0.has_command_channel {
                    let want = send_all(s0, t).1;
                    let got = actions_view(out@);
                    assert(got.len() == want.len());
                    assert forall|k: int| 0 <= k < got.len() implies got[k] == want[k] by {
                        if k < i {
                            assert(got[k] == actions_view(before)[k]);
                            assert(cv.take(i as int)[k] == cv[k]);
                        } else {
                            assert(got[k] == actions_view(stepv)[0]);
                        }
                    }
                }
                assert(actions_view(out@) =~= send_all(s0, cv.take(i + 1)).1);
            }
            i = i + 1;
        }
        proof {
            assert(cv.take(n as int) =~= cv);
        }
        out
    }
}

/// 2 to the power `e`.
pub open spec fn two_pow(e: nat) -> nat
    decreases e,
{
    if e == 0 {
        1
    } else {
        2 * two_pow((e - 1) as nat)
    }
}

/// Position of the highest set bit of a positive number.
pub open spec fn log2_floor(m: nat) -> nat
    decreases m,
{
    if m < 2 {
        0
    } else {
        1 + log2_floor(m / 2)
    }
}

/// IEEE-754 single-precision bit pattern of the integer `k`, for
/// `-128 <= k <= 127`: zero is all zero bits; otherwise the sign bit, the
/// biased exponent of the highest set bit of `|k|` and the remaining bits of
/// `|k|` as the fraction.
pub open spec fn single_bits(k: int) -> u32 {
    if k == 0 {
        0
    } else {
        let m: nat = if k < 0 {
            (-k) as nat
        } else {
            k as nat
        };
        let e = log2_floor(m);
        let sign: int = if k < 0 {
            0x8000_0000
        } else {
            0
        };
        (sign + (127 + e) * 0x80_0000 + (m - two_pow(e)) * (0x80_0000int / two_pow(e) as int)) as u32
    }
}

/// The four bytes of `v`, least significant first.
pub open spec fn le_bytes(v: u32) -> Seq<u8> {
    seq![
        (v % 0x100) as u8,
        ((v / 0x100) % 0x100) as u8,
        ((v / 0x1_0000) % 0x100) as u8,
        (v / 0x100_0000) as u8,
    ]
}

/// The four bytes that encode the single-precision number with bit pattern
/// `bits` for the equalizer: the bytes least significant first, except that a
/// non-zero number whose three upper bytes are zero gets the top bit of its
/// lowest byte set; for the overall gain (`total`) a number that is not below
/// zero is encoded as 0, 0, 0, 0x80.
pub open spec fn float_eq_bytes(bits: u32, total: bool) -> Seq<u8> {
    let b3 = (bits % 0x100) as u8;
    let upper_zero = bits / 0x100 == 0;
    let nonzero = bits % 0x8000_0000 != 0;
    let not_negative = bits <= 0x7f80_0000 || bits == 0x8000_0000;
    if total && not_negative {
        seq![0u8, 0u8, 0u8, 0x80u8]
    } else if nonzero && upper_zero {
        seq![b3 | 0x80u8, 0u8, 0u8, 0u8]
    } else {
        le_bytes(bits)
    }
}

/// The fixed bytes of a custom-equalizer command.
pub open spec fn eq_template() -> Seq<u8> {
    seq![
        0x03u8, 0x00u8, 0x00u8, 0x00u8, 0x00u8, 0x01u8, 0x00u8, 0x00u8, 0x00u8, 0x00u8, 0x00u8,
        0x00u8, 0x75u8, 0x44u8, 0xc3u8, 0xf5u8, 0x28u8, 0x3fu8, 0x02u8, 0x00u8, 0x00u8, 0x00u8,
        0x00u8, 0x00u8, 0xc0u8, 0x5au8, 0x45u8, 0x00u8, 0x00u8, 0x80u8, 0x3fu8, 0x00u8, 0x00u8,
        0x00u8, 0x00u8, 0x00u8, 0x00u8, 0x00u8, 0x0cu8, 0x43u8, 0xcdu8, 0xccu8, 0x4cu8, 0x3fu8,
        0x00u8, 0x00u8, 0x00u8, 0x00u8, 0x00u8, 0x00u8, 0x00u8, 0x00u8, 0x00u8,
    ]
}

/// Absolute value.
pub open spec fn abs(v: int) -> int {
    if v < 0 {
        -v
    } else {
        v
    }
}

/// The largest absolute level of the three bands.
pub open spec fn max_abs_level(l: EqLevels) -> int {
    let a = abs(l.low as int);
    let b = abs(l.mid as int);
    let c = abs(l.high as int);
    let ab = if a >= b {
        a
    } else {
        b
    };
    if ab >= c {
        ab
    } else {
        c
    }
}

/// Encoding of the overall gain: four zero-ish bytes ending in 0x80 when
/// every band is flat, otherwise the single-precision bytes of the negated
/// largest absolute level.
pub open spec fn eq_gain_bytes(l: EqLevels) -> Seq<u8> {
    if max_abs_level(l) == 0 {
        seq![0u8, 0u8, 0u8, 0x80u8]
    } else {
        le_bytes(single_bits(-max_abs_level(l)))
    }
}

/// Payload of the custom-equalizer command: the template with the overall
/// gain at bytes 1 to 4 and the low, mid and high levels as single-precision
/// numbers at bytes 6, 19 and 32.
pub open spec fn custom_eq_payload(l: EqLevels) -> Seq<u8> {
    let t = eq_template();
    t.take(1) + eq_gain_bytes(l) + t.subrange(5, 6) + le_bytes(single_bits(l.low as int))
        + t.subrange(10, 19) + le_bytes(single_bits(l.mid as int)) + t.subrange(23, 32) + le_bytes(
        single_bits(l.high as int),
    ) + t.subrange(36, 53)
}

proof fn lemma_log2_step(m: nat, rest: nat, p: nat, e: nat)
    requires
        rest >= 2,
        p > 0,
        rest == m / p,
        log2_floor(m) == e + log2_floor(rest),
    ensures
        rest / 2 == m / (p * 2),
        log2_floor(m) == (e + 1) + log2_floor(rest / 2),
{
    vstd::arithmetic::div_mod::lemma_div_denominator(m as int, p as int, 2);
}

/// The highest set bit of a positive number bounds it: `2^e <= m < 2^(e+1)`.
proof fn lemma_log2_bounds(m: nat)
    requires
        m >= 1,
    ensures
        two_pow(log2_floor(m)) <= m < 2 * two_pow(log2_floor(m)),
    decreases m,
{
    if m >= 2 {
        lemma_log2_bounds(m / 2);
    }
}

/// Powers of two grow with the exponent.
proof fn lemma_two_pow_grows(a: nat, b: nat)
    requires
        a <= b,
    ensures
        two_pow(a) <= two_pow(b),
    decreases b,
{
    if a < b {
        lemma_two_pow_grows(a, (b - 1) as nat);
    }
}

/// The single-precision pattern of a non-zero integer of magnitude at most
/// 128 has a non-zero upper part, has its sign bit set exactly for negative
/// numbers, and is a finite number.
proof fn lemma_single_bits_shape(k: int)
    requires
        -128 <= k <= 128,
        k != 0,
    ensures
        single_bits(k) / 0x100 != 0,
        k < 0 ==> single_bits(k) > 0x8000_0000,
        k > 0 ==> single_bits(k) < 0x7f80_0000,
{
    let m: nat = if k < 0 {
        (-k) as nat
    } else {
        k as nat
    };
    lemma_log2_bounds(m);
    let e = log2_floor(m);
    assert(e <= 7) by {
        if e >= 8 {
            lemma_two_pow_grows(8, e);
            reveal_with_fuel(two_pow, 9);
        }
    }
    let p = two_pow(e);
    let q = 0x80_0000int / p as int;
    if e == 0 {
        assert(p == 1) by {
            reveal_with_fuel(two_pow, 8);
        }
        assert(q == 8388608) by (nonlinear_arith)
            requires
                p == 1,
                q == 0x80_0000int / p as int,
        ;
        assert(0 <= (m - p) * q < 0x80_0000) by (nonlinear_arith)
            requires
                p == 1,
                q == 8388608,
                p <= m < 2 * p,
        ;
    } else if e == 1 {
        assert(p == 2) by {
            reveal_with_fuel(two_pow, 8);
        }
        assert(q == 4194304) by (nonlinear_arith)
            requires
                p == 2,
                q == 0x80_0000int / p as int,
        ;
        assert(0 <= (m - p) * q < 0x80_0000) by (nonlinear_arith)
            requires
                p == 2,
                q == 4194304,
                p <= m < 2 * p,
        ;
    } else if e == 2 {
        assert(p == 4) by {
            reveal_with_fuel(two_pow, 8);
        }
        assert(q == 2097152) by (nonlinear_arith)
            requires
                p == 4,
                q == 0x80_0000int / p as int,
        ;
        assert(0 <= (m - p) * q < 0x80_0000) by (nonlinear_arith)
            requires
                p == 4,
                q == 2097152,
                p <= m < 2 * p,
        ;
    } else if e == 3 {
        assert(p == 8) by {
            reveal_with_fuel(two_pow, 8);
        }
        assert(q == 1048576) by (nonlinear_arith)
            requires
                p == 8,
                q == 0x80_0000int / p as int,
        ;
        assert(0 <= (m - p) * q < 0x80_0000) by (nonlinear_arith)
            requires
                p == 8,
                q == 1048576,
                p <= m < 2 * p,
        ;
    } else if e == 4 {
        assert(p == 16) by {
            reveal_with_fuel(two_pow, 8);
        }
        assert(q == 524288) by (nonlinear_arith)
            requires
                p == 16,
                q == 0x80_0000int / p as int,
        ;
        assert(0 <= (m - p) * q < 0x80_0000) by (nonlinear_arith)
            requires
                p == 16,
                q == 524288,
                p <= m < 2 * p,
        ;
    } else if e == 5 {
        assert(p == 32) by {
            reveal_with_fuel(two_pow, 8);
        }
        assert(q == 262144) by (nonlinear_arith)
            requires
                p == 32,
                q == 0x80_0000int / p as int,
        ;
        assert(0 <= (m - p) * q < 0x80_0000) by (nonlinear_arith)
            requires
                p == 32,
                q == 262144,
                p <= m < 2 * p,
        ;
    } else if e == 6 {
        assert(p == 64) by {
            reveal_with_fuel(two_pow, 8);
        }
        assert(q == 131072) by (nonlinear_arith)
            requires
                p == 64,
                q == 0x80_0000int / p as int,
        ;
        assert(0 <= (m - p) * q < 0x80_0000) by (nonlinear_arith)
            requires
                p == 64,
                q == 131072,
                p <= m < 2 * p,
        ;
    } else {
        assert(p == 128) by {
            reveal_with_fuel(two_pow, 8);
        }
        assert(q == 65536) by (nonlinear_arith)
            requires
                p == 128,
                q == 0x80_0000int / p as int,
        ;
        assert(0 <= (m - p) * q < 0x80_0000) by (nonlinear_arith)
            requires
                p == 128,
                q == 65536,
                p <= m < 2 * p,
        ;
    }
}

/// The custom-equalizer payload carries the levels in the device's float
/// encoding (`float_eq_bytes`): the overall gain as the encoding, for the
/// gain, of the negated largest level, and each band as the encoding of its
/// level.
pub proof fn lemma_payload_uses_float_encoding(l: EqLevels)
    ensures
        ({
            let t = eq_template();
            custom_eq_payload(l) == t.take(1) + float_eq_bytes(single_bits(-max_abs_level(l)), true)
                + t.subrange(5, 6) + float_eq_bytes(single_bits(l.low as int), false) + t.subrange(
                10,
                19,
            ) + float_eq_bytes(single_bits(l.mid as int), false) + t.subrange(23, 32)
                + float_eq_bytes(single_bits(l.high as int), false) + t.subrange(36, 53)
        }),
{
    if max_abs_level(l) != 0 {
        lemma_single_bits_shape(-max_abs_level(l));
    }
    if l.low != 0 {
        lemma_single_bits_shape(l.low as int);
    }
    if l.mid != 0 {
        lemma_single_bits_shape(l.mid as int);
    }
    if l.high != 0 {
        lemma_single_bits_shape(l.high as int);
    }
}

/// The four bytes of a pattern, read back least significant first, give the
/// pattern again, and its upper three bytes are all zero only when the
/// pattern is below 0x100.
proof fn lemma_le_bytes_rebuild(v: u32)
    ensures
        (v % 0x100) + ((v / 0x100) % 0x100) * 0x100 + ((v / 0x1_0000) % 0x100) * 0x1_0000 + (v
            / 0x100_0000) * 0x100_0000 == v,
        (v / 0x100) % 0x100 == 0 && (v / 0x1_0000) % 0x100 == 0 && v / 0x100_0000 == 0 <==> v
            < 0x100,
{
    assert((v % 0x100) + ((v / 0x100) % 0x100) * 0x100 + ((v / 0x1_0000) % 0x100) * 0x1_0000 + (v
        / 0x100_0000) * 0x100_0000 == v) by (bit_vector);
    assert((v / 0x100) % 0x100 == 0 && (v / 0x1_0000) % 0x100 == 0 && v / 0x100_0000 == 0 <==> v
        < 0x100) by (bit_vector);
}

/// A band level written in the device's float encoding reads back as the
/// same single-precision bit pattern: decoding the four bytes that encode the
/// level `k` gives the bit pattern of `k`.
pub proof fn lemma_band_encoding_roundtrip(k: i8)
    ensures
        band_bits(float_eq_bytes(single_bits(k as int), false), 0) == single_bits(k as int),
{
    let v = single_bits(k as int);
    if k != 0 {
        lemma_single_bits_shape(k as int);
    }
    lemma_le_bytes_rebuild(v);
    assert(float_eq_bytes(v, false) == le_bytes(v));
}

/// Magnitude of the finite single-precision number with bit pattern `bits`,
/// rounded to the nearest integer with halves rounded up: the number is
/// `significand * 2^shift`, where a zero exponent field gives the significand
/// the fraction field and the shift -149, and any other exponent field `e`
/// gives it the fraction field with the hidden bit and the shift `e - 150`.
pub open spec fn rounded_magnitude(bits: u32) -> nat {
    let e: int = ((bits / 0x80_0000) % 0x100) as int;
    let f: nat = (bits % 0x80_0000) as nat;
    let significand: nat = if e == 0 {
        f
    } else {
        0x80_0000 + f
    };
    let shift: int = if e == 0 {
        -149
    } else {
        e - 150
    };
    if shift >= 0 {
        significand * two_pow(shift as nat)
    } else {
        (significand + two_pow((-shift - 1) as nat)) / two_pow((-shift) as nat)
    }
}

/// The level that an equalizer band reported with the single-precision bit
/// pattern `bits` stands for: the number rounded to the nearest integer,
/// halves away from zero, and held within -6 to 6; infinities give -6 or 6
/// and a NaN gives 0.
pub open spec fn band_level(bits: u32) -> i8 {
    let negative = bits >= 0x8000_0000;
    let e: int = ((bits / 0x80_0000) % 0x100) as int;
    let f: int = (bits % 0x80_0000) as int;
    let m: int = if e == 0xff {
        6
    } else if rounded_magnitude(bits) > 6 {
        6
    } else {
        rounded_magnitude(bits) as int
    };
    if e == 0xff && f != 0 {
        0
    } else if negative {
        (-m) as i8
    } else {
        m as i8
    }
}

/// The levels that a custom-equalizer report stands for, band by band.
pub open spec fn decoded_levels(b: EqBandBits) -> EqLevels {
    EqLevels { low: band_level(b.low), mid: band_level(b.mid), high: band_level(b.high) }
}

/// The rounded magnitude of a finite pattern whose exponent field `e` is at
/// least 130 is above 6, and it is 0 when `e` is below 126.
proof fn lemma_rounded_magnitude_bounds(bits: u32)
    ensures
        ({
            let e: int = ((bits / 0x80_0000) % 0x100) as int;
            &&& 130 <= e < 0xff ==> rounded_magnitude(bits) > 6
            &&& e < 126 ==> rounded_magnitude(bits) == 0
        }),
{
    let e: int = ((bits / 0x80_0000) % 0x100) as int;
    let f: nat = (bits % 0x80_0000) as nat;
    let sig: nat = if e == 0 {
        f
    } else {
        0x80_0000 + f
    };
    assert(two_pow(20) == 0x10_0000 && two_pow(24) == 0x100_0000) by {
        reveal_with_fuel(two_pow, 25);
    }
    if 150 <= e < 0xff {
        let t = two_pow((e - 150) as nat);
        lemma_two_pow_grows(0, (e - 150) as nat);
        assert(sig * t > 6) by (nonlinear_arith)
            requires
                t >= 1,
                sig >= 0x80_0000,
        ;
    } else if 130 <= e < 150 {
        let s: nat = (150 - e) as nat;
        let h = two_pow((s - 1) as nat);
        let p = two_pow(s);
        lemma_two_pow_grows(s, 20);
        lemma_two_pow_grows(0, s);
        assert((sig + h) / p > 6) by (nonlinear_arith)
            requires
                1 <= p <= 0x10_0000,
                sig >= 0x80_0000,
                h >= 0,
        ;
    } else if e < 126 {
        let s: nat = if e == 0 {
            149
        } else {
            (150 - e) as nat
        };
        let h = two_pow((s - 1) as nat);
        let p = two_pow(s);
        lemma_two_pow_grows(24, (s - 1) as nat);
        assert(p == 2 * h);
        assert((sig + h) / p == 0) by (nonlinear_arith)
            requires
                sig < 0x100_0000,
                0x100_0000 <= h,
                p == 2 * h,
        ;
    }
}

/// A level from -6 to 6 reads back as itself from its bit pattern.
proof fn lemma_level_reads_back(k: int)
    requires
        -6 <= k <= 6,
    ensures
        band_level(single_bits(k)) == k,
{
    if k == 0 {
        let h = two_pow(148);
        lemma_two_pow_grows(0, 148);
        assert(h / (2 * h) == 0) by (nonlinear_arith)
            requires
                h >= 1,
        ;
        assert(rounded_magnitude(0u32) == 0);
    } else if k == -6 {
        assert(band_level(single_bits(-6)) == -6) by {
            assert(log2_floor(6) == 2) by {
                reveal_with_fuel(log2_floor, 4);
            }
            assert(two_pow(2) == 4) by {
                reveal_with_fuel(two_pow, 4);
            }
            assert(0x80_0000int / 4 == 0x200000);
            assert(single_bits(-6) == (0x8000_0000 + (127 + 2) * 0x80_0000 + (6 - 4) * 0x200000) as u32);
            assert(single_bits(-6) == 0xc0c00000u32);
            assert(two_pow(20) == 0x100000 && two_pow(21) == 0x200000) by {
                reveal_with_fuel(two_pow, 22);
            }
            assert((0xc0c00000u32 / 0x80_0000) % 0x100 == 129);
            assert(0xc0c00000u32 % 0x80_0000 == 0x400000);
            assert(rounded_magnitude(0xc0c00000u32) == (0x80_0000 + 0x400000 + two_pow(20)) / two_pow(21));
            assert(rounded_magnitude(0xc0c00000u32) == 6);
        }
    } else if k == -5 {
        assert(band_level(single_bits(-5)) == -5) by {
            assert(log2_floor(5) == 2) by {
                reveal_with_fuel(log2_floor, 4);
            }
            assert(two_pow(2) == 4) by {
                reveal_with_fuel(two_pow, 4);
            }
            assert(0x80_0000int / 4 == 0x200000);
            assert(single_bits(-5) == (0x8000_0000 + (127 + 2) * 0x80_0000 + (5 - 4) * 0x200000) as u32);
            assert(single_bits(-5) == 0xc0a00000u32);
            assert(two_pow(20) == 0x100000 && two_pow(21) == 0x200000) by {
                reveal_with_fuel(two_pow, 22);
            }
            assert((0xc0a00000u32 / 0x80_0000) % 0x100 == 129);
            assert(0xc0a00000u32 % 0x80_0000 == 0x200000);
            assert(rounded_magnitude(0xc0a00000u32) == (0x80_0000 + 0x200000 + two_pow(20)) / two_pow(21));
            assert(rounded_magnitude(0xc0a00000u32) == 5);
        }
    } else if k == -4 {
        assert(band_level(single_bits(-4)) == -4) by {
            assert(log2_floor(4) == 2) by {
                reveal_with_fuel(log2_floor, 4);
            }
            assert(two_pow(2) == 4) by {
                reveal_with_fuel(two_pow, 4);
            }
            assert(0x80_0000int / 4 == 0x200000);
            assert(single_bits(-4) == (0x8000_0000 + (127 + 2) * 0x80_0000 + (4 - 4) * 0x200000) as u32);
            assert(single_bits(-4) == 0xc0800000u32);
            assert(two_pow(20) == 0x100000 && two_pow(21) == 0x200000) by {
                reveal_with_fuel(two_pow, 22);
            }
            assert((0xc0800000u32 / 0x80_0000) % 0x100 == 129);
            assert(0xc0800000u32 % 0x80_0000 == 0x0);
            assert(rounded_magnitude(0xc0800000u32) == (0x80_0000 + 0x0 + two_pow(20)) / two_pow(21));
            assert(rounded_magnitude(0xc0800000u32) == 4);
        }
    } else if k == -3 {
        assert(band_level(single_bits(-3)) == -3) by {
            assert(log2_floor(3) == 1) by {
                reveal_with_fuel(log2_floor, 4);
            }
            assert(two_pow(1) == 2) by {
                reveal_with_fuel(two_pow, 4);
            }
            assert(0x80_0000int / 2 == 0x400000);
            assert(single_bits(-3) == (0x8000_0000 + (127 + 1) * 0x80_0000 + (3 - 2) * 0x400000) as u32);
            assert(single_bits(-3) == 0xc0400000u32);
            assert(two_pow(21) == 0x200000 && two_pow(22) == 0x400000) by {
                reveal_with_fuel(two_pow, 23);
            }
            assert((0xc0400000u32 / 0x80_0000) % 0x100 == 128);
            assert(0xc0400000u32 % 0x80_0000 == 0x400000);
            assert(rounded_magnitude(0xc0400000u32) == (0x80_0000 + 0x400000 + two_pow(21)) / two_pow(22));
            assert(rounded_magnitude(0xc0400000u32) == 3);
        }
    } else if k == -2 {
        assert(band_level(single_bits(-2)) == -2) by {
            assert(log2_floor(2) == 1) by {
                reveal_with_fuel(log2_floor, 4);
            }
            assert(two_pow(1) == 2) by {
                reveal_with_fuel(two_pow, 4);
            }
            assert(0x80_0000int / 2 == 0x400000);
            assert(single_bits(-2) == (0x8000_0000 + (127 + 1) * 0x80_0000 + (2 - 2) * 0x400000) as u32);
            assert(single_bits(-2) == 0xc0000000u32);
            assert(two_pow(21) == 0x200000 && two_pow(22) == 0x400000) by {
                reveal_with_fuel(two_pow, 23);
            }
            assert((0xc0000000u32 / 0x80_0000) % 0x100 == 128);
            assert(0xc0000000u32 % 0x80_0000 == 0x0);
            assert(rounded_magnitude(0xc0000000u32) == (0x80_0000 + 0x0 + two_pow(21)) / two_pow(22));
            assert(rounded_magnitude(0xc0000000u32) == 2);
        }
    } else if k == -1 {
        assert(band_level(single_bits(-1)) == -1) by {
            assert(log2_floor(1) == 0) by {
                reveal_with_fuel(log2_floor, 4);
            }
            assert(two_pow(0) == 1) by {
                reveal_with_fuel(two_pow, 4);
            }
            assert(0x80_0000int / 1 == 0x800000);
            assert(single_bits(-1) == (0x8000_0000 + (127 + 0) * 0x80_0000 + (1 - 1) * 0x800000) as u32);
            assert(single_bits(-1) == 0xbf800000u32);
            assert(two_pow(22) == 0x400000 && two_pow(23) == 0x800000) by {
                reveal_with_fuel(two_pow, 24);
            }
            assert((0xbf800000u32 / 0x80_0000) % 0x100 == 127);
            assert(0xbf800000u32 % 0x80_0000 == 0x0);
            assert(rounded_magnitude(0xbf800000u32) == (0x80_0000 + 0x0 + two_pow(22)) / two_pow(23));
            assert(rounded_magnitude(0xbf800000u32) == 1);
        }
    } else if k == 1 {
        assert(band_level(single_bits(1)) == 1) by {
            assert(log2_floor(1) == 0) by {
                reveal_with_fuel(log2_floor, 4);
            }
            assert(two_pow(0) == 1) by {
                reveal_with_fuel(two_pow, 4);
            }
            assert(0x80_0000int / 1 == 0x800000);
            assert(single_bits(1) == (0 + (127 + 0) * 0x80_0000 + (1 - 1) * 0x800000) as u32);
            assert(single_bits(1) == 0x3f800000u32);
            assert(two_pow(22) == 0x400000 && two_pow(23) == 0x800000) by {
                reveal_with_fuel(two_pow, 24);
            }
            assert((0x3f800000u32 / 0x80_0000) % 0x100 == 127);
            assert(0x3f800000u32 % 0x80_0000 == 0x0);
            assert(rounded_magnitude(0x3f800000u32) == (0x80_0000 + 0x0 + two_pow(22)) / two_pow(23));
            assert(rounded_magnitude(0x3f800000u32) == 1);
        }
    } else if k == 2 {
        assert(band_level(single_bits(2)) == 2) by {
            assert(log2_floor(2) == 1) by {
                reveal_with_fuel(log2_floor, 4);
            }
            assert(two_pow(1) == 2) by {
                reveal_with_fuel(two_pow, 4);
            }
            assert(0x80_0000int / 2 == 0x400000);
            assert(single_bits(2) == (0 + (127 + 1) * 0x80_0000 + (2 - 2) * 0x400000) as u32);
            assert(single_bits(2) == 0x40000000u32);
            assert(two_pow(21) == 0x200000 && two_pow(22) == 0x400000) by {
                reveal_with_fuel(two_pow, 23);
            }
            assert((0x40000000u32 / 0x80_0000) % 0x100 == 128);
            assert(0x40000000u32 % 0x80_0000 == 0x0);
            assert(rounded_magnitude(0x40000000u32) == (0x80_0000 + 0x0 + two_pow(21)) / two_pow(22));
            assert(rounded_magnitude(0x40000000u32) == 2);
        }
    } else if k == 3 {
        assert(band_level(single_bits(3)) == 3) by {
            assert(log2_floor(3) == 1) by {
                reveal_with_fuel(log2_floor, 4);
            }
            assert(two_pow(1) == 2) by {
                reveal_with_fuel(two_pow, 4);
            }
            assert(0x80_0000int / 2 == 0x400000);
            assert(single_bits(3) == (0 + (127 + 1) * 0x80_0000 + (3 - 2) * 0x400000) as u32);
            assert(single_bits(3) == 0x40400000u32);
            assert(two_pow(21) == 0x200000 && two_pow(22) == 0x400000) by {
                reveal_with_fuel(two_pow, 23);
            }
            assert((0x40400000u32 / 0x80_0000) % 0x100 == 128);
            assert(0x40400000u32 % 0x80_0000 == 0x400000);
            assert(rounded_magnitude(0x40400000u32) == (0x80_0000 + 0x400000 + two_pow(21)) / two_pow(22));
            assert(rounded_magnitude(0x40400000u32) == 3);
        }
    } else if k == 4 {
        assert(band_level(single_bits(4)) == 4) by {
            assert(log2_floor(4) == 2) by {
                reveal_with_fuel(log2_floor, 4);
            }
            assert(two_pow(2) == 4) by {
                reveal_with_fuel(two_pow, 4);
            }
            assert(0x80_0000int / 4 == 0x200000);
            assert(single_bits(4) == (0 + (127 + 2) * 0x80_0000 + (4 - 4) * 0x200000) as u32);
            assert(single_bits(4) == 0x40800000u32);
            assert(two_pow(20) == 0x100000 && two_pow(21) == 0x200000) by {
                reveal_with_fuel(two_pow, 22);
            }
            assert((0x40800000u32 / 0x80_0000) % 0x100 == 129);
            assert(0x40800000u32 % 0x80_0000 == 0x0);
            assert(rounded_magnitude(0x40800000u32) == (0x80_0000 + 0x0 + two_pow(20)) / two_pow(21));
            assert(rounded_magnitude(0x40800000u32) == 4);
        }
    } else if k == 5 {
        assert(band_level(single_bits(5)) == 5) by {
            assert(log2_floor(5) == 2) by {
                reveal_with_fuel(log2_floor, 4);
            }
            assert(two_pow(2) == 4) by {
                reveal_with_fuel(two_pow, 4);
            }
            assert(0x80_0000int / 4 == 0x200000);
            assert(single_bits(5) == (0 + (127 + 2) * 0x80_0000 + (5 - 4) * 0x200000) as u32);
            assert(single_bits(5) == 0x40a00000u32);
            assert(two_pow(20) == 0x100000 && two_pow(21) == 0x200000) by {
                reveal_with_fuel(two_pow, 22);
            }
            assert((0x40a00000u32 / 0x80_0000) % 0x100 == 129);
            assert(0x40a00000u32 % 0x80_0000 == 0x200000);
            assert(rounded_magnitude(0x40a00000u32) == (0x80_0000 + 0x200000 + two_pow(20)) / two_pow(21));
            assert(rounded_magnitude(0x40a00000u32) == 5);
        }
    } else if k == 6 {
        assert(band_level(single_bits(6)) == 6) by {
            assert(log2_floor(6) == 2) by {
                reveal_with_fuel(log2_floor, 4);
            }
            assert(two_pow(2) == 4) by {
                reveal_with_fuel(two_pow, 4);
            }
            assert(0x80_0000int / 4 == 0x200000);
            assert(single_bits(6) == (0 + (127 + 2) * 0x80_0000 + (6 - 4) * 0x200000) as u32);
            assert(single_bits(6) == 0x40c00000u32);
            assert(two_pow(20) == 0x100000 && two_pow(21) == 0x200000) by {
                reveal_with_fuel(two_pow, 22);
            }
            assert((0x40c00000u32 / 0x80_0000) % 0x100 == 129);
            assert(0x40c00000u32 % 0x80_0000 == 0x400000);
            assert(rounded_magnitude(0x40c00000u32) == (0x80_0000 + 0x400000 + two_pow(20)) / two_pow(21));
            assert(rounded_magnitude(0x40c00000u32) == 6);
        }
    }
}

/// Four bytes holding a pattern least significant first read back as that
/// pattern, when it is zero or its upper three bytes are not all zero.
proof fn lemma_band_bits_at(p: Seq<u8>, base: int, v: u32)
    requires
        0 <= base,
        base + 4 <= p.len(),
        p.subrange(base, base + 4) == le_bytes(v),
        v == 0 || v / 0x100 != 0,
    ensures
        band_bits(p, base) == v,
{
    lemma_le_bytes_rebuild(v);
    assert(p[base] == le_bytes(v)[0]);
    assert(p[base + 1] == le_bytes(v)[1]);
    assert(p[base + 2] == le_bytes(v)[2]);
    assert(p[base + 3] == le_bytes(v)[3]);
}

/// A custom-equalizer payload, read back as the device's report, gives the
/// bands rotated: the report's low band is the value written for the high
/// band, its mid band the one for the low band and its high band the one for
/// the mid band, and so are the levels they stand for.
pub proof fn lemma_custom_eq_readback_rotates(l: EqLevels, op: u8)
    requires
        -6 <= l.low <= 6,
        -6 <= l.mid <= 6,
        -6 <= l.high <= 6,
    ensures
        ({
            let r = parse_response(
                PacketView {
                    command: PacketCommand::RespCustomEq,
                    payload: custom_eq_payload(l),
                    operation_id: op,
                },
            );
            &&& r == ResponseView::CustomEq(
                EqBandBits {
                    low: single_bits(l.high as int),
                    mid: single_bits(l.low as int),
                    high: single_bits(l.mid as int),
                },
            )
            &&& r matches ResponseView::CustomEq(b) && decoded_levels(b) == EqLevels {
                low: l.high,
                mid: l.low,
                high: l.mid,
            }
        }),
{
    reveal(parse_response);
    let pl = custom_eq_payload(l);
    let t = eq_template();
    if max_abs_level(l) != 0 {
        lemma_single_bits_shape(-max_abs_level(l));
    }
    assert(eq_gain_bytes(l).len() == 4);
    assert(pl.len() == 53);
    assert(pl.subrange(6, 10) =~= le_bytes(single_bits(l.low as int)));
    assert(pl.subrange(19, 23) =~= le_bytes(single_bits(l.mid as int)));
    assert(pl.subrange(32, 36) =~= le_bytes(single_bits(l.high as int)));
    if l.low != 0 {
        lemma_single_bits_shape(l.low as int);
    }
    if l.mid != 0 {
        lemma_single_bits_shape(l.mid as int);
    }
    if l.high != 0 {
        lemma_single_bits_shape(l.high as int);
    }
    lemma_band_bits_at(pl, 6, single_bits(l.low as int));
    lemma_band_bits_at(pl, 19, single_bits(l.mid as int));
    lemma_band_bits_at(pl, 32, single_bits(l.high as int));
    lemma_level_reads_back(l.low as int);
    lemma_level_reads_back(l.mid as int);
    lemma_level_reads_back(l.high as int);
}

/// The level of an equalizer band reported with bit pattern `bits` (see
/// `band_level`).
pub fn decode_band_level(bits: u32) -> (r: i8)
    ensures
        r == band_level(bits),
        -6 <= r <= 6,
{
    let negative = bits >= 0x8000_0000;
    let e: u32 = (bits / 0x80_0000) % 0x100;
    let f: u32 = bits % 0x80_0000;
    proof {
        lemma_rounded_magnitude_bounds(bits);
        reveal_with_fuel(two_pow, 25);
    }
    if e == 0xff && f != 0 {
        return 0;
    }
    let m: u32 = if e == 0xff || e >= 130 {
        6
    } else if e < 126 {
        0
    } else if e == 126 {
        (0x80_0000 + f + 0x80_0000) / 0x100_0000
    } else if e == 127 {
        (0x80_0000 + f + 0x40_0000) / 0x80_0000
    } else if e == 128 {
        (0x80_0000 + f + 0x20_0000) / 0x40_0000
    } else {
        (0x80_0000 + f + 0x10_0000) / 0x20_0000
    };
    let capped: u32 = if m > 6 {
        6
    } else {
        m
    };
    if negative {
        0i8 - capped as i8
    } else {
        capped as i8
    }
}

/// The levels of a custom-equalizer report (see `decoded_levels`).
pub fn decode_levels(b: EqBandBits) -> (r: EqLevels)
    ensures
        r == decoded_levels(b),
{
    EqLevels {
        low: decode_band_level(b.low),
        mid: decode_band_level(b.mid),
        high: decode_band_level(b.high),
    }
}

/// Single-precision bit pattern of an equalizer level.
pub fn level_bits(k: i8) -> (r: u32)
    ensures
        r == single_bits(k as int),
{
    if k == 0 {
        return 0;
    }
    let m: u64 = if k < 0 {
        (0i16 - k as i16) as u64
    } else {
        k as u64
    };
    let ghost mn: nat = m as nat;
    let mut rest: u64 = m;
    let mut p: u64 = 1;
    let mut e: u64 = 0;
    proof {
        assert(rest == m / p);
    }
    while rest >= 2
        invariant
            1 <= rest <= 128,
            1 <= p <= 128,
            e <= 7,
            mn == m,
            1 <= m <= 128,
            p == two_pow(e as nat),
            rest == m / p,
            p * rest <= m,
            log2_floor(mn) == e + log2_floor(rest as nat),
        decreases rest,
    {
        proof {
            lemma_log2_step(mn, rest as nat, p as nat, e as nat);
            assert(p * 2 * (rest / 2) <= p * rest) by (nonlinear_arith)
                requires
                    rest >= 2,
                    p >= 1,
            ;
            assert(p * 2 <= p * rest) by (nonlinear_arith)
                requires
                    rest >= 2,
                    p >= 1,
            ;
            assert(rest / 2 >= 1);
            assert(e < 7) by {
                if e >= 7 {
                    assert(p == 128) by {
                        reveal_with_fuel(two_pow, 8);
                    }
                }
            }
        }
        rest = rest / 2;
        p = p * 2;
        e = e + 1;
    }
    proof {
        assert(log2_floor(rest as nat) == 0);
    }
    let sign: u64 = if k < 0 {
        0x8000_0000
    } else {
        0
    };
    let q: u64 = 0x80_0000 / p;
    proof {
        assert(m >= p) by (nonlinear_arith)
            requires
                p * rest <= m,
                rest >= 1,
                p >= 1,
        ;
        assert((m - p) * q <= 128 * 0x80_0000) by (nonlinear_arith)
            requires
                m - p <= 128,
                q <= 0x80_0000,
                m >= p,
        ;
    }
    let total: u64 = sign + (127 + e) * 0x80_0000 + (m - p) * q;
    total as u32
}

/// The four bytes of `v`, least significant first, appended to `out`.
fn push_le(out: &mut Vec<u8>, v: u32)
    ensures
        final(out)@ == old(out)@ + le_bytes(v),
{
    out.push((v % 0x100) as u8);
    out.push(((v / 0x100) % 0x100) as u8);
    out.push(((v / 0x1_0000) % 0x100) as u8);
    out.push((v / 0x100_0000) as u8);
    proof {
        assert(final(out)@ =~= old(out)@ + le_bytes(v));
    }
}

/// Bytes `from..to` of the template appended to `out`.
fn push_template(out: &mut Vec<u8>, from: usize, to: usize)
    requires
        from <= to <= 53,
    ensures
        final(out)@ == old(out)@ + eq_template().subrange(from as int, to as int),
{
    let t: [u8; 53] = [
        0x03, 0x00, 0x00, 0x00, 0x00, 0x01, 0x00, 0x00, 0x00, 0x00, 0x00, 0x00, 0x75, 0x44,
        0xc3, 0xf5, 0x28, 0x3f, 0x02, 0x00, 0x00, 0x00, 0x00, 0x00, 0xc0, 0x5a, 0x45, 0x00,
        0x00, 0x80, 0x3f, 0x00, 0x00, 0x00, 0x00, 0x00, 0x00, 0x00, 0x0c, 0x43, 0xcd, 0xcc,
        0x4c, 0x3f, 0x00, 0x00, 0x00, 0x00, 0x00, 0x00, 0x00, 0x00, 0x00,
    ];
    proof {
        assert(t@ =~= eq_template());
    }
    let ghost start = out@;
    let mut i = from;
    while i < to
        invariant
            from <= i <= to,
            to <= 53,
            t@ == eq_template(),
            out@ == start + eq_template().subrange(from as int, i as int),
        decreases to - i,
    {
        out.push(t[i]);
        i = i + 1;
        proof {
            assert(out@ =~= start + eq_template().subrange(from as int, i as int));
        }
    }
}

fn abs_level(v: i8) -> (r: i16)
    ensures
        r == abs(v as int),
{
    if v < 0 {
        0 - v as i16
    } else {
        v as i16
    }
}

impl EarNative {
    /// Equalizer encoding of the single-precision number with bit pattern
    /// `bits` (see `float_eq_bytes`).
    pub fn format_float_for_eq(bits: u32, total: bool) -> (r: [u8; 4])
        ensures
            r@ == float_eq_bytes(bits, total),
    {
        let not_negative = bits <= 0x7f80_0000 || bits == 0x8000_0000;
        if total && not_negative {
            let r = [0u8, 0u8, 0u8, 0x80u8];
            proof {
                assert(r@ =~= float_eq_bytes(bits, total));
            }
            return r;
        }
        let b3 = (bits % 0x100) as u8;
        if bits % 0x8000_0000 != 0 && bits / 0x100 == 0 {
            let r = [b3 | 0x80u8, 0u8, 0u8, 0u8];
            proof {
                assert(r@ =~= float_eq_bytes(bits, total));
            }
            r
        } else {
            let r = [
                b3,
                ((bits / 0x100) % 0x100) as u8,
                ((bits / 0x1_0000) % 0x100) as u8,
                (bits / 0x100_0000) as u8,
            ];
            proof {
                assert(r@ =~= float_eq_bytes(bits, total));
            }
            r
        }
    }

    /// Sends the three custom-equalizer levels to the device.
    pub fn send_custom_eq_commands(&mut self, custom_eq: EqLevels) -> (r: Vec<Action>)
        ensures
            (final(self)@, actions_view(r@)) == send_spec(
                old(self)@,
                PacketCommand::SetCustomEq,
                custom_eq_payload(custom_eq),
                0,
            ),
    {
        self.send_command(PacketCommand::SetCustomEq, EarNative::build_custom_eq_payload(custom_eq))
    }

    /// Payload of the command that sets the three custom-equalizer levels.
    pub fn build_custom_eq_payload(custom_eq: EqLevels) -> (r: Vec<u8>)
        ensures
            r@ == custom_eq_payload(custom_eq),
    {
        let mut highest: i16 = 0;
        let a = abs_level(custom_eq.low);
        let b = abs_level(custom_eq.mid);
        let c = abs_level(custom_eq.high);
        if a > highest {
            highest = a;
        }
        if b > highest {
            highest = b;
        }
        if c > highest {
            highest = c;
        }
        proof {
            assert(highest == max_abs_level(custom_eq));
        }
        let mut out: Vec<u8> = Vec::new();
        push_template(&mut out, 0, 1);
        if highest == 0 {
            out.push(0);
            out.push(0);
            out.push(0);
            out.push(0x80);
        } else {
            let neg = (0 - highest) as i8;
            push_le(&mut out, level_bits(neg));
        }
        push_template(&mut out, 5, 6);
        push_le(&mut out, level_bits(custom_eq.low));
        push_template(&mut out, 10, 19);
        push_le(&mut out, level_bits(custom_eq.mid));
        push_template(&mut out, 23, 32);
        push_le(&mut out, level_bits(custom_eq.high));
        push_template(&mut out, 36, 53);
        proof {
            assert(out@ =~= custom_eq_payload(custom_eq));
        }
        out
    }
}

/// The initial reads of a model.
fn initial_reads_exec(model: &ModelInfo) -> (r: Vec<(PacketCommand, Vec<u8>, u64)>)
    ensures
        cmds_view(r@) == initial_reads(model@),
{
    let mut v: Vec<(PacketCommand, Vec<u8>, u64)> = Vec::new();
    v.push((PacketCommand::ReadBattery, Vec::new(), 100));
    v.push((PacketCommand::ReadAnc, Vec::new(), 300));
    let eq_read = if base_is(model, "B172") || base_is(model, "B168") {
        PacketCommand::ReadListeningMode
    } else {
        PacketCommand::ReadEq
    };
    v.push((eq_read, Vec::new(), 500));
    if EarNative::supports_personalized_anc(model) {
        v.push((PacketCommand::ReadPersonalizedAnc, Vec::new(), 650));
    }
    v.push((PacketCommand::ReadInEar, Vec::new(), 700));
    v.push((PacketCommand::ReadLatency, Vec::new(), 900));
    v.push((PacketCommand::ReadEnhancedBass, Vec::new(), 1100));
    if EarNative::supports_custom_eq(model) {
        v.push((PacketCommand::ReadAdvancedEq, Vec::new(), 1300));
        v.push((PacketCommand::ReadCustomEq, Vec::new(), 1500));
    }
    proof {
        assert(cmds_view(v@) =~= initial_reads(model@));
    }
    v
}

/// The load record with the report `item` marked as arrived.
fn mark_item(l: InitialDataLoad, item: LoadItem) -> (r: InitialDataLoad)
    ensures
        r == with_item(l, item),
{
    let mut r = l;
    match item {
        LoadItem::Battery => {
            r.battery = true;
        },
        LoadItem::Anc => {
            r.anc = true;
        },
        LoadItem::Eq => {
            r.eq = true;
        },
        LoadItem::PersonalizedAnc => {
            r.personalized_anc = true;
        },
        LoadItem::InEar => {
            r.in_ear = true;
        },
        LoadItem::Latency => {
            r.latency = true;
        },
        LoadItem::EnhancedBass => {
            r.enhanced_bass = true;
        },
        LoadItem::CustomEq => {
            r.custom_eq = true;
        },
    }
    r
}

/// The action that carries a request to the Bluetooth side.
pub open spec fn manager_action(c: ManagerCommand) -> ActionView {
    match c {
        ManagerCommand::Connect(id) => ActionView::ManagerConnect(id@),
        ManagerCommand::Disconnect => ActionView::ManagerDisconnect,
        ManagerCommand::SendPacket(p) => ActionView::SendPacket { packet: p@, delay_ms: 0 },
    }
}

impl EarNative {
    /// Starts loading the data of `model` once it is identified.
    pub fn start_initial_data_load(&mut self, model: ModelInfo) -> (r: Vec<Action>)
        ensures
            (final(self)@, actions_view(r@)) == start_load_spec(old(self)@, model@),
    {
        let ghost s0 = self@;
        self.state = AppState::Connected(model.clone());
        self.initial_data_load = Some(InitialDataLoad::for_model(&model));
        self.active_model_assets_ready = false;
        match &mut self.connected_device {
            Some(d) => {
                d.model = model.clone();
            },
            None => {},
        }
        let ghost s1 = self@;
        proof {
            assert(s1 == (EarNativeView {
                state: AppStateView::Connected(model@),
                initial_data_load: Some(load_for_model(model@)),
                active_model_assets_ready: false,
                connected_device: match s0.connected_device {
                    Some(d) => Some(ConnectedDeviceView { model: model@, ..d }),
                    None => None,
                },
                ..s0
            }));
        }
        let cmds = initial_reads_exec(&model);
        let mut out: Vec<Action> = Vec::new();
        out.push(Action::PreloadModelAssets(model));
        let mut sent = self.send_batch(cmds);
        let ghost first = out@;
        let ghost sent_v = sent@;
        out.append(&mut sent);
        out.push(Action::ScheduleInitialDataLoadTimeout);
        proof {
            assert(actions_view(out@) =~= seq![ActionView::PreloadModelAssets(model@)]
                + actions_view(sent_v) + seq![ActionView::ScheduleInitialDataLoadTimeout]);
        }
        out
    }

    /// Records that the report `item` arrived; the load ends once every report
    /// it awaits is in.
    pub fn mark_initial_data_loaded(&mut self, item: LoadItem)
        ensures
            final(self)@ == mark_spec(old(self)@, item),
    {
        match self.initial_data_load {
            Some(load) => {
                let l2 = mark_item(load, item);
                if l2.is_complete() {
                    self.initial_data_load = None;
                } else {
                    self.initial_data_load = Some(l2);
                }
            },
            None => {},
        }
    }

    /// Hands a request to the Bluetooth side, when the command channel exists.
    pub fn send_manager_command(&self, command: ManagerCommand) -> (r: Vec<Action>)
        ensures
            actions_view(r@) == if self.has_command_channel {
                seq![manager_action(command)]
            } else {
                Seq::<ActionView>::empty()
            },
    {
        let mut out: Vec<Action> = Vec::new();
        if self.has_command_channel {
            let a = match command {
                ManagerCommand::Connect(id) => Action::ManagerConnect(id),
                ManagerCommand::Disconnect => Action::ManagerDisconnect,
                ManagerCommand::SendPacket(p) => Action::SendPacket { packet: p, delay_ms: 0 },
            };
            out.push(a);
        }
        proof {
            assert(actions_view(out@) =~= if self.has_command_channel {
                seq![manager_action(command)]
            } else {
                Seq::<ActionView>::empty()
            });
        }
        out
    }

    /// Saves the settings.
    pub fn persist_config(&self) -> (r: Vec<Action>)
        ensures
            actions_view(r@) == seq![ActionView::PersistConfig],
    {
        let mut out: Vec<Action> = Vec::new();
        out.push(Action::PersistConfig);
        proof {
            assert(actions_view(out@) =~= seq![ActionView::PersistConfig]);
        }
        out
    }

    /// Reconnects to the last connected device when the system reports it
    /// available (see `auto_connect_spec`); `now_ms` is the current time.
    pub fn maybe_auto_connect(&mut self, device: &DiscoveredDevice, now_ms: u64) -> (r: Vec<Action>)
        ensures
            (final(self)@, actions_view(r@)) == auto_connect_spec(
                old(self)@,
                discovered_view(*device),
                now_ms,
            ),
    {
        let mut out: Vec<Action> = Vec::new();
        proof {
            assert(actions_view(out@) =~= Seq::<ActionView>::empty());
        }
        let same = match &self.config.last_connected_device_id {
            None => {
                return out;
            },
            Some(last) => str_eq(device.id.as_str(), last.as_str()),
        };
        let disconnected = match &self.state {
            AppState::Disconnected => true,
            _ => false,
        };
        if !disconnected || self.connected_device.is_some() {
            return out;
        }
        match self.last_auto_connect_at {
            Some(t) => {
                let elapsed: u64 = if now_ms >= t {
                    now_ms - t
                } else {
                    0
                };
                if elapsed < 30000 {
                    return out;
                }
            },
            None => {},
        }
        if !device.system_connected || !device.paired || !same || !self.has_command_channel {
            return out;
        }
        self.last_auto_connect_at = Some(now_ms);
        let label = owned("system reconnect");
        self.state = AppState::Connecting(label);
        self.active_model_assets_ready = true;
        self.loading_frame = 0;
        out.push(Action::ManagerConnect(device.id.clone()));
        proof {
            assert(actions_view(out@) =~= seq![ActionView::ManagerConnect(device.id@)]);
        }
        out
    }
}

} // verus!
