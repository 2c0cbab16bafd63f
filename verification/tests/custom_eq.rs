use ear_native::app::commands::{decode_band_level, decode_levels, level_bits};
use ear_native::app::state::EqLevels;
use ear_native::app::EarNative;
use ear_native::protocol::{EqBandBits, Packet, PacketCommand, ParsedResponse};

/// The float encoding the device expects, written with `f32`.
fn float_bytes(f: f32, total: bool) -> [u8; 4] {
    let mut b = f.to_be_bytes();
    if f != 0.0 && b[0] == 0 && b[1] == 0 && b[2] == 0 {
        b[3] |= 0x80;
    }
    b.reverse();
    if total && f >= 0.0 {
        return [0x00, 0x00, 0x00, 0x80];
    }
    b
}

fn float_payload(levels: [f32; 3]) -> Vec<u8> {
    let mut payload: Vec<u8> = vec![
        0x03, 0x00, 0x00, 0x00, 0x00, 0x01, 0x00, 0x00, 0x00, 0x00, 0x00, 0x00, 0x75, 0x44, 0xc3,
        0xf5, 0x28, 0x3f, 0x02, 0x00, 0x00, 0x00, 0x00, 0x00, 0xc0, 0x5a, 0x45, 0x00, 0x00, 0x80,
        0x3f, 0x00, 0x00, 0x00, 0x00, 0x00, 0x00, 0x00, 0x0c, 0x43, 0xcd, 0xcc, 0x4c, 0x3f, 0x00,
        0x00, 0x00, 0x00, 0x00, 0x00, 0x00, 0x00, 0x00,
    ];
    let mut highest = 0.0f32;
    for v in levels {
        highest = highest.max(v.abs());
    }
    payload[1..5].copy_from_slice(&float_bytes(-highest, true));
    for (i, band) in levels.into_iter().enumerate() {
        let base = 6 + i * 13;
        payload[base..base + 4].copy_from_slice(&float_bytes(band, false));
    }
    payload
}

#[test]
fn level_bits_match_single_precision() {
    for k in i8::MIN..=i8::MAX {
        assert_eq!(level_bits(k), (k as f32).to_bits(), "level {}", k);
    }
    assert_eq!(level_bits(1), 0x3f80_0000);
    assert_eq!(level_bits(-6), 0xc0c0_0000);
}

#[test]
fn payload_matches_the_float_encoding() {
    for low in -6i8..=6 {
        for mid in -6i8..=6 {
            for high in -6i8..=6 {
                let got = EarNative::build_custom_eq_payload(EqLevels { low, mid, high });
                let want = float_payload([low as f32, mid as f32, high as f32]);
                assert_eq!(got, want, "{} {} {}", low, mid, high);
            }
        }
    }
}

#[test]
fn flat_payload() {
    let p = EarNative::build_custom_eq_payload(EqLevels { low: 0, mid: 0, high: 0 });
    assert_eq!(p.len(), 53);
    assert_eq!(&p[1..5], &[0x00, 0x00, 0x00, 0x80]);
    assert_eq!(&p[6..10], &[0, 0, 0, 0]);
    let p = EarNative::build_custom_eq_payload(EqLevels { low: 3, mid: -5, high: 1 });
    assert_eq!(&p[1..5], &(-5.0f32).to_le_bytes());
    assert_eq!(&p[19..23], &(-5.0f32).to_le_bytes());
}

#[test]
fn format_float_matches_the_float_encoding() {
    let mut samples: Vec<f32> = vec![
        0.0,
        -0.0,
        1.0,
        -1.0,
        6.0,
        -6.0,
        0.5,
        -2.25,
        f32::INFINITY,
        f32::NEG_INFINITY,
        f32::NAN,
        -f32::NAN,
        f32::MIN_POSITIVE,
    ];
    for bits in [1u32, 0x7f, 0x80, 0xff, 0x8000_0001, 0x8000_00ff, 0x100, 0x7fff_ffff, 0xffff_ffff] {
        samples.push(f32::from_bits(bits));
    }
    for f in samples {
        for total in [false, true] {
            assert_eq!(
                EarNative::format_float_for_eq(f.to_bits(), total),
                float_bytes(f, total),
                "{:#x} {}",
                f.to_bits(),
                total
            );
        }
    }
}

#[test]
fn payload_is_made_of_float_encodings() {
    let levels = EqLevels { low: -4, mid: 2, high: 0 };
    let p = EarNative::build_custom_eq_payload(levels);
    assert_eq!(&p[1..5], &EarNative::format_float_for_eq(level_bits(-4), true));
    assert_eq!(&p[6..10], &EarNative::format_float_for_eq(level_bits(-4), false));
    assert_eq!(&p[19..23], &EarNative::format_float_for_eq(level_bits(2), false));
    assert_eq!(&p[32..36], &EarNative::format_float_for_eq(level_bits(0), false));
}

#[test]
fn band_encoding_reads_back() {
    for k in i8::MIN..=i8::MAX {
        let mut payload = vec![0u8; 45];
        payload[32..36].copy_from_slice(&EarNative::format_float_for_eq(level_bits(k), false));
        let packet = Packet::new(PacketCommand::RespCustomEq, payload, 1);
        match packet.parse() {
            ParsedResponse::CustomEq(bits) => assert_eq!(bits.low, level_bits(k), "level {}", k),
            other => panic!("unexpected {:?}", other),
        }
    }
}

fn float_level(bits: u32) -> i8 {
    f32::from_bits(bits).round().clamp(-6.0, 6.0) as i8
}

#[test]
fn band_level_matches_float_rounding() {
    let mut bits: u32 = 0;
    loop {
        assert_eq!(decode_band_level(bits), float_level(bits), "{:#x}", bits);
        match bits.checked_add(4093) {
            Some(b) => bits = b,
            None => break,
        }
    }
    for f in [
        0.0f32, -0.0, 0.49, 0.5, -0.5, 0.51, 1.5, -1.5, 2.5, -2.5, 3.49, 5.5, -5.5, 6.49, 6.5, 7.9,
        8.0, -8.0, 1e9, -1e30, f32::INFINITY, f32::NEG_INFINITY, f32::NAN, -f32::NAN,
        f32::MIN_POSITIVE, f32::MAX, f32::MIN,
    ] {
        assert_eq!(decode_band_level(f.to_bits()), float_level(f.to_bits()), "{}", f);
    }
    for k in -6i8..=6 {
        assert_eq!(decode_band_level(level_bits(k)), k);
    }
}

#[test]
fn decoded_report_levels() {
    let b = EqBandBits { low: 2.6f32.to_bits(), mid: (-0.4f32).to_bits(), high: (-11.0f32).to_bits() };
    let l = decode_levels(b);
    assert_eq!((l.low, l.mid, l.high), (3, 0, -6));
}

#[test]
fn reading_back_a_built_payload_rotates_the_bands() {
    let levels = EqLevels { low: 1, mid: -2, high: 3 };
    let payload = EarNative::build_custom_eq_payload(levels);
    match Packet::new(PacketCommand::RespCustomEq, payload, 0).parse() {
        ParsedResponse::CustomEq(bits) => {
            assert_eq!((bits.low, bits.mid, bits.high), (level_bits(3), level_bits(1), level_bits(-2)));
            let l = decode_levels(bits);
            assert_eq!((l.low, l.mid, l.high), (3, 1, -2));
        }
        other => panic!("unexpected {:?}", other),
    }
}
