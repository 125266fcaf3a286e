use pix::gamma::{decode_srgb, encode_srgb};
use pix::srgb::{DECODE_SRGB_U8, ENCODE_SRGB_U8};
use pix::{Ch8, Gamma, GammaMode, GammaModeID, GammaTag, Linear, Srgb};

fn encode_f64(x: f64) -> f64 {
    if x <= 0.0 {
        0.0
    } else if x < 0.003_130_8 {
        x * 12.92
    } else if x < 1.0 {
        x.powf(1.0 / 2.4) * 1.055 - 0.055
    } else {
        1.0
    }
}

fn decode_f64(x: f64) -> f64 {
    if x <= 0.0 {
        0.0
    } else if x < 0.04045 {
        x / 12.92
    } else if x < 1.0 {
        ((x + 0.055) / 1.055).powf(2.4)
    } else {
        1.0
    }
}

#[test]
fn lut_decode_u8() {
    for i in 0..256 {
        let s = i as f64 / 255.0;
        let v = (decode_f64(s) * 255.0).round() as u8;
        assert_eq!(v, DECODE_SRGB_U8[i]);
    }
}

#[test]
fn lut_encode_u8() {
    for i in 0..256 {
        let s = i as f64 / 255.0;
        let v = (encode_f64(s) * 255.0).round() as u8;
        assert_eq!(v, ENCODE_SRGB_U8[i]);
    }
}

#[test]
fn u8_boundaries() {
    assert_eq!(0u8.encode_srgb(), 0);
    assert_eq!(255u8.encode_srgb(), 255);
    assert_eq!(0u8.decode_srgb(), 0);
    assert_eq!(255u8.decode_srgb(), 255);
    // linear segment of the decode curve: round(i / 12.92)
    assert_eq!(6u8.decode_srgb(), 0);
    assert_eq!(7u8.decode_srgb(), 1);
    assert_eq!(10u8.decode_srgb(), 1);
}

#[test]
fn u8_known_values() {
    assert_eq!(1u8.encode_srgb(), 0x0D);
    assert_eq!(128u8.encode_srgb(), 0xBC);
    assert_eq!(128u8.decode_srgb(), 0x37);
    assert_eq!(Ch8::new(64).encode_srgb(), Ch8::new(0x89));
    assert_eq!(Ch8::new(64).decode_srgb(), Ch8::new(0x0D));
    assert_eq!(encode_srgb(100u8), 0xA8);
    assert_eq!(decode_srgb(100u8), 0x20);
}

#[test]
fn u8_round_trip() {
    for i in 0..=255u8 {
        let r = i.encode_srgb().decode_srgb() as i32;
        assert!((r - i as i32).abs() <= 1, "{} -> {}", i, r);
    }
}

#[test]
fn srgb_mode_short_circuit() {
    for i in 0..=255u8 {
        assert_eq!(Srgb::encode::<u8, Srgb>(i), i);
        assert_eq!(Srgb::decode::<u8, Srgb>(i), i);
        assert_eq!(Srgb::encode::<u8, Linear>(i), ENCODE_SRGB_U8[i as usize]);
        assert_eq!(Srgb::decode::<u8, Linear>(i), DECODE_SRGB_U8[i as usize]);
        assert_eq!(Linear::encode::<u8, Srgb>(i), i);
        assert_eq!(Linear::decode::<u8, Srgb>(i), i);
    }
    assert_eq!(Srgb::encode::<Ch8, Linear>(Ch8::new(1)), Ch8::new(0x0D));
}

#[test]
fn mode_ids() {
    assert_eq!(Srgb::id(), GammaModeID::Srgb);
    assert_eq!(Linear::id(), GammaModeID::Linear);
    assert_ne!(GammaModeID::PowerLaw(2.2f32.to_bits()), GammaModeID::Srgb);
}
