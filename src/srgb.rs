//! The sRGB transfer curve at 8-bit precision, and the look-up tables that
//! realise it.
//!
//! The curve involves the irrational powers `x^(1/2.4)` and `x^2.4`. Every
//! statement here is therefore written in integers: an inequality between
//! rational powers is raised to the twelfth (or fifth) power on both sides,
//! which keeps it exact.
use vstd::prelude::*;

verus! {

/// `x` to the fifth power.
pub open spec fn pow5(x: int) -> int {
    x * x * x * x * x
}

/// `x` to the twelfth power.
pub open spec fn pow12(x: int) -> int {
    let x3 = x * x * x;
    x3 * x3 * x3 * x3
}

/// `t` is the nearest integer to `num / den` (`den > 0`), with halves rounding
/// up: `t - 1/2 <= num / den < t + 1/2`.
pub open spec fn rounds_to(t: int, num: int, den: int) -> bool {
    (2 * t - 1) * den <= 2 * num && 2 * num < (2 * t + 1) * den
}

/// `t == round(255 * encode(i / 255))`, where `encode` is the sRGB encode curve:
/// `0` at or below zero, `12.92 x` below `0.0031308`, `1.055 x^(1/2.4) - 0.055`
/// below `1`, and `1` from there on.
///
/// On the power segment, with `s = x^(5/12)`, rounding asks for
/// `t - 1/2 <= 255 (1.055 s - 0.055) < t + 1/2`, that is
/// `lo / 538050 <= s < hi / 538050` with `lo = 1000 (2t - 1) + 28050` and
/// `hi = 1000 (2t + 1) + 28050`; raised to the twelfth power with
/// `s^12 = i^5 / 255^5`, these are the two inequalities below.
pub open spec fn is_srgb_encode_u8(i: int, t: int) -> bool {
    if i <= 0 {
        t == 0
    } else if i * 10_000_000 < 31308 * 255 {
        rounds_to(t, 1292 * i, 100)
    } else if i < 255 {
        let lo = 1000 * (2 * t - 1) + 28050;
        let hi = 1000 * (2 * t + 1) + 28050;
        (lo <= 0 || pow12(lo) * pow5(255) <= pow5(i) * pow12(538050))
            && pow5(i) * pow12(538050) < pow12(hi) * pow5(255)
    } else {
        t == 255
    }
}

/// `t == round(255 * decode(i / 255))`, where `decode` is the sRGB decode curve:
/// `0` at or below zero, `x / 12.92` below `0.04045`,
/// `((x + 0.055) / 1.055)^2.4` below `1`, and `1` from there on.
///
/// On the power segment, `y = (x + 0.055) / 1.055 = (1000 i + 14025) / 269025`
/// and rounding asks for `(2t - 1) / 510 <= y^(12/5) < (2t + 1) / 510`; raised
/// to the fifth power, these are the two inequalities below.
pub open spec fn is_srgb_decode_u8(i: int, t: int) -> bool {
    if i <= 0 {
        t == 0
    } else if i * 100_000 < 4045 * 255 {
        rounds_to(t, 100 * i, 1292)
    } else if i < 255 {
        let y = 1000 * i + 14025;
        (2 * t - 1 <= 0 || pow5(2 * t - 1) * pow12(269025) <= pow5(510) * pow12(y))
            && pow5(510) * pow12(y) < pow5(2 * t + 1) * pow12(269025)
    } else {
        t == 255
    }
}

/// Look-up table to encode 8-bit linear intensity to sRGB gamma.
pub const ENCODE_SRGB_U8: [u8; 256] = [
    0x00, 0x0D, 0x16, 0x1C, 0x22, 0x26, 0x2A, 0x2E,
    0x32, 0x35, 0x38, 0x3B, 0x3D, 0x40, 0x42, 0x45,
    0x47, 0x49, 0x4B, 0x4D, 0x4F, 0x51, 0x53, 0x55,
    0x56, 0x58, 0x5A, 0x5C, 0x5D, 0x5F, 0x60, 0x62,
    0x63, 0x65, 0x66, 0x68, 0x69, 0x6A, 0x6C, 0x6D,
    0x6E, 0x70, 0x71, 0x72, 0x73, 0x75, 0x76, 0x77,
    0x78, 0x79, 0x7A, 0x7C, 0x7D, 0x7E, 0x7F, 0x80,
    0x81, 0x82, 0x83, 0x84, 0x85, 0x86, 0x87, 0x88,
    0x89, 0x8A, 0x8B, 0x8C, 0x8D, 0x8E, 0x8F, 0x90,
    0x91, 0x92, 0x93, 0x94, 0x94, 0x95, 0x96, 0x97,
    0x98, 0x99, 0x9A, 0x9B, 0x9B, 0x9C, 0x9D, 0x9E,
    0x9F, 0x9F, 0xA0, 0xA1, 0xA2, 0xA3, 0xA3, 0xA4,
    0xA5, 0xA6, 0xA7, 0xA7, 0xA8, 0xA9, 0xAA, 0xAA,
    0xAB, 0xAC, 0xAD, 0xAD, 0xAE, 0xAF, 0xAF, 0xB0,
    0xB1, 0xB2, 0xB2, 0xB3, 0xB4, 0xB4, 0xB5, 0xB6,
    0xB6, 0xB7, 0xB8, 0xB9, 0xB9, 0xBA, 0xBB, 0xBB,
    0xBC, 0xBD, 0xBD, 0xBE, 0xBE, 0xBF, 0xC0, 0xC0,
    0xC1, 0xC2, 0xC2, 0xC3, 0xC4, 0xC4, 0xC5, 0xC5,
    0xC6, 0xC7, 0xC7, 0xC8, 0xC8, 0xC9, 0xCA, 0xCA,
    0xCB, 0xCB, 0xCC, 0xCD, 0xCD, 0xCE, 0xCE, 0xCF,
    0xD0, 0xD0, 0xD1, 0xD1, 0xD2, 0xD2, 0xD3, 0xD4,
    0xD4, 0xD5, 0xD5, 0xD6, 0xD6, 0xD7, 0xD7, 0xD8,
    0xD8, 0xD9, 0xDA, 0xDA, 0xDB, 0xDB, 0xDC, 0xDC,
    0xDD, 0xDD, 0xDE, 0xDE, 0xDF, 0xDF, 0xE0, 0xE0,
    0xE1, 0xE2, 0xE2, 0xE3, 0xE3, 0xE4, 0xE4, 0xE5,
    0xE5, 0xE6, 0xE6, 0xE7, 0xE7, 0xE8, 0xE8, 0xE9,
    0xE9, 0xEA, 0xEA, 0xEB, 0xEB, 0xEC, 0xEC, 0xED,
    0xED, 0xEE, 0xEE, 0xEE, 0xEF, 0xEF, 0xF0, 0xF0,
    0xF1, 0xF1, 0xF2, 0xF2, 0xF3, 0xF3, 0xF4, 0xF4,
    0xF5, 0xF5, 0xF6, 0xF6, 0xF6, 0xF7, 0xF7, 0xF8,
    0xF8, 0xF9, 0xF9, 0xFA, 0xFA, 0xFB, 0xFB, 0xFB,
    0xFC, 0xFC, 0xFD, 0xFD, 0xFE, 0xFE, 0xFF, 0xFF,
];

/// Look-up table to decode 8-bit sRGB gamma to linear intensity.
pub const DECODE_SRGB_U8: [u8; 256] = [
    0x00, 0x00, 0x00, 0x00, 0x00, 0x00, 0x00, 0x01,
    0x01, 0x01, 0x01, 0x01, 0x01, 0x01, 0x01, 0x01,
    0x01, 0x01, 0x02, 0x02, 0x02, 0x02, 0x02, 0x02,
    0x02, 0x02, 0x03, 0x03, 0x03, 0x03, 0x03, 0x03,
    0x04, 0x04, 0x04, 0x04, 0x04, 0x05, 0x05, 0x05,
    0x05, 0x06, 0x06, 0x06, 0x06, 0x07, 0x07, 0x07,
    0x08, 0x08, 0x08, 0x08, 0x09, 0x09, 0x09, 0x0A,
    0x0A, 0x0A, 0x0B, 0x0B, 0x0C, 0x0C, 0x0C, 0x0D,
    0x0D, 0x0D, 0x0E, 0x0E, 0x0F, 0x0F, 0x10, 0x10,
    0x11, 0x11, 0x11, 0x12, 0x12, 0x13, 0x13, 0x14,
    0x14, 0x15, 0x16, 0x16, 0x17, 0x17, 0x18, 0x18,
    0x19, 0x19, 0x1A, 0x1B, 0x1B, 0x1C, 0x1D, 0x1D,
    0x1E, 0x1E, 0x1F, 0x20, 0x20, 0x21, 0x22, 0x23,
    0x23, 0x24, 0x25, 0x25, 0x26, 0x27, 0x28, 0x29,
    0x29, 0x2A, 0x2B, 0x2C, 0x2D, 0x2D, 0x2E, 0x2F,
    0x30, 0x31, 0x32, 0x33, 0x33, 0x34, 0x35, 0x36,
    0x37, 0x38, 0x39, 0x3A, 0x3B, 0x3C, 0x3D, 0x3E,
    0x3F, 0x40, 0x41, 0x42, 0x43, 0x44, 0x45, 0x46,
    0x47, 0x48, 0x49, 0x4A, 0x4C, 0x4D, 0x4E, 0x4F,
    0x50, 0x51, 0x52, 0x54, 0x55, 0x56, 0x57, 0x58,
    0x5A, 0x5B, 0x5C, 0x5D, 0x5F, 0x60, 0x61, 0x63,
    0x64, 0x65, 0x67, 0x68, 0x69, 0x6B, 0x6C, 0x6D,
    0x6F, 0x70, 0x72, 0x73, 0x74, 0x76, 0x77, 0x79,
    0x7A, 0x7C, 0x7D, 0x7F, 0x80, 0x82, 0x83, 0x85,
    0x86, 0x88, 0x8A, 0x8B, 0x8D, 0x8E, 0x90, 0x92,
    0x93, 0x95, 0x97, 0x98, 0x9A, 0x9C, 0x9D, 0x9F,
    0xA1, 0xA3, 0xA4, 0xA6, 0xA8, 0xAA, 0xAB, 0xAD,
    0xAF, 0xB1, 0xB3, 0xB5, 0xB7, 0xB8, 0xBA, 0xBC,
    0xBE, 0xC0, 0xC2, 0xC4, 0xC6, 0xC8, 0xCA, 0xCC,
    0xCE, 0xD0, 0xD2, 0xD4, 0xD6, 0xD8, 0xDA, 0xDC,
    0xDE, 0xE0, 0xE2, 0xE5, 0xE7, 0xE9, 0xEB, 0xED,
    0xEF, 0xF2, 0xF4, 0xF6, 0xF8, 0xFA, 0xFD, 0xFF,
];

#[verifier::opaque]
spec fn encode_entry_ok(i: int) -> bool {
    is_srgb_encode_u8(i, ENCODE_SRGB_U8@[i] as int)
}

#[verifier::opaque]
spec fn decode_entry_ok(i: int) -> bool {
    is_srgb_decode_u8(i, DECODE_SRGB_U8@[i] as int)
}

proof fn lemma_encode_entries_0_31()
    ensures
        forall|i: int| 0 <= i < 32 ==> encode_entry_ok(i),
{
    assert(encode_entry_ok(0) && encode_entry_ok(1) && encode_entry_ok(2) &&
        encode_entry_ok(3) && encode_entry_ok(4) && encode_entry_ok(5) && encode_entry_ok(6) &&
        encode_entry_ok(7) && encode_entry_ok(8) && encode_entry_ok(9) && encode_entry_ok(10) &&
        encode_entry_ok(11) && encode_entry_ok(12) && encode_entry_ok(13) &&
        encode_entry_ok(14) && encode_entry_ok(15) && encode_entry_ok(16) &&
        encode_entry_ok(17) && encode_entry_ok(18) && encode_entry_ok(19) &&
        encode_entry_ok(20) && encode_entry_ok(21) && encode_entry_ok(22) &&
        encode_entry_ok(23) && encode_entry_ok(24) && encode_entry_ok(25) &&
        encode_entry_ok(26) && encode_entry_ok(27) && encode_entry_ok(28) &&
        encode_entry_ok(29) && encode_entry_ok(30) && encode_entry_ok(31)) by {
        reveal(encode_entry_ok);
        assert(is_srgb_encode_u8(0, 0x00) && is_srgb_encode_u8(1, 0x0D) &&
            is_srgb_encode_u8(2, 0x16) && is_srgb_encode_u8(3, 0x1C) &&
            is_srgb_encode_u8(4, 0x22) && is_srgb_encode_u8(5, 0x26) &&
            is_srgb_encode_u8(6, 0x2A) && is_srgb_encode_u8(7, 0x2E) &&
            is_srgb_encode_u8(8, 0x32) && is_srgb_encode_u8(9, 0x35) &&
            is_srgb_encode_u8(10, 0x38) && is_srgb_encode_u8(11, 0x3B) &&
            is_srgb_encode_u8(12, 0x3D) && is_srgb_encode_u8(13, 0x40) &&
            is_srgb_encode_u8(14, 0x42) && is_srgb_encode_u8(15, 0x45) &&
            is_srgb_encode_u8(16, 0x47) && is_srgb_encode_u8(17, 0x49) &&
            is_srgb_encode_u8(18, 0x4B) && is_srgb_encode_u8(19, 0x4D) &&
            is_srgb_encode_u8(20, 0x4F) && is_srgb_encode_u8(21, 0x51) &&
            is_srgb_encode_u8(22, 0x53) && is_srgb_encode_u8(23, 0x55) &&
            is_srgb_encode_u8(24, 0x56) && is_srgb_encode_u8(25, 0x58) &&
            is_srgb_encode_u8(26, 0x5A) && is_srgb_encode_u8(27, 0x5C) &&
            is_srgb_encode_u8(28, 0x5D) && is_srgb_encode_u8(29, 0x5F) &&
            is_srgb_encode_u8(30, 0x60) && is_srgb_encode_u8(31, 0x62)) by (nonlinear_arith);
    }
    assert forall|i: int| 0 <= i < 32 implies encode_entry_ok(i) by {
        assert(i == 0 || i == 1 || i == 2 || i == 3 || i == 4 || i == 5 || i == 6 || i == 7 ||
            i == 8 || i == 9 || i == 10 || i == 11 || i == 12 || i == 13 || i == 14 ||
            i == 15 || i == 16 || i == 17 || i == 18 || i == 19 || i == 20 || i == 21 ||
            i == 22 || i == 23 || i == 24 || i == 25 || i == 26 || i == 27 || i == 28 ||
            i == 29 || i == 30 || i == 31);
    }
}

proof fn lemma_encode_entries_32_63()
    ensures
        forall|i: int| 32 <= i < 64 ==> encode_entry_ok(i),
{
    assert(encode_entry_ok(32) && encode_entry_ok(33) && encode_entry_ok(34) &&
        encode_entry_ok(35) && encode_entry_ok(36) && encode_entry_ok(37) &&
        encode_entry_ok(38) && encode_entry_ok(39) && encode_entry_ok(40) &&
        encode_entry_ok(41) && encode_entry_ok(42) && encode_entry_ok(43) &&
        encode_entry_ok(44) && encode_entry_ok(45) && encode_entry_ok(46) &&
        encode_entry_ok(47) && encode_entry_ok(48) && encode_entry_ok(49) &&
        encode_entry_ok(50) && encode_entry_ok(51) && encode_entry_ok(52) &&
        encode_entry_ok(53) && encode_entry_ok(54) && encode_entry_ok(55) &&
        encode_entry_ok(56) && encode_entry_ok(57) && encode_entry_ok(58) &&
        encode_entry_ok(59) && encode_entry_ok(60) && encode_entry_ok(61) &&
        encode_entry_ok(62) && encode_entry_ok(63)) by {
        reveal(encode_entry_ok);
        assert(is_srgb_encode_u8(32, 0x63) && is_srgb_encode_u8(33, 0x65) &&
            is_srgb_encode_u8(34, 0x66) && is_srgb_encode_u8(35, 0x68) &&
            is_srgb_encode_u8(36, 0x69) && is_srgb_encode_u8(37, 0x6A) &&
            is_srgb_encode_u8(38, 0x6C) && is_srgb_encode_u8(39, 0x6D) &&
            is_srgb_encode_u8(40, 0x6E) && is_srgb_encode_u8(41, 0x70) &&
            is_srgb_encode_u8(42, 0x71) && is_srgb_encode_u8(43, 0x72) &&
            is_srgb_encode_u8(44, 0x73) && is_srgb_encode_u8(45, 0x75) &&
            is_srgb_encode_u8(46, 0x76) && is_srgb_encode_u8(47, 0x77) &&
            is_srgb_encode_u8(48, 0x78) && is_srgb_encode_u8(49, 0x79) &&
            is_srgb_encode_u8(50, 0x7A) && is_srgb_encode_u8(51, 0x7C) &&
            is_srgb_encode_u8(52, 0x7D) && is_srgb_encode_u8(53, 0x7E) &&
            is_srgb_encode_u8(54, 0x7F) && is_srgb_encode_u8(55, 0x80) &&
            is_srgb_encode_u8(56, 0x81) && is_srgb_encode_u8(57, 0x82) &&
            is_srgb_encode_u8(58, 0x83) && is_srgb_encode_u8(59, 0x84) &&
            is_srgb_encode_u8(60, 0x85) && is_srgb_encode_u8(61, 0x86) &&
            is_srgb_encode_u8(62, 0x87) && is_srgb_encode_u8(63, 0x88)) by (nonlinear_arith);
    }
    assert forall|i: int| 32 <= i < 64 implies encode_entry_ok(i) by {
        assert(i == 32 || i == 33 || i == 34 || i == 35 || i == 36 || i == 37 || i == 38 ||
            i == 39 || i == 40 || i == 41 || i == 42 || i == 43 || i == 44 || i == 45 ||
            i == 46 || i == 47 || i == 48 || i == 49 || i == 50 || i == 51 || i == 52 ||
            i == 53 || i == 54 || i == 55 || i == 56 || i == 57 || i == 58 || i == 59 ||
            i == 60 || i == 61 || i == 62 || i == 63);
    }
}

proof fn lemma_encode_entries_64_95()
    ensures
        forall|i: int| 64 <= i < 96 ==> encode_entry_ok(i),
{
    assert(encode_entry_ok(64) && encode_entry_ok(65) && encode_entry_ok(66) &&
        encode_entry_ok(67) && encode_entry_ok(68) && encode_entry_ok(69) &&
        encode_entry_ok(70) && encode_entry_ok(71) && encode_entry_ok(72) &&
        encode_entry_ok(73) && encode_entry_ok(74) && encode_entry_ok(75) &&
        encode_entry_ok(76) && encode_entry_ok(77) && encode_entry_ok(78) &&
        encode_entry_ok(79) && encode_entry_ok(80) && encode_entry_ok(81) &&
        encode_entry_ok(82) && encode_entry_ok(83) && encode_entry_ok(84) &&
        encode_entry_ok(85) && encode_entry_ok(86) && encode_entry_ok(87) &&
        encode_entry_ok(88) && encode_entry_ok(89) && encode_entry_ok(90) &&
        encode_entry_ok(91) && encode_entry_ok(92) && encode_entry_ok(93) &&
        encode_entry_ok(94) && encode_entry_ok(95)) by {
        reveal(encode_entry_ok);
        assert(is_srgb_encode_u8(64, 0x89) && is_srgb_encode_u8(65, 0x8A) &&
            is_srgb_encode_u8(66, 0x8B) && is_srgb_encode_u8(67, 0x8C) &&
            is_srgb_encode_u8(68, 0x8D) && is_srgb_encode_u8(69, 0x8E) &&
            is_srgb_encode_u8(70, 0x8F) && is_srgb_encode_u8(71, 0x90) &&
            is_srgb_encode_u8(72, 0x91) && is_srgb_encode_u8(73, 0x92) &&
            is_srgb_encode_u8(74, 0x93) && is_srgb_encode_u8(75, 0x94) &&
            is_srgb_encode_u8(76, 0x94) && is_srgb_encode_u8(77, 0x95) &&
            is_srgb_encode_u8(78, 0x96) && is_srgb_encode_u8(79, 0x97) &&
            is_srgb_encode_u8(80, 0x98) && is_srgb_encode_u8(81, 0x99) &&
            is_srgb_encode_u8(82, 0x9A) && is_srgb_encode_u8(83, 0x9B) &&
            is_srgb_encode_u8(84, 0x9B) && is_srgb_encode_u8(85, 0x9C) &&
            is_srgb_encode_u8(86, 0x9D) && is_srgb_encode_u8(87, 0x9E) &&
            is_srgb_encode_u8(88, 0x9F) && is_srgb_encode_u8(89, 0x9F) &&
            is_srgb_encode_u8(90, 0xA0) && is_srgb_encode_u8(91, 0xA1) &&
            is_srgb_encode_u8(92, 0xA2) && is_srgb_encode_u8(93, 0xA3) &&
            is_srgb_encode_u8(94, 0xA3) && is_srgb_encode_u8(95, 0xA4)) by (nonlinear_arith);
    }
    assert forall|i: int| 64 <= i < 96 implies encode_entry_ok(i) by {
        assert(i == 64 || i == 65 || i == 66 || i == 67 || i == 68 || i == 69 || i == 70 ||
            i == 71 || i == 72 || i == 73 || i == 74 || i == 75 || i == 76 || i == 77 ||
            i == 78 || i == 79 || i == 80 || i == 81 || i == 82 || i == 83 || i == 84 ||
            i == 85 || i == 86 || i == 87 || i == 88 || i == 89 || i == 90 || i == 91 ||
            i == 92 || i == 93 || i == 94 || i == 95);
    }
}

proof fn lemma_encode_entries_96_127()
    ensures
        forall|i: int| 96 <= i < 128 ==> encode_entry_ok(i),
{
    assert(encode_entry_ok(96) && encode_entry_ok(97) && encode_entry_ok(98) &&
        encode_entry_ok(99) && encode_entry_ok(100) && encode_entry_ok(101) &&
        encode_entry_ok(102) && encode_entry_ok(103) && encode_entry_ok(104) &&
        encode_entry_ok(105) && encode_entry_ok(106) && encode_entry_ok(107) &&
        encode_entry_ok(108) && encode_entry_ok(109) && encode_entry_ok(110) &&
        encode_entry_ok(111) && encode_entry_ok(112) && encode_entry_ok(113) &&
        encode_entry_ok(114) && encode_entry_ok(115) && encode_entry_ok(116) &&
        encode_entry_ok(117) && encode_entry_ok(118) && encode_entry_ok(119) &&
        encode_entry_ok(120) && encode_entry_ok(121) && encode_entry_ok(122) &&
        encode_entry_ok(123) && encode_entry_ok(124) && encode_entry_ok(125) &&
        encode_entry_ok(126) && encode_entry_ok(127)) by {
        reveal(encode_entry_ok);
        assert(is_srgb_encode_u8(96, 0xA5) && is_srgb_encode_u8(97, 0xA6) &&
            is_srgb_encode_u8(98, 0xA7) && is_srgb_encode_u8(99, 0xA7) &&
            is_srgb_encode_u8(100, 0xA8) && is_srgb_encode_u8(101, 0xA9) &&
            is_srgb_encode_u8(102, 0xAA) && is_srgb_encode_u8(103, 0xAA) &&
            is_srgb_encode_u8(104, 0xAB) && is_srgb_encode_u8(105, 0xAC) &&
            is_srgb_encode_u8(106, 0xAD) && is_srgb_encode_u8(107, 0xAD) &&
            is_srgb_encode_u8(108, 0xAE) && is_srgb_encode_u8(109, 0xAF) &&
            is_srgb_encode_u8(110, 0xAF) && is_srgb_encode_u8(111, 0xB0) &&
            is_srgb_encode_u8(112, 0xB1) && is_srgb_encode_u8(113, 0xB2) &&
            is_srgb_encode_u8(114, 0xB2) && is_srgb_encode_u8(115, 0xB3) &&
            is_srgb_encode_u8(116, 0xB4) && is_srgb_encode_u8(117, 0xB4) &&
            is_srgb_encode_u8(118, 0xB5) && is_srgb_encode_u8(119, 0xB6) &&
            is_srgb_encode_u8(120, 0xB6) && is_srgb_encode_u8(121, 0xB7) &&
            is_srgb_encode_u8(122, 0xB8) && is_srgb_encode_u8(123, 0xB9) &&
            is_srgb_encode_u8(124, 0xB9) && is_srgb_encode_u8(125, 0xBA) &&
            is_srgb_encode_u8(126, 0xBB) && is_srgb_encode_u8(127, 0xBB)) by (nonlinear_arith);
    }
    assert forall|i: int| 96 <= i < 128 implies encode_entry_ok(i) by {
        assert(i == 96 || i == 97 || i == 98 || i == 99 || i == 100 || i == 101 || i == 102 ||
            i == 103 || i == 104 || i == 105 || i == 106 || i == 107 || i == 108 || i == 109 ||
            i == 110 || i == 111 || i == 112 || i == 113 || i == 114 || i == 115 || i == 116 ||
            i == 117 || i == 118 || i == 119 || i == 120 || i == 121 || i == 122 || i == 123 ||
            i == 124 || i == 125 || i == 126 || i == 127);
    }
}

proof fn lemma_encode_entries_128_159()
    ensures
        forall|i: int| 128 <= i < 160 ==> encode_entry_ok(i),
{
    assert(encode_entry_ok(128) && encode_entry_ok(129) && encode_entry_ok(130) &&
        encode_entry_ok(131) && encode_entry_ok(132) && encode_entry_ok(133) &&
        encode_entry_ok(134) && encode_entry_ok(135) && encode_entry_ok(136) &&
        encode_entry_ok(137) && encode_entry_ok(138) && encode_entry_ok(139) &&
        encode_entry_ok(140) && encode_entry_ok(141) && encode_entry_ok(142) &&
        encode_entry_ok(143) && encode_entry_ok(144) && encode_entry_ok(145) &&
        encode_entry_ok(146) && encode_entry_ok(147) && encode_entry_ok(148) &&
        encode_entry_ok(149) && encode_entry_ok(150) && encode_entry_ok(151) &&
        encode_entry_ok(152) && encode_entry_ok(153) && encode_entry_ok(154) &&
        encode_entry_ok(155) && encode_entry_ok(156) && encode_entry_ok(157) &&
        encode_entry_ok(158) && encode_entry_ok(159)) by {
        reveal(encode_entry_ok);
        assert(is_srgb_encode_u8(128, 0xBC) && is_srgb_encode_u8(129, 0xBD) &&
            is_srgb_encode_u8(130, 0xBD) && is_srgb_encode_u8(131, 0xBE) &&
            is_srgb_encode_u8(132, 0xBE) && is_srgb_encode_u8(133, 0xBF) &&
            is_srgb_encode_u8(134, 0xC0) && is_srgb_encode_u8(135, 0xC0) &&
            is_srgb_encode_u8(136, 0xC1) && is_srgb_encode_u8(137, 0xC2) &&
            is_srgb_encode_u8(138, 0xC2) && is_srgb_encode_u8(139, 0xC3) &&
            is_srgb_encode_u8(140, 0xC4) && is_srgb_encode_u8(141, 0xC4) &&
            is_srgb_encode_u8(142, 0xC5) && is_srgb_encode_u8(143, 0xC5) &&
            is_srgb_encode_u8(144, 0xC6) && is_srgb_encode_u8(145, 0xC7) &&
            is_srgb_encode_u8(146, 0xC7) && is_srgb_encode_u8(147, 0xC8) &&
            is_srgb_encode_u8(148, 0xC8) && is_srgb_encode_u8(149, 0xC9) &&
            is_srgb_encode_u8(150, 0xCA) && is_srgb_encode_u8(151, 0xCA) &&
            is_srgb_encode_u8(152, 0xCB) && is_srgb_encode_u8(153, 0xCB) &&
            is_srgb_encode_u8(154, 0xCC) && is_srgb_encode_u8(155, 0xCD) &&
            is_srgb_encode_u8(156, 0xCD) && is_srgb_encode_u8(157, 0xCE) &&
            is_srgb_encode_u8(158, 0xCE) && is_srgb_encode_u8(159, 0xCF)) by (nonlinear_arith);
    }
    assert forall|i: int| 128 <= i < 160 implies encode_entry_ok(i) by {
        assert(i == 128 || i == 129 || i == 130 || i == 131 || i == 132 || i == 133 ||
            i == 134 || i == 135 || i == 136 || i == 137 || i == 138 || i == 139 || i == 140 ||
            i == 141 || i == 142 || i == 143 || i == 144 || i == 145 || i == 146 || i == 147 ||
            i == 148 || i == 149 || i == 150 || i == 151 || i == 152 || i == 153 || i == 154 ||
            i == 155 || i == 156 || i == 157 || i == 158 || i == 159);
    }
}

proof fn lemma_encode_entries_160_191()
    ensures
        forall|i: int| 160 <= i < 192 ==> encode_entry_ok(i),
{
    assert(encode_entry_ok(160) && encode_entry_ok(161) && encode_entry_ok(162) &&
        encode_entry_ok(163) && encode_entry_ok(164) && encode_entry_ok(165) &&
        encode_entry_ok(166) && encode_entry_ok(167) && encode_entry_ok(168) &&
        encode_entry_ok(169) && encode_entry_ok(170) && encode_entry_ok(171) &&
        encode_entry_ok(172) && encode_entry_ok(173) && encode_entry_ok(174) &&
        encode_entry_ok(175) && encode_entry_ok(176) && encode_entry_ok(177) &&
        encode_entry_ok(178) && encode_entry_ok(179) && encode_entry_ok(180) &&
        encode_entry_ok(181) && encode_entry_ok(182) && encode_entry_ok(183) &&
        encode_entry_ok(184) && encode_entry_ok(185) && encode_entry_ok(186) &&
        encode_entry_ok(187) && encode_entry_ok(188) && encode_entry_ok(189) &&
        encode_entry_ok(190) && encode_entry_ok(191)) by {
        reveal(encode_entry_ok);
        assert(is_srgb_encode_u8(160, 0xD0) && is_srgb_encode_u8(161, 0xD0) &&
            is_srgb_encode_u8(162, 0xD1) && is_srgb_encode_u8(163, 0xD1) &&
            is_srgb_encode_u8(164, 0xD2) && is_srgb_encode_u8(165, 0xD2) &&
            is_srgb_encode_u8(166, 0xD3) && is_srgb_encode_u8(167, 0xD4) &&
            is_srgb_encode_u8(168, 0xD4) && is_srgb_encode_u8(169, 0xD5) &&
            is_srgb_encode_u8(170, 0xD5) && is_srgb_encode_u8(171, 0xD6) &&
            is_srgb_encode_u8(172, 0xD6) && is_srgb_encode_u8(173, 0xD7) &&
            is_srgb_encode_u8(174, 0xD7) && is_srgb_encode_u8(175, 0xD8) &&
            is_srgb_encode_u8(176, 0xD8) && is_srgb_encode_u8(177, 0xD9) &&
            is_srgb_encode_u8(178, 0xDA) && is_srgb_encode_u8(179, 0xDA) &&
            is_srgb_encode_u8(180, 0xDB) && is_srgb_encode_u8(181, 0xDB) &&
            is_srgb_encode_u8(182, 0xDC) && is_srgb_encode_u8(183, 0xDC) &&
            is_srgb_encode_u8(184, 0xDD) && is_srgb_encode_u8(185, 0xDD) &&
            is_srgb_encode_u8(186, 0xDE) && is_srgb_encode_u8(187, 0xDE) &&
            is_srgb_encode_u8(188, 0xDF) && is_srgb_encode_u8(189, 0xDF) &&
            is_srgb_encode_u8(190, 0xE0) && is_srgb_encode_u8(191, 0xE0)) by (nonlinear_arith);
    }
    assert forall|i: int| 160 <= i < 192 implies encode_entry_ok(i) by {
        assert(i == 160 || i == 161 || i == 162 || i == 163 || i == 164 || i == 165 ||
            i == 166 || i == 167 || i == 168 || i == 169 || i == 170 || i == 171 || i == 172 ||
            i == 173 || i == 174 || i == 175 || i == 176 || i == 177 || i == 178 || i == 179 ||
            i == 180 || i == 181 || i == 182 || i == 183 || i == 184 || i == 185 || i == 186 ||
            i == 187 || i == 188 || i == 189 || i == 190 || i == 191);
    }
}

proof fn lemma_encode_entries_192_223()
    ensures
        forall|i: int| 192 <= i < 224 ==> encode_entry_ok(i),
{
    assert(encode_entry_ok(192) && encode_entry_ok(193) && encode_entry_ok(194) &&
        encode_entry_ok(195) && encode_entry_ok(196) && encode_entry_ok(197) &&
        encode_entry_ok(198) && encode_entry_ok(199) && encode_entry_ok(200) &&
        encode_entry_ok(201) && encode_entry_ok(202) && encode_entry_ok(203) &&
        encode_entry_ok(204) && encode_entry_ok(205) && encode_entry_ok(206) &&
        encode_entry_ok(207) && encode_entry_ok(208) && encode_entry_ok(209) &&
        encode_entry_ok(210) && encode_entry_ok(211) && encode_entry_ok(212) &&
        encode_entry_ok(213) && encode_entry_ok(214) && encode_entry_ok(215) &&
        encode_entry_ok(216) && encode_entry_ok(217) && encode_entry_ok(218) &&
        encode_entry_ok(219) && encode_entry_ok(220) && encode_entry_ok(221) &&
        encode_entry_ok(222) && encode_entry_ok(223)) by {
        reveal(encode_entry_ok);
        assert(is_srgb_encode_u8(192, 0xE1) && is_srgb_encode_u8(193, 0xE2) &&
            is_srgb_encode_u8(194, 0xE2) && is_srgb_encode_u8(195, 0xE3) &&
            is_srgb_encode_u8(196, 0xE3) && is_srgb_encode_u8(197, 0xE4) &&
            is_srgb_encode_u8(198, 0xE4) && is_srgb_encode_u8(199, 0xE5) &&
            is_srgb_encode_u8(200, 0xE5) && is_srgb_encode_u8(201, 0xE6) &&
            is_srgb_encode_u8(202, 0xE6) && is_srgb_encode_u8(203, 0xE7) &&
            is_srgb_encode_u8(204, 0xE7) && is_srgb_encode_u8(205, 0xE8) &&
            is_srgb_encode_u8(206, 0xE8) && is_srgb_encode_u8(207, 0xE9) &&
            is_srgb_encode_u8(208, 0xE9) && is_srgb_encode_u8(209, 0xEA) &&
            is_srgb_encode_u8(210, 0xEA) && is_srgb_encode_u8(211, 0xEB) &&
            is_srgb_encode_u8(212, 0xEB) && is_srgb_encode_u8(213, 0xEC) &&
            is_srgb_encode_u8(214, 0xEC) && is_srgb_encode_u8(215, 0xED) &&
            is_srgb_encode_u8(216, 0xED) && is_srgb_encode_u8(217, 0xEE) &&
            is_srgb_encode_u8(218, 0xEE) && is_srgb_encode_u8(219, 0xEE) &&
            is_srgb_encode_u8(220, 0xEF) && is_srgb_encode_u8(221, 0xEF) &&
            is_srgb_encode_u8(222, 0xF0) && is_srgb_encode_u8(223, 0xF0)) by (nonlinear_arith);
    }
    assert forall|i: int| 192 <= i < 224 implies encode_entry_ok(i) by {
        assert(i == 192 || i == 193 || i == 194 || i == 195 || i == 196 || i == 197 ||
            i == 198 || i == 199 || i == 200 || i == 201 || i == 202 || i == 203 || i == 204 ||
            i == 205 || i == 206 || i == 207 || i == 208 || i == 209 || i == 210 || i == 211 ||
            i == 212 || i == 213 || i == 214 || i == 215 || i == 216 || i == 217 || i == 218 ||
            i == 219 || i == 220 || i == 221 || i == 222 || i == 223);
    }
}

proof fn lemma_encode_entries_224_255()
    ensures
        forall|i: int| 224 <= i < 256 ==> encode_entry_ok(i),
{
    assert(encode_entry_ok(224) && encode_entry_ok(225) && encode_entry_ok(226) &&
        encode_entry_ok(227) && encode_entry_ok(228) && encode_entry_ok(229) &&
        encode_entry_ok(230) && encode_entry_ok(231) && encode_entry_ok(232) &&
        encode_entry_ok(233) && encode_entry_ok(234) && encode_entry_ok(235) &&
        encode_entry_ok(236) && encode_entry_ok(237) && encode_entry_ok(238) &&
        encode_entry_ok(239) && encode_entry_ok(240) && encode_entry_ok(241) &&
        encode_entry_ok(242) && encode_entry_ok(243) && encode_entry_ok(244) &&
        encode_entry_ok(245) && encode_entry_ok(246) && encode_entry_ok(247) &&
        encode_entry_ok(248) && encode_entry_ok(249) && encode_entry_ok(250) &&
        encode_entry_ok(251) && encode_entry_ok(252) && encode_entry_ok(253) &&
        encode_entry_ok(254) && encode_entry_ok(255)) by {
        reveal(encode_entry_ok);
        assert(is_srgb_encode_u8(224, 0xF1) && is_srgb_encode_u8(225, 0xF1) &&
            is_srgb_encode_u8(226, 0xF2) && is_srgb_encode_u8(227, 0xF2) &&
            is_srgb_encode_u8(228, 0xF3) && is_srgb_encode_u8(229, 0xF3) &&
            is_srgb_encode_u8(230, 0xF4) && is_srgb_encode_u8(231, 0xF4) &&
            is_srgb_encode_u8(232, 0xF5) && is_srgb_encode_u8(233, 0xF5) &&
            is_srgb_encode_u8(234, 0xF6) && is_srgb_encode_u8(235, 0xF6) &&
            is_srgb_encode_u8(236, 0xF6) && is_srgb_encode_u8(237, 0xF7) &&
            is_srgb_encode_u8(238, 0xF7) && is_srgb_encode_u8(239, 0xF8) &&
            is_srgb_encode_u8(240, 0xF8) && is_srgb_encode_u8(241, 0xF9) &&
            is_srgb_encode_u8(242, 0xF9) && is_srgb_encode_u8(243, 0xFA) &&
            is_srgb_encode_u8(244, 0xFA) && is_srgb_encode_u8(245, 0xFB) &&
            is_srgb_encode_u8(246, 0xFB) && is_srgb_encode_u8(247, 0xFB) &&
            is_srgb_encode_u8(248, 0xFC) && is_srgb_encode_u8(249, 0xFC) &&
            is_srgb_encode_u8(250, 0xFD) && is_srgb_encode_u8(251, 0xFD) &&
            is_srgb_encode_u8(252, 0xFE) && is_srgb_encode_u8(253, 0xFE) &&
            is_srgb_encode_u8(254, 0xFF) && is_srgb_encode_u8(255, 0xFF)) by (nonlinear_arith);
    }
    assert forall|i: int| 224 <= i < 256 implies encode_entry_ok(i) by {
        assert(i == 224 || i == 225 || i == 226 || i == 227 || i == 228 || i == 229 ||
            i == 230 || i == 231 || i == 232 || i == 233 || i == 234 || i == 235 || i == 236 ||
            i == 237 || i == 238 || i == 239 || i == 240 || i == 241 || i == 242 || i == 243 ||
            i == 244 || i == 245 || i == 246 || i == 247 || i == 248 || i == 249 || i == 250 ||
            i == 251 || i == 252 || i == 253 || i == 254 || i == 255);
    }
}

/// Every entry of the encode table is the sRGB encode curve at `i / 255`,
/// scaled to 255 and rounded to the nearest integer: checked for all 256 entries.
pub proof fn lemma_encode_table_exact()
    ensures
        forall|i: int| 0 <= i < 256 ==> is_srgb_encode_u8(i, ENCODE_SRGB_U8@[i] as int),
{
    lemma_encode_entries_0_31();
    lemma_encode_entries_32_63();
    lemma_encode_entries_64_95();
    lemma_encode_entries_96_127();
    lemma_encode_entries_128_159();
    lemma_encode_entries_160_191();
    lemma_encode_entries_192_223();
    lemma_encode_entries_224_255();
    assert forall|i: int| 0 <= i < 256 implies is_srgb_encode_u8(i, ENCODE_SRGB_U8@[i] as int) by {
        assert(encode_entry_ok(i));
        reveal(encode_entry_ok);
    }
}

proof fn lemma_decode_entries_0_31()
    ensures
        forall|i: int| 0 <= i < 32 ==> decode_entry_ok(i),
{
    assert(decode_entry_ok(0) && decode_entry_ok(1) && decode_entry_ok(2) &&
        decode_entry_ok(3) && decode_entry_ok(4) && decode_entry_ok(5) && decode_entry_ok(6) &&
        decode_entry_ok(7) && decode_entry_ok(8) && decode_entry_ok(9) && decode_entry_ok(10) &&
        decode_entry_ok(11) && decode_entry_ok(12) && decode_entry_ok(13) &&
        decode_entry_ok(14) && decode_entry_ok(15) && decode_entry_ok(16) &&
        decode_entry_ok(17) && decode_entry_ok(18) && decode_entry_ok(19) &&
        decode_entry_ok(20) && decode_entry_ok(21) && decode_entry_ok(22) &&
        decode_entry_ok(23) && decode_entry_ok(24) && decode_entry_ok(25) &&
        decode_entry_ok(26) && decode_entry_ok(27) && decode_entry_ok(28) &&
        decode_entry_ok(29) && decode_entry_ok(30) && decode_entry_ok(31)) by {
        reveal(decode_entry_ok);
        assert(is_srgb_decode_u8(0, 0x00) && is_srgb_decode_u8(1, 0x00) &&
            is_srgb_decode_u8(2, 0x00) && is_srgb_decode_u8(3, 0x00) &&
            is_srgb_decode_u8(4, 0x00) && is_srgb_decode_u8(5, 0x00) &&
            is_srgb_decode_u8(6, 0x00) && is_srgb_decode_u8(7, 0x01) &&
            is_srgb_decode_u8(8, 0x01) && is_srgb_decode_u8(9, 0x01) &&
            is_srgb_decode_u8(10, 0x01) && is_srgb_decode_u8(11, 0x01) &&
            is_srgb_decode_u8(12, 0x01) && is_srgb_decode_u8(13, 0x01) &&
            is_srgb_decode_u8(14, 0x01) && is_srgb_decode_u8(15, 0x01) &&
            is_srgb_decode_u8(16, 0x01) && is_srgb_decode_u8(17, 0x01) &&
            is_srgb_decode_u8(18, 0x02) && is_srgb_decode_u8(19, 0x02) &&
            is_srgb_decode_u8(20, 0x02) && is_srgb_decode_u8(21, 0x02) &&
            is_srgb_decode_u8(22, 0x02) && is_srgb_decode_u8(23, 0x02) &&
            is_srgb_decode_u8(24, 0x02) && is_srgb_decode_u8(25, 0x02) &&
            is_srgb_decode_u8(26, 0x03) && is_srgb_decode_u8(27, 0x03) &&
            is_srgb_decode_u8(28, 0x03) && is_srgb_decode_u8(29, 0x03) &&
            is_srgb_decode_u8(30, 0x03) && is_srgb_decode_u8(31, 0x03)) by (nonlinear_arith);
    }
    assert forall|i: int| 0 <= i < 32 implies decode_entry_ok(i) by {
        assert(i == 0 || i == 1 || i == 2 || i == 3 || i == 4 || i == 5 || i == 6 || i == 7 ||
            i == 8 || i == 9 || i == 10 || i == 11 || i == 12 || i == 13 || i == 14 ||
            i == 15 || i == 16 || i == 17 || i == 18 || i == 19 || i == 20 || i == 21 ||
            i == 22 || i == 23 || i == 24 || i == 25 || i == 26 || i == 27 || i == 28 ||
            i == 29 || i == 30 || i == 31);
    }
}

proof fn lemma_decode_entries_32_63()
    ensures
        forall|i: int| 32 <= i < 64 ==> decode_entry_ok(i),
{
    assert(decode_entry_ok(32) && decode_entry_ok(33) && decode_entry_ok(34) &&
        decode_entry_ok(35) && decode_entry_ok(36) && decode_entry_ok(37) &&
        decode_entry_ok(38) && decode_entry_ok(39) && decode_entry_ok(40) &&
        decode_entry_ok(41) && decode_entry_ok(42) && decode_entry_ok(43) &&
        decode_entry_ok(44) && decode_entry_ok(45) && decode_entry_ok(46) &&
        decode_entry_ok(47) && decode_entry_ok(48) && decode_entry_ok(49) &&
        decode_entry_ok(50) && decode_entry_ok(51) && decode_entry_ok(52) &&
        decode_entry_ok(53) && decode_entry_ok(54) && decode_entry_ok(55) &&
        decode_entry_ok(56) && decode_entry_ok(57) && decode_entry_ok(58) &&
        decode_entry_ok(59) && decode_entry_ok(60) && decode_entry_ok(61) &&
        decode_entry_ok(62) && decode_entry_ok(63)) by {
        reveal(decode_entry_ok);
        assert(is_srgb_decode_u8(32, 0x04) && is_srgb_decode_u8(33, 0x04) &&
            is_srgb_decode_u8(34, 0x04) && is_srgb_decode_u8(35, 0x04) &&
            is_srgb_decode_u8(36, 0x04) && is_srgb_decode_u8(37, 0x05) &&
            is_srgb_decode_u8(38, 0x05) && is_srgb_decode_u8(39, 0x05) &&
            is_srgb_decode_u8(40, 0x05) && is_srgb_decode_u8(41, 0x06) &&
            is_srgb_decode_u8(42, 0x06) && is_srgb_decode_u8(43, 0x06) &&
            is_srgb_decode_u8(44, 0x06) && is_srgb_decode_u8(45, 0x07) &&
            is_srgb_decode_u8(46, 0x07) && is_srgb_decode_u8(47, 0x07) &&
            is_srgb_decode_u8(48, 0x08) && is_srgb_decode_u8(49, 0x08) &&
            is_srgb_decode_u8(50, 0x08) && is_srgb_decode_u8(51, 0x08) &&
            is_srgb_decode_u8(52, 0x09) && is_srgb_decode_u8(53, 0x09) &&
            is_srgb_decode_u8(54, 0x09) && is_srgb_decode_u8(55, 0x0A) &&
            is_srgb_decode_u8(56, 0x0A) && is_srgb_decode_u8(57, 0x0A) &&
            is_srgb_decode_u8(58, 0x0B) && is_srgb_decode_u8(59, 0x0B) &&
            is_srgb_decode_u8(60, 0x0C) && is_srgb_decode_u8(61, 0x0C) &&
            is_srgb_decode_u8(62, 0x0C) && is_srgb_decode_u8(63, 0x0D)) by (nonlinear_arith);
    }
    assert forall|i: int| 32 <= i < 64 implies decode_entry_ok(i) by {
        assert(i == 32 || i == 33 || i == 34 || i == 35 || i == 36 || i == 37 || i == 38 ||
            i == 39 || i == 40 || i == 41 || i == 42 || i == 43 || i == 44 || i == 45 ||
            i == 46 || i == 47 || i == 48 || i == 49 || i == 50 || i == 51 || i == 52 ||
            i == 53 || i == 54 || i == 55 || i == 56 || i == 57 || i == 58 || i == 59 ||
            i == 60 || i == 61 || i == 62 || i == 63);
    }
}

proof fn lemma_decode_entries_64_95()
    ensures
        forall|i: int| 64 <= i < 96 ==> decode_entry_ok(i),
{
    assert(decode_entry_ok(64) && decode_entry_ok(65) && decode_entry_ok(66) &&
        decode_entry_ok(67) && decode_entry_ok(68) && decode_entry_ok(69) &&
        decode_entry_ok(70) && decode_entry_ok(71) && decode_entry_ok(72) &&
        decode_entry_ok(73) && decode_entry_ok(74) && decode_entry_ok(75) &&
        decode_entry_ok(76) && decode_entry_ok(77) && decode_entry_ok(78) &&
        decode_entry_ok(79) && decode_entry_ok(80) && decode_entry_ok(81) &&
        decode_entry_ok(82) && decode_entry_ok(83) && decode_entry_ok(84) &&
        decode_entry_ok(85) && decode_entry_ok(86) && decode_entry_ok(87) &&
        decode_entry_ok(88) && decode_entry_ok(89) && decode_entry_ok(90) &&
        decode_entry_ok(91) && decode_entry_ok(92) && decode_entry_ok(93) &&
        decode_entry_ok(94) && decode_entry_ok(95)) by {
        reveal(decode_entry_ok);
        assert(is_srgb_decode_u8(64, 0x0D) && is_srgb_decode_u8(65, 0x0D) &&
            is_srgb_decode_u8(66, 0x0E) && is_srgb_decode_u8(67, 0x0E) &&
            is_srgb_decode_u8(68, 0x0F) && is_srgb_decode_u8(69, 0x0F) &&
            is_srgb_decode_u8(70, 0x10) && is_srgb_decode_u8(71, 0x10) &&
            is_srgb_decode_u8(72, 0x11) && is_srgb_decode_u8(73, 0x11) &&
            is_srgb_decode_u8(74, 0x11) && is_srgb_decode_u8(75, 0x12) &&
            is_srgb_decode_u8(76, 0x12) && is_srgb_decode_u8(77, 0x13) &&
            is_srgb_decode_u8(78, 0x13) && is_srgb_decode_u8(79, 0x14) &&
            is_srgb_decode_u8(80, 0x14) && is_srgb_decode_u8(81, 0x15) &&
            is_srgb_decode_u8(82, 0x16) && is_srgb_decode_u8(83, 0x16) &&
            is_srgb_decode_u8(84, 0x17) && is_srgb_decode_u8(85, 0x17) &&
            is_srgb_decode_u8(86, 0x18) && is_srgb_decode_u8(87, 0x18) &&
            is_srgb_decode_u8(88, 0x19) && is_srgb_decode_u8(89, 0x19) &&
            is_srgb_decode_u8(90, 0x1A) && is_srgb_decode_u8(91, 0x1B) &&
            is_srgb_decode_u8(92, 0x1B) && is_srgb_decode_u8(93, 0x1C) &&
            is_srgb_decode_u8(94, 0x1D) && is_srgb_decode_u8(95, 0x1D)) by (nonlinear_arith);
    }
    assert forall|i: int| 64 <= i < 96 implies decode_entry_ok(i) by {
        assert(i == 64 || i == 65 || i == 66 || i == 67 || i == 68 || i == 69 || i == 70 ||
            i == 71 || i == 72 || i == 73 || i == 74 || i == 75 || i == 76 || i == 77 ||
            i == 78 || i == 79 || i == 80 || i == 81 || i == 82 || i == 83 || i == 84 ||
            i == 85 || i == 86 || i == 87 || i == 88 || i == 89 || i == 90 || i == 91 ||
            i == 92 || i == 93 || i == 94 || i == 95);
    }
}

proof fn lemma_decode_entries_96_127()
    ensures
        forall|i: int| 96 <= i < 128 ==> decode_entry_ok(i),
{
    assert(decode_entry_ok(96) && decode_entry_ok(97) && decode_entry_ok(98) &&
        decode_entry_ok(99) && decode_entry_ok(100) && decode_entry_ok(101) &&
        decode_entry_ok(102) && decode_entry_ok(103) && decode_entry_ok(104) &&
        decode_entry_ok(105) && decode_entry_ok(106) && decode_entry_ok(107) &&
        decode_entry_ok(108) && decode_entry_ok(109) && decode_entry_ok(110) &&
        decode_entry_ok(111) && decode_entry_ok(112) && decode_entry_ok(113) &&
        decode_entry_ok(114) && decode_entry_ok(115) && decode_entry_ok(116) &&
        decode_entry_ok(117) && decode_entry_ok(118) && decode_entry_ok(119) &&
        decode_entry_ok(120) && decode_entry_ok(121) && decode_entry_ok(122) &&
        decode_entry_ok(123) && decode_entry_ok(124) && decode_entry_ok(125) &&
        decode_entry_ok(126) && decode_entry_ok(127)) by {
        reveal(decode_entry_ok);
        assert(is_srgb_decode_u8(96, 0x1E) && is_srgb_decode_u8(97, 0x1E) &&
            is_srgb_decode_u8(98, 0x1F) && is_srgb_decode_u8(99, 0x20) &&
            is_srgb_decode_u8(100, 0x20) && is_srgb_decode_u8(101, 0x21) &&
            is_srgb_decode_u8(102, 0x22) && is_srgb_decode_u8(103, 0x23) &&
            is_srgb_decode_u8(104, 0x23) && is_srgb_decode_u8(105, 0x24) &&
            is_srgb_decode_u8(106, 0x25) && is_srgb_decode_u8(107, 0x25) &&
            is_srgb_decode_u8(108, 0x26) && is_srgb_decode_u8(109, 0x27) &&
            is_srgb_decode_u8(110, 0x28) && is_srgb_decode_u8(111, 0x29) &&
            is_srgb_decode_u8(112, 0x29) && is_srgb_decode_u8(113, 0x2A) &&
            is_srgb_decode_u8(114, 0x2B) && is_srgb_decode_u8(115, 0x2C) &&
            is_srgb_decode_u8(116, 0x2D) && is_srgb_decode_u8(117, 0x2D) &&
            is_srgb_decode_u8(118, 0x2E) && is_srgb_decode_u8(119, 0x2F) &&
            is_srgb_decode_u8(120, 0x30) && is_srgb_decode_u8(121, 0x31) &&
            is_srgb_decode_u8(122, 0x32) && is_srgb_decode_u8(123, 0x33) &&
            is_srgb_decode_u8(124, 0x33) && is_srgb_decode_u8(125, 0x34) &&
            is_srgb_decode_u8(126, 0x35) && is_srgb_decode_u8(127, 0x36)) by (nonlinear_arith);
    }
    assert forall|i: int| 96 <= i < 128 implies decode_entry_ok(i) by {
        assert(i == 96 || i == 97 || i == 98 || i == 99 || i == 100 || i == 101 || i == 102 ||
            i == 103 || i == 104 || i == 105 || i == 106 || i == 107 || i == 108 || i == 109 ||
            i == 110 || i == 111 || i == 112 || i == 113 || i == 114 || i == 115 || i == 116 ||
            i == 117 || i == 118 || i == 119 || i == 120 || i == 121 || i == 122 || i == 123 ||
            i == 124 || i == 125 || i == 126 || i == 127);
    }
}

proof fn lemma_decode_entries_128_159()
    ensures
        forall|i: int| 128 <= i < 160 ==> decode_entry_ok(i),
{
    assert(decode_entry_ok(128) && decode_entry_ok(129) && decode_entry_ok(130) &&
        decode_entry_ok(131) && decode_entry_ok(132) && decode_entry_ok(133) &&
        decode_entry_ok(134) && decode_entry_ok(135) && decode_entry_ok(136) &&
        decode_entry_ok(137) && decode_entry_ok(138) && decode_entry_ok(139) &&
        decode_entry_ok(140) && decode_entry_ok(141) && decode_entry_ok(142) &&
        decode_entry_ok(143) && decode_entry_ok(144) && decode_entry_ok(145) &&
        decode_entry_ok(146) && decode_entry_ok(147) && decode_entry_ok(148) &&
        decode_entry_ok(149) && decode_entry_ok(150) && decode_entry_ok(151) &&
        decode_entry_ok(152) && decode_entry_ok(153) && decode_entry_ok(154) &&
        decode_entry_ok(155) && decode_entry_ok(156) && decode_entry_ok(157) &&
        decode_entry_ok(158) && decode_entry_ok(159)) by {
        reveal(decode_entry_ok);
        assert(is_srgb_decode_u8(128, 0x37) && is_srgb_decode_u8(129, 0x38) &&
            is_srgb_decode_u8(130, 0x39) && is_srgb_decode_u8(131, 0x3A) &&
            is_srgb_decode_u8(132, 0x3B) && is_srgb_decode_u8(133, 0x3C) &&
            is_srgb_decode_u8(134, 0x3D) && is_srgb_decode_u8(135, 0x3E) &&
            is_srgb_decode_u8(136, 0x3F) && is_srgb_decode_u8(137, 0x40) &&
            is_srgb_decode_u8(138, 0x41) && is_srgb_decode_u8(139, 0x42) &&
            is_srgb_decode_u8(140, 0x43) && is_srgb_decode_u8(141, 0x44) &&
            is_srgb_decode_u8(142, 0x45) && is_srgb_decode_u8(143, 0x46) &&
            is_srgb_decode_u8(144, 0x47) && is_srgb_decode_u8(145, 0x48) &&
            is_srgb_decode_u8(146, 0x49) && is_srgb_decode_u8(147, 0x4A) &&
            is_srgb_decode_u8(148, 0x4C) && is_srgb_decode_u8(149, 0x4D) &&
            is_srgb_decode_u8(150, 0x4E) && is_srgb_decode_u8(151, 0x4F) &&
            is_srgb_decode_u8(152, 0x50) && is_srgb_decode_u8(153, 0x51) &&
            is_srgb_decode_u8(154, 0x52) && is_srgb_decode_u8(155, 0x54) &&
            is_srgb_decode_u8(156, 0x55) && is_srgb_decode_u8(157, 0x56) &&
            is_srgb_decode_u8(158, 0x57) && is_srgb_decode_u8(159, 0x58)) by (nonlinear_arith);
    }
    assert forall|i: int| 128 <= i < 160 implies decode_entry_ok(i) by {
        assert(i == 128 || i == 129 || i == 130 || i == 131 || i == 132 || i == 133 ||
            i == 134 || i == 135 || i == 136 || i == 137 || i == 138 || i == 139 || i == 140 ||
            i == 141 || i == 142 || i == 143 || i == 144 || i == 145 || i == 146 || i == 147 ||
            i == 148 || i == 149 || i == 150 || i == 151 || i == 152 || i == 153 || i == 154 ||
            i == 155 || i == 156 || i == 157 || i == 158 || i == 159);
    }
}

proof fn lemma_decode_entries_160_191()
    ensures
        forall|i: int| 160 <= i < 192 ==> decode_entry_ok(i),
{
    assert(decode_entry_ok(160) && decode_entry_ok(161) && decode_entry_ok(162) &&
        decode_entry_ok(163) && decode_entry_ok(164) && decode_entry_ok(165) &&
        decode_entry_ok(166) && decode_entry_ok(167) && decode_entry_ok(168) &&
        decode_entry_ok(169) && decode_entry_ok(170) && decode_entry_ok(171) &&
        decode_entry_ok(172) && decode_entry_ok(173) && decode_entry_ok(174) &&
        decode_entry_ok(175) && decode_entry_ok(176) && decode_entry_ok(177) &&
        decode_entry_ok(178) && decode_entry_ok(179) && decode_entry_ok(180) &&
        decode_entry_ok(181) && decode_entry_ok(182) && decode_entry_ok(183) &&
        decode_entry_ok(184) && decode_entry_ok(185) && decode_entry_ok(186) &&
        decode_entry_ok(187) && decode_entry_ok(188) && decode_entry_ok(189) &&
        decode_entry_ok(190) && decode_entry_ok(191)) by {
        reveal(decode_entry_ok);
        assert(is_srgb_decode_u8(160, 0x5A) && is_srgb_decode_u8(161, 0x5B) &&
            is_srgb_decode_u8(162, 0x5C) && is_srgb_decode_u8(163, 0x5D) &&
            is_srgb_decode_u8(164, 0x5F) && is_srgb_decode_u8(165, 0x60) &&
            is_srgb_decode_u8(166, 0x61) && is_srgb_decode_u8(167, 0x63) &&
            is_srgb_decode_u8(168, 0x64) && is_srgb_decode_u8(169, 0x65) &&
            is_srgb_decode_u8(170, 0x67) && is_srgb_decode_u8(171, 0x68) &&
            is_srgb_decode_u8(172, 0x69) && is_srgb_decode_u8(173, 0x6B) &&
            is_srgb_decode_u8(174, 0x6C) && is_srgb_decode_u8(175, 0x6D) &&
            is_srgb_decode_u8(176, 0x6F) && is_srgb_decode_u8(177, 0x70) &&
            is_srgb_decode_u8(178, 0x72) && is_srgb_decode_u8(179, 0x73) &&
            is_srgb_decode_u8(180, 0x74) && is_srgb_decode_u8(181, 0x76) &&
            is_srgb_decode_u8(182, 0x77) && is_srgb_decode_u8(183, 0x79) &&
            is_srgb_decode_u8(184, 0x7A) && is_srgb_decode_u8(185, 0x7C) &&
            is_srgb_decode_u8(186, 0x7D) && is_srgb_decode_u8(187, 0x7F) &&
            is_srgb_decode_u8(188, 0x80) && is_srgb_decode_u8(189, 0x82) &&
            is_srgb_decode_u8(190, 0x83) && is_srgb_decode_u8(191, 0x85)) by (nonlinear_arith);
    }
    assert forall|i: int| 160 <= i < 192 implies decode_entry_ok(i) by {
        assert(i == 160 || i == 161 || i == 162 || i == 163 || i == 164 || i == 165 ||
            i == 166 || i == 167 || i == 168 || i == 169 || i == 170 || i == 171 || i == 172 ||
            i == 173 || i == 174 || i == 175 || i == 176 || i == 177 || i == 178 || i == 179 ||
            i == 180 || i == 181 || i == 182 || i == 183 || i == 184 || i == 185 || i == 186 ||
            i == 187 || i == 188 || i == 189 || i == 190 || i == 191);
    }
}

proof fn lemma_decode_entries_192_223()
    ensures
        forall|i: int| 192 <= i < 224 ==> decode_entry_ok(i),
{
    assert(decode_entry_ok(192) && decode_entry_ok(193) && decode_entry_ok(194) &&
        decode_entry_ok(195) && decode_entry_ok(196) && decode_entry_ok(197) &&
        decode_entry_ok(198) && decode_entry_ok(199) && decode_entry_ok(200) &&
        decode_entry_ok(201) && decode_entry_ok(202) && decode_entry_ok(203) &&
        decode_entry_ok(204) && decode_entry_ok(205) && decode_entry_ok(206) &&
        decode_entry_ok(207) && decode_entry_ok(208) && decode_entry_ok(209) &&
        decode_entry_ok(210) && decode_entry_ok(211) && decode_entry_ok(212) &&
        decode_entry_ok(213) && decode_entry_ok(214) && decode_entry_ok(215) &&
        decode_entry_ok(216) && decode_entry_ok(217) && decode_entry_ok(218) &&
        decode_entry_ok(219) && decode_entry_ok(220) && decode_entry_ok(221) &&
        decode_entry_ok(222) && decode_entry_ok(223)) by {
        reveal(decode_entry_ok);
        assert(is_srgb_decode_u8(192, 0x86) && is_srgb_decode_u8(193, 0x88) &&
            is_srgb_decode_u8(194, 0x8A) && is_srgb_decode_u8(195, 0x8B) &&
            is_srgb_decode_u8(196, 0x8D) && is_srgb_decode_u8(197, 0x8E) &&
            is_srgb_decode_u8(198, 0x90) && is_srgb_decode_u8(199, 0x92) &&
            is_srgb_decode_u8(200, 0x93) && is_srgb_decode_u8(201, 0x95) &&
            is_srgb_decode_u8(202, 0x97) && is_srgb_decode_u8(203, 0x98) &&
            is_srgb_decode_u8(204, 0x9A) && is_srgb_decode_u8(205, 0x9C) &&
            is_srgb_decode_u8(206, 0x9D) && is_srgb_decode_u8(207, 0x9F) &&
            is_srgb_decode_u8(208, 0xA1) && is_srgb_decode_u8(209, 0xA3) &&
            is_srgb_decode_u8(210, 0xA4) && is_srgb_decode_u8(211, 0xA6) &&
            is_srgb_decode_u8(212, 0xA8) && is_srgb_decode_u8(213, 0xAA) &&
            is_srgb_decode_u8(214, 0xAB) && is_srgb_decode_u8(215, 0xAD) &&
            is_srgb_decode_u8(216, 0xAF) && is_srgb_decode_u8(217, 0xB1) &&
            is_srgb_decode_u8(218, 0xB3) && is_srgb_decode_u8(219, 0xB5) &&
            is_srgb_decode_u8(220, 0xB7) && is_srgb_decode_u8(221, 0xB8) &&
            is_srgb_decode_u8(222, 0xBA) && is_srgb_decode_u8(223, 0xBC)) by (nonlinear_arith);
    }
    assert forall|i: int| 192 <= i < 224 implies decode_entry_ok(i) by {
        assert(i == 192 || i == 193 || i == 194 || i == 195 || i == 196 || i == 197 ||
            i == 198 || i == 199 || i == 200 || i == 201 || i == 202 || i == 203 || i == 204 ||
            i == 205 || i == 206 || i == 207 || i == 208 || i == 209 || i == 210 || i == 211 ||
            i == 212 || i == 213 || i == 214 || i == 215 || i == 216 || i == 217 || i == 218 ||
            i == 219 || i == 220 || i == 221 || i == 222 || i == 223);
    }
}

proof fn lemma_decode_entries_224_255()
    ensures
        forall|i: int| 224 <= i < 256 ==> decode_entry_ok(i),
{
    assert(decode_entry_ok(224) && decode_entry_ok(225) && decode_entry_ok(226) &&
        decode_entry_ok(227) && decode_entry_ok(228) && decode_entry_ok(229) &&
        decode_entry_ok(230) && decode_entry_ok(231) && decode_entry_ok(232) &&
        decode_entry_ok(233) && decode_entry_ok(234) && decode_entry_ok(235) &&
        decode_entry_ok(236) && decode_entry_ok(237) && decode_entry_ok(238) &&
        decode_entry_ok(239) && decode_entry_ok(240) && decode_entry_ok(241) &&
        decode_entry_ok(242) && decode_entry_ok(243) && decode_entry_ok(244) &&
        decode_entry_ok(245) && decode_entry_ok(246) && decode_entry_ok(247) &&
        decode_entry_ok(248) && decode_entry_ok(249) && decode_entry_ok(250) &&
        decode_entry_ok(251) && decode_entry_ok(252) && decode_entry_ok(253) &&
        decode_entry_ok(254) && decode_entry_ok(255)) by {
        reveal(decode_entry_ok);
        assert(is_srgb_decode_u8(224, 0xBE) && is_srgb_decode_u8(225, 0xC0) &&
            is_srgb_decode_u8(226, 0xC2) && is_srgb_decode_u8(227, 0xC4) &&
            is_srgb_decode_u8(228, 0xC6) && is_srgb_decode_u8(229, 0xC8) &&
            is_srgb_decode_u8(230, 0xCA) && is_srgb_decode_u8(231, 0xCC) &&
            is_srgb_decode_u8(232, 0xCE) && is_srgb_decode_u8(233, 0xD0) &&
            is_srgb_decode_u8(234, 0xD2) && is_srgb_decode_u8(235, 0xD4) &&
            is_srgb_decode_u8(236, 0xD6) && is_srgb_decode_u8(237, 0xD8) &&
            is_srgb_decode_u8(238, 0xDA) && is_srgb_decode_u8(239, 0xDC) &&
            is_srgb_decode_u8(240, 0xDE) && is_srgb_decode_u8(241, 0xE0) &&
            is_srgb_decode_u8(242, 0xE2) && is_srgb_decode_u8(243, 0xE5) &&
            is_srgb_decode_u8(244, 0xE7) && is_srgb_decode_u8(245, 0xE9) &&
            is_srgb_decode_u8(246, 0xEB) && is_srgb_decode_u8(247, 0xED) &&
            is_srgb_decode_u8(248, 0xEF) && is_srgb_decode_u8(249, 0xF2) &&
            is_srgb_decode_u8(250, 0xF4) && is_srgb_decode_u8(251, 0xF6) &&
            is_srgb_decode_u8(252, 0xF8) && is_srgb_decode_u8(253, 0xFA) &&
            is_srgb_decode_u8(254, 0xFD) && is_srgb_decode_u8(255, 0xFF)) by (nonlinear_arith);
    }
    assert forall|i: int| 224 <= i < 256 implies decode_entry_ok(i) by {
        assert(i == 224 || i == 225 || i == 226 || i == 227 || i == 228 || i == 229 ||
            i == 230 || i == 231 || i == 232 || i == 233 || i == 234 || i == 235 || i == 236 ||
            i == 237 || i == 238 || i == 239 || i == 240 || i == 241 || i == 242 || i == 243 ||
            i == 244 || i == 245 || i == 246 || i == 247 || i == 248 || i == 249 || i == 250 ||
            i == 251 || i == 252 || i == 253 || i == 254 || i == 255);
    }
}

/// Every entry of the decode table is the sRGB decode curve at `i / 255`,
/// scaled to 255 and rounded to the nearest integer: checked for all 256 entries.
pub proof fn lemma_decode_table_exact()
    ensures
        forall|i: int| 0 <= i < 256 ==> is_srgb_decode_u8(i, DECODE_SRGB_U8@[i] as int),
{
    lemma_decode_entries_0_31();
    lemma_decode_entries_32_63();
    lemma_decode_entries_64_95();
    lemma_decode_entries_96_127();
    lemma_decode_entries_128_159();
    lemma_decode_entries_160_191();
    lemma_decode_entries_192_223();
    lemma_decode_entries_224_255();
    assert forall|i: int| 0 <= i < 256 implies is_srgb_decode_u8(i, DECODE_SRGB_U8@[i] as int) by {
        assert(decode_entry_ok(i));
        reveal(decode_entry_ok);
    }
}

#[verifier::opaque]
spec fn round_trip_ok(i: int) -> bool {
    i - 1 <= DECODE_SRGB_U8@[ENCODE_SRGB_U8@[i] as int] <= i + 1
}

proof fn lemma_round_trip_0_31()
    ensures
        forall|i: int| 0 <= i < 32 ==> round_trip_ok(i),
{
    assert(round_trip_ok(0) && round_trip_ok(1) && round_trip_ok(2) && round_trip_ok(3) &&
        round_trip_ok(4) && round_trip_ok(5) && round_trip_ok(6) && round_trip_ok(7) &&
        round_trip_ok(8) && round_trip_ok(9) && round_trip_ok(10) && round_trip_ok(11) &&
        round_trip_ok(12) && round_trip_ok(13) && round_trip_ok(14) && round_trip_ok(15) &&
        round_trip_ok(16) && round_trip_ok(17) && round_trip_ok(18) && round_trip_ok(19) &&
        round_trip_ok(20) && round_trip_ok(21) && round_trip_ok(22) && round_trip_ok(23) &&
        round_trip_ok(24) && round_trip_ok(25) && round_trip_ok(26) && round_trip_ok(27) &&
        round_trip_ok(28) && round_trip_ok(29) && round_trip_ok(30) && round_trip_ok(31)) by {
        reveal(round_trip_ok);
        assert(ENCODE_SRGB_U8@[0] == 0x00 && DECODE_SRGB_U8@[0x00] == 0x00);
        assert(ENCODE_SRGB_U8@[1] == 0x0D && DECODE_SRGB_U8@[0x0D] == 0x01);
        assert(ENCODE_SRGB_U8@[2] == 0x16 && DECODE_SRGB_U8@[0x16] == 0x02);
        assert(ENCODE_SRGB_U8@[3] == 0x1C && DECODE_SRGB_U8@[0x1C] == 0x03);
        assert(ENCODE_SRGB_U8@[4] == 0x22 && DECODE_SRGB_U8@[0x22] == 0x04);
        assert(ENCODE_SRGB_U8@[5] == 0x26 && DECODE_SRGB_U8@[0x26] == 0x05);
        assert(ENCODE_SRGB_U8@[6] == 0x2A && DECODE_SRGB_U8@[0x2A] == 0x06);
        assert(ENCODE_SRGB_U8@[7] == 0x2E && DECODE_SRGB_U8@[0x2E] == 0x07);
        assert(ENCODE_SRGB_U8@[8] == 0x32 && DECODE_SRGB_U8@[0x32] == 0x08);
        assert(ENCODE_SRGB_U8@[9] == 0x35 && DECODE_SRGB_U8@[0x35] == 0x09);
        assert(ENCODE_SRGB_U8@[10] == 0x38 && DECODE_SRGB_U8@[0x38] == 0x0A);
        assert(ENCODE_SRGB_U8@[11] == 0x3B && DECODE_SRGB_U8@[0x3B] == 0x0B);
        assert(ENCODE_SRGB_U8@[12] == 0x3D && DECODE_SRGB_U8@[0x3D] == 0x0C);
        assert(ENCODE_SRGB_U8@[13] == 0x40 && DECODE_SRGB_U8@[0x40] == 0x0D);
        assert(ENCODE_SRGB_U8@[14] == 0x42 && DECODE_SRGB_U8@[0x42] == 0x0E);
        assert(ENCODE_SRGB_U8@[15] == 0x45 && DECODE_SRGB_U8@[0x45] == 0x0F);
        assert(ENCODE_SRGB_U8@[16] == 0x47 && DECODE_SRGB_U8@[0x47] == 0x10);
        assert(ENCODE_SRGB_U8@[17] == 0x49 && DECODE_SRGB_U8@[0x49] == 0x11);
        assert(ENCODE_SRGB_U8@[18] == 0x4B && DECODE_SRGB_U8@[0x4B] == 0x12);
        assert(ENCODE_SRGB_U8@[19] == 0x4D && DECODE_SRGB_U8@[0x4D] == 0x13);
        assert(ENCODE_SRGB_U8@[20] == 0x4F && DECODE_SRGB_U8@[0x4F] == 0x14);
        assert(ENCODE_SRGB_U8@[21] == 0x51 && DECODE_SRGB_U8@[0x51] == 0x15);
        assert(ENCODE_SRGB_U8@[22] == 0x53 && DECODE_SRGB_U8@[0x53] == 0x16);
        assert(ENCODE_SRGB_U8@[23] == 0x55 && DECODE_SRGB_U8@[0x55] == 0x17);
        assert(ENCODE_SRGB_U8@[24] == 0x56 && DECODE_SRGB_U8@[0x56] == 0x18);
        assert(ENCODE_SRGB_U8@[25] == 0x58 && DECODE_SRGB_U8@[0x58] == 0x19);
        assert(ENCODE_SRGB_U8@[26] == 0x5A && DECODE_SRGB_U8@[0x5A] == 0x1A);
        assert(ENCODE_SRGB_U8@[27] == 0x5C && DECODE_SRGB_U8@[0x5C] == 0x1B);
        assert(ENCODE_SRGB_U8@[28] == 0x5D && DECODE_SRGB_U8@[0x5D] == 0x1C);
        assert(ENCODE_SRGB_U8@[29] == 0x5F && DECODE_SRGB_U8@[0x5F] == 0x1D);
        assert(ENCODE_SRGB_U8@[30] == 0x60 && DECODE_SRGB_U8@[0x60] == 0x1E);
        assert(ENCODE_SRGB_U8@[31] == 0x62 && DECODE_SRGB_U8@[0x62] == 0x1F);
    }
    assert forall|i: int| 0 <= i < 32 implies round_trip_ok(i) by {
        assert(i == 0 || i == 1 || i == 2 || i == 3 || i == 4 || i == 5 || i == 6 || i == 7 ||
            i == 8 || i == 9 || i == 10 || i == 11 || i == 12 || i == 13 || i == 14 ||
            i == 15 || i == 16 || i == 17 || i == 18 || i == 19 || i == 20 || i == 21 ||
            i == 22 || i == 23 || i == 24 || i == 25 || i == 26 || i == 27 || i == 28 ||
            i == 29 || i == 30 || i == 31);
    }
}

proof fn lemma_round_trip_32_63()
    ensures
        forall|i: int| 32 <= i < 64 ==> round_trip_ok(i),
{
    assert(round_trip_ok(32) && round_trip_ok(33) && round_trip_ok(34) && round_trip_ok(35) &&
        round_trip_ok(36) && round_trip_ok(37) && round_trip_ok(38) && round_trip_ok(39) &&
        round_trip_ok(40) && round_trip_ok(41) && round_trip_ok(42) && round_trip_ok(43) &&
        round_trip_ok(44) && round_trip_ok(45) && round_trip_ok(46) && round_trip_ok(47) &&
        round_trip_ok(48) && round_trip_ok(49) && round_trip_ok(50) && round_trip_ok(51) &&
        round_trip_ok(52) && round_trip_ok(53) && round_trip_ok(54) && round_trip_ok(55) &&
        round_trip_ok(56) && round_trip_ok(57) && round_trip_ok(58) && round_trip_ok(59) &&
        round_trip_ok(60) && round_trip_ok(61) && round_trip_ok(62) && round_trip_ok(63)) by {
        reveal(round_trip_ok);
        assert(ENCODE_SRGB_U8@[32] == 0x63 && DECODE_SRGB_U8@[0x63] == 0x20);
        assert(ENCODE_SRGB_U8@[33] == 0x65 && DECODE_SRGB_U8@[0x65] == 0x21);
        assert(ENCODE_SRGB_U8@[34] == 0x66 && DECODE_SRGB_U8@[0x66] == 0x22);
        assert(ENCODE_SRGB_U8@[35] == 0x68 && DECODE_SRGB_U8@[0x68] == 0x23);
        assert(ENCODE_SRGB_U8@[36] == 0x69 && DECODE_SRGB_U8@[0x69] == 0x24);
        assert(ENCODE_SRGB_U8@[37] == 0x6A && DECODE_SRGB_U8@[0x6A] == 0x25);
        assert(ENCODE_SRGB_U8@[38] == 0x6C && DECODE_SRGB_U8@[0x6C] == 0x26);
        assert(ENCODE_SRGB_U8@[39] == 0x6D && DECODE_SRGB_U8@[0x6D] == 0x27);
        assert(ENCODE_SRGB_U8@[40] == 0x6E && DECODE_SRGB_U8@[0x6E] == 0x28);
        assert(ENCODE_SRGB_U8@[41] == 0x70 && DECODE_SRGB_U8@[0x70] == 0x29);
        assert(ENCODE_SRGB_U8@[42] == 0x71 && DECODE_SRGB_U8@[0x71] == 0x2A);
        assert(ENCODE_SRGB_U8@[43] == 0x72 && DECODE_SRGB_U8@[0x72] == 0x2B);
        assert(ENCODE_SRGB_U8@[44] == 0x73 && DECODE_SRGB_U8@[0x73] == 0x2C);
        assert(ENCODE_SRGB_U8@[45] == 0x75 && DECODE_SRGB_U8@[0x75] == 0x2D);
        assert(ENCODE_SRGB_U8@[46] == 0x76 && DECODE_SRGB_U8@[0x76] == 0x2E);
        assert(ENCODE_SRGB_U8@[47] == 0x77 && DECODE_SRGB_U8@[0x77] == 0x2F);
        assert(ENCODE_SRGB_U8@[48] == 0x78 && DECODE_SRGB_U8@[0x78] == 0x30);
        assert(ENCODE_SRGB_U8@[49] == 0x79 && DECODE_SRGB_U8@[0x79] == 0x31);
        assert(ENCODE_SRGB_U8@[50] == 0x7A && DECODE_SRGB_U8@[0x7A] == 0x32);
        assert(ENCODE_SRGB_U8@[51] == 0x7C && DECODE_SRGB_U8@[0x7C] == 0x33);
        assert(ENCODE_SRGB_U8@[52] == 0x7D && DECODE_SRGB_U8@[0x7D] == 0x34);
        assert(ENCODE_SRGB_U8@[53] == 0x7E && DECODE_SRGB_U8@[0x7E] == 0x35);
        assert(ENCODE_SRGB_U8@[54] == 0x7F && DECODE_SRGB_U8@[0x7F] == 0x36);
        assert(ENCODE_SRGB_U8@[55] == 0x80 && DECODE_SRGB_U8@[0x80] == 0x37);
        assert(ENCODE_SRGB_U8@[56] == 0x81 && DECODE_SRGB_U8@[0x81] == 0x38);
        assert(ENCODE_SRGB_U8@[57] == 0x82 && DECODE_SRGB_U8@[0x82] == 0x39);
        assert(ENCODE_SRGB_U8@[58] == 0x83 && DECODE_SRGB_U8@[0x83] == 0x3A);
        assert(ENCODE_SRGB_U8@[59] == 0x84 && DECODE_SRGB_U8@[0x84] == 0x3B);
        assert(ENCODE_SRGB_U8@[60] == 0x85 && DECODE_SRGB_U8@[0x85] == 0x3C);
        assert(ENCODE_SRGB_U8@[61] == 0x86 && DECODE_SRGB_U8@[0x86] == 0x3D);
        assert(ENCODE_SRGB_U8@[62] == 0x87 && DECODE_SRGB_U8@[0x87] == 0x3E);
        assert(ENCODE_SRGB_U8@[63] == 0x88 && DECODE_SRGB_U8@[0x88] == 0x3F);
    }
    assert forall|i: int| 32 <= i < 64 implies round_trip_ok(i) by {
        assert(i == 32 || i == 33 || i == 34 || i == 35 || i == 36 || i == 37 || i == 38 ||
            i == 39 || i == 40 || i == 41 || i == 42 || i == 43 || i == 44 || i == 45 ||
            i == 46 || i == 47 || i == 48 || i == 49 || i == 50 || i == 51 || i == 52 ||
            i == 53 || i == 54 || i == 55 || i == 56 || i == 57 || i == 58 || i == 59 ||
            i == 60 || i == 61 || i == 62 || i == 63);
    }
}

proof fn lemma_round_trip_64_95()
    ensures
        forall|i: int| 64 <= i < 96 ==> round_trip_ok(i),
{
    assert(round_trip_ok(64) && round_trip_ok(65) && round_trip_ok(66) && round_trip_ok(67) &&
        round_trip_ok(68) && round_trip_ok(69) && round_trip_ok(70) && round_trip_ok(71) &&
        round_trip_ok(72) && round_trip_ok(73) && round_trip_ok(74) && round_trip_ok(75) &&
        round_trip_ok(76) && round_trip_ok(77) && round_trip_ok(78) && round_trip_ok(79) &&
        round_trip_ok(80) && round_trip_ok(81) && round_trip_ok(82) && round_trip_ok(83) &&
        round_trip_ok(84) && round_trip_ok(85) && round_trip_ok(86) && round_trip_ok(87) &&
        round_trip_ok(88) && round_trip_ok(89) && round_trip_ok(90) && round_trip_ok(91) &&
        round_trip_ok(92) && round_trip_ok(93) && round_trip_ok(94) && round_trip_ok(95)) by {
        reveal(round_trip_ok);
        assert(ENCODE_SRGB_U8@[64] == 0x89 && DECODE_SRGB_U8@[0x89] == 0x40);
        assert(ENCODE_SRGB_U8@[65] == 0x8A && DECODE_SRGB_U8@[0x8A] == 0x41);
        assert(ENCODE_SRGB_U8@[66] == 0x8B && DECODE_SRGB_U8@[0x8B] == 0x42);
        assert(ENCODE_SRGB_U8@[67] == 0x8C && DECODE_SRGB_U8@[0x8C] == 0x43);
        assert(ENCODE_SRGB_U8@[68] == 0x8D && DECODE_SRGB_U8@[0x8D] == 0x44);
        assert(ENCODE_SRGB_U8@[69] == 0x8E && DECODE_SRGB_U8@[0x8E] == 0x45);
        assert(ENCODE_SRGB_U8@[70] == 0x8F && DECODE_SRGB_U8@[0x8F] == 0x46);
        assert(ENCODE_SRGB_U8@[71] == 0x90 && DECODE_SRGB_U8@[0x90] == 0x47);
        assert(ENCODE_SRGB_U8@[72] == 0x91 && DECODE_SRGB_U8@[0x91] == 0x48);
        assert(ENCODE_SRGB_U8@[73] == 0x92 && DECODE_SRGB_U8@[0x92] == 0x49);
        assert(ENCODE_SRGB_U8@[74] == 0x93 && DECODE_SRGB_U8@[0x93] == 0x4A);
        assert(ENCODE_SRGB_U8@[75] == 0x94 && DECODE_SRGB_U8@[0x94] == 0x4C);
        assert(ENCODE_SRGB_U8@[76] == 0x94 && DECODE_SRGB_U8@[0x94] == 0x4C);
        assert(ENCODE_SRGB_U8@[77] == 0x95 && DECODE_SRGB_U8@[0x95] == 0x4D);
        assert(ENCODE_SRGB_U8@[78] == 0x96 && DECODE_SRGB_U8@[0x96] == 0x4E);
        assert(ENCODE_SRGB_U8@[79] == 0x97 && DECODE_SRGB_U8@[0x97] == 0x4F);
        assert(ENCODE_SRGB_U8@[80] == 0x98 && DECODE_SRGB_U8@[0x98] == 0x50);
        assert(ENCODE_SRGB_U8@[81] == 0x99 && DECODE_SRGB_U8@[0x99] == 0x51);
        assert(ENCODE_SRGB_U8@[82] == 0x9A && DECODE_SRGB_U8@[0x9A] == 0x52);
        assert(ENCODE_SRGB_U8@[83] == 0x9B && DECODE_SRGB_U8@[0x9B] == 0x54);
        assert(ENCODE_SRGB_U8@[84] == 0x9B && DECODE_SRGB_U8@[0x9B] == 0x54);
        assert(ENCODE_SRGB_U8@[85] == 0x9C && DECODE_SRGB_U8@[0x9C] == 0x55);
        assert(ENCODE_SRGB_U8@[86] == 0x9D && DECODE_SRGB_U8@[0x9D] == 0x56);
        assert(ENCODE_SRGB_U8@[87] == 0x9E && DECODE_SRGB_U8@[0x9E] == 0x57);
        assert(ENCODE_SRGB_U8@[88] == 0x9F && DECODE_SRGB_U8@[0x9F] == 0x58);
        assert(ENCODE_SRGB_U8@[89] == 0x9F && DECODE_SRGB_U8@[0x9F] == 0x58);
        assert(ENCODE_SRGB_U8@[90] == 0xA0 && DECODE_SRGB_U8@[0xA0] == 0x5A);
        assert(ENCODE_SRGB_U8@[91] == 0xA1 && DECODE_SRGB_U8@[0xA1] == 0x5B);
        assert(ENCODE_SRGB_U8@[92] == 0xA2 && DECODE_SRGB_U8@[0xA2] == 0x5C);
        assert(ENCODE_SRGB_U8@[93] == 0xA3 && DECODE_SRGB_U8@[0xA3] == 0x5D);
        assert(ENCODE_SRGB_U8@[94] == 0xA3 && DECODE_SRGB_U8@[0xA3] == 0x5D);
        assert(ENCODE_SRGB_U8@[95] == 0xA4 && DECODE_SRGB_U8@[0xA4] == 0x5F);
    }
    assert forall|i: int| 64 <= i < 96 implies round_trip_ok(i) by {
        assert(i == 64 || i == 65 || i == 66 || i == 67 || i == 68 || i == 69 || i == 70 ||
            i == 71 || i == 72 || i == 73 || i == 74 || i == 75 || i == 76 || i == 77 ||
            i == 78 || i == 79 || i == 80 || i == 81 || i == 82 || i == 83 || i == 84 ||
            i == 85 || i == 86 || i == 87 || i == 88 || i == 89 || i == 90 || i == 91 ||
            i == 92 || i == 93 || i == 94 || i == 95);
    }
}

proof fn lemma_round_trip_96_127()
    ensures
        forall|i: int| 96 <= i < 128 ==> round_trip_ok(i),
{
    assert(round_trip_ok(96) && round_trip_ok(97) && round_trip_ok(98) && round_trip_ok(99) &&
        round_trip_ok(100) && round_trip_ok(101) && round_trip_ok(102) && round_trip_ok(103) &&
        round_trip_ok(104) && round_trip_ok(105) && round_trip_ok(106) && round_trip_ok(107) &&
        round_trip_ok(108) && round_trip_ok(109) && round_trip_ok(110) && round_trip_ok(111) &&
        round_trip_ok(112) && round_trip_ok(113) && round_trip_ok(114) && round_trip_ok(115) &&
        round_trip_ok(116) && round_trip_ok(117) && round_trip_ok(118) && round_trip_ok(119) &&
        round_trip_ok(120) && round_trip_ok(121) && round_trip_ok(122) && round_trip_ok(123) &&
        round_trip_ok(124) && round_trip_ok(125) && round_trip_ok(126) && round_trip_ok(127)) by {
        reveal(round_trip_ok);
        assert(ENCODE_SRGB_U8@[96] == 0xA5 && DECODE_SRGB_U8@[0xA5] == 0x60);
        assert(ENCODE_SRGB_U8@[97] == 0xA6 && DECODE_SRGB_U8@[0xA6] == 0x61);
        assert(ENCODE_SRGB_U8@[98] == 0xA7 && DECODE_SRGB_U8@[0xA7] == 0x63);
        assert(ENCODE_SRGB_U8@[99] == 0xA7 && DECODE_SRGB_U8@[0xA7] == 0x63);
        assert(ENCODE_SRGB_U8@[100] == 0xA8 && DECODE_SRGB_U8@[0xA8] == 0x64);
        assert(ENCODE_SRGB_U8@[101] == 0xA9 && DECODE_SRGB_U8@[0xA9] == 0x65);
        assert(ENCODE_SRGB_U8@[102] == 0xAA && DECODE_SRGB_U8@[0xAA] == 0x67);
        assert(ENCODE_SRGB_U8@[103] == 0xAA && DECODE_SRGB_U8@[0xAA] == 0x67);
        assert(ENCODE_SRGB_U8@[104] == 0xAB && DECODE_SRGB_U8@[0xAB] == 0x68);
        assert(ENCODE_SRGB_U8@[105] == 0xAC && DECODE_SRGB_U8@[0xAC] == 0x69);
        assert(ENCODE_SRGB_U8@[106] == 0xAD && DECODE_SRGB_U8@[0xAD] == 0x6B);
        assert(ENCODE_SRGB_U8@[107] == 0xAD && DECODE_SRGB_U8@[0xAD] == 0x6B);
        assert(ENCODE_SRGB_U8@[108] == 0xAE && DECODE_SRGB_U8@[0xAE] == 0x6C);
        assert(ENCODE_SRGB_U8@[109] == 0xAF && DECODE_SRGB_U8@[0xAF] == 0x6D);
        assert(ENCODE_SRGB_U8@[110] == 0xAF && DECODE_SRGB_U8@[0xAF] == 0x6D);
        assert(ENCODE_SRGB_U8@[111] == 0xB0 && DECODE_SRGB_U8@[0xB0] == 0x6F);
        assert(ENCODE_SRGB_U8@[112] == 0xB1 && DECODE_SRGB_U8@[0xB1] == 0x70);
        assert(ENCODE_SRGB_U8@[113] == 0xB2 && DECODE_SRGB_U8@[0xB2] == 0x72);
        assert(ENCODE_SRGB_U8@[114] == 0xB2 && DECODE_SRGB_U8@[0xB2] == 0x72);
        assert(ENCODE_SRGB_U8@[115] == 0xB3 && DECODE_SRGB_U8@[0xB3] == 0x73);
        assert(ENCODE_SRGB_U8@[116] == 0xB4 && DECODE_SRGB_U8@[0xB4] == 0x74);
        assert(ENCODE_SRGB_U8@[117] == 0xB4 && DECODE_SRGB_U8@[0xB4] == 0x74);
        assert(ENCODE_SRGB_U8@[118] == 0xB5 && DECODE_SRGB_U8@[0xB5] == 0x76);
        assert(ENCODE_SRGB_U8@[119] == 0xB6 && DECODE_SRGB_U8@[0xB6] == 0x77);
        assert(ENCODE_SRGB_U8@[120] == 0xB6 && DECODE_SRGB_U8@[0xB6] == 0x77);
        assert(ENCODE_SRGB_U8@[121] == 0xB7 && DECODE_SRGB_U8@[0xB7] == 0x79);
        assert(ENCODE_SRGB_U8@[122] == 0xB8 && DECODE_SRGB_U8@[0xB8] == 0x7A);
        assert(ENCODE_SRGB_U8@[123] == 0xB9 && DECODE_SRGB_U8@[0xB9] == 0x7C);
        assert(ENCODE_SRGB_U8@[124] == 0xB9 && DECODE_SRGB_U8@[0xB9] == 0x7C);
        assert(ENCODE_SRGB_U8@[125] == 0xBA && DECODE_SRGB_U8@[0xBA] == 0x7D);
        assert(ENCODE_SRGB_U8@[126] == 0xBB && DECODE_SRGB_U8@[0xBB] == 0x7F);
        assert(ENCODE_SRGB_U8@[127] == 0xBB && DECODE_SRGB_U8@[0xBB] == 0x7F);
    }
    assert forall|i: int| 96 <= i < 128 implies round_trip_ok(i) by {
        assert(i == 96 || i == 97 || i == 98 || i == 99 || i == 100 || i == 101 || i == 102 ||
            i == 103 || i == 104 || i == 105 || i == 106 || i == 107 || i == 108 || i == 109 ||
            i == 110 || i == 111 || i == 112 || i == 113 || i == 114 || i == 115 || i == 116 ||
            i == 117 || i == 118 || i == 119 || i == 120 || i == 121 || i == 122 || i == 123 ||
            i == 124 || i == 125 || i == 126 || i == 127);
    }
}

proof fn lemma_round_trip_128_159()
    ensures
        forall|i: int| 128 <= i < 160 ==> round_trip_ok(i),
{
    assert(round_trip_ok(128) && round_trip_ok(129) && round_trip_ok(130) &&
        round_trip_ok(131) && round_trip_ok(132) && round_trip_ok(133) && round_trip_ok(134) &&
        round_trip_ok(135) && round_trip_ok(136) && round_trip_ok(137) && round_trip_ok(138) &&
        round_trip_ok(139) && round_trip_ok(140) && round_trip_ok(141) && round_trip_ok(142) &&
        round_trip_ok(143) && round_trip_ok(144) && round_trip_ok(145) && round_trip_ok(146) &&
        round_trip_ok(147) && round_trip_ok(148) && round_trip_ok(149) && round_trip_ok(150) &&
        round_trip_ok(151) && round_trip_ok(152) && round_trip_ok(153) && round_trip_ok(154) &&
        round_trip_ok(155) && round_trip_ok(156) && round_trip_ok(157) && round_trip_ok(158) &&
        round_trip_ok(159)) by {
        reveal(round_trip_ok);
        assert(ENCODE_SRGB_U8@[128] == 0xBC && DECODE_SRGB_U8@[0xBC] == 0x80);
        assert(ENCODE_SRGB_U8@[129] == 0xBD && DECODE_SRGB_U8@[0xBD] == 0x82);
        assert(ENCODE_SRGB_U8@[130] == 0xBD && DECODE_SRGB_U8@[0xBD] == 0x82);
        assert(ENCODE_SRGB_U8@[131] == 0xBE && DECODE_SRGB_U8@[0xBE] == 0x83);
        assert(ENCODE_SRGB_U8@[132] == 0xBE && DECODE_SRGB_U8@[0xBE] == 0x83);
        assert(ENCODE_SRGB_U8@[133] == 0xBF && DECODE_SRGB_U8@[0xBF] == 0x85);
        assert(ENCODE_SRGB_U8@[134] == 0xC0 && DECODE_SRGB_U8@[0xC0] == 0x86);
        assert(ENCODE_SRGB_U8@[135] == 0xC0 && DECODE_SRGB_U8@[0xC0] == 0x86);
        assert(ENCODE_SRGB_U8@[136] == 0xC1 && DECODE_SRGB_U8@[0xC1] == 0x88);
        assert(ENCODE_SRGB_U8@[137] == 0xC2 && DECODE_SRGB_U8@[0xC2] == 0x8A);
        assert(ENCODE_SRGB_U8@[138] == 0xC2 && DECODE_SRGB_U8@[0xC2] == 0x8A);
        assert(ENCODE_SRGB_U8@[139] == 0xC3 && DECODE_SRGB_U8@[0xC3] == 0x8B);
        assert(ENCODE_SRGB_U8@[140] == 0xC4 && DECODE_SRGB_U8@[0xC4] == 0x8D);
        assert(ENCODE_SRGB_U8@[141] == 0xC4 && DECODE_SRGB_U8@[0xC4] == 0x8D);
        assert(ENCODE_SRGB_U8@[142] == 0xC5 && DECODE_SRGB_U8@[0xC5] == 0x8E);
        assert(ENCODE_SRGB_U8@[143] == 0xC5 && DECODE_SRGB_U8@[0xC5] == 0x8E);
        assert(ENCODE_SRGB_U8@[144] == 0xC6 && DECODE_SRGB_U8@[0xC6] == 0x90);
        assert(ENCODE_SRGB_U8@[145] == 0xC7 && DECODE_SRGB_U8@[0xC7] == 0x92);
        assert(ENCODE_SRGB_U8@[146] == 0xC7 && DECODE_SRGB_U8@[0xC7] == 0x92);
        assert(ENCODE_SRGB_U8@[147] == 0xC8 && DECODE_SRGB_U8@[0xC8] == 0x93);
        assert(ENCODE_SRGB_U8@[148] == 0xC8 && DECODE_SRGB_U8@[0xC8] == 0x93);
        assert(ENCODE_SRGB_U8@[149] == 0xC9 && DECODE_SRGB_U8@[0xC9] == 0x95);
        assert(ENCODE_SRGB_U8@[150] == 0xCA && DECODE_SRGB_U8@[0xCA] == 0x97);
        assert(ENCODE_SRGB_U8@[151] == 0xCA && DECODE_SRGB_U8@[0xCA] == 0x97);
        assert(ENCODE_SRGB_U8@[152] == 0xCB && DECODE_SRGB_U8@[0xCB] == 0x98);
        assert(ENCODE_SRGB_U8@[153] == 0xCB && DECODE_SRGB_U8@[0xCB] == 0x98);
        assert(ENCODE_SRGB_U8@[154] == 0xCC && DECODE_SRGB_U8@[0xCC] == 0x9A);
        assert(ENCODE_SRGB_U8@[155] == 0xCD && DECODE_SRGB_U8@[0xCD] == 0x9C);
        assert(ENCODE_SRGB_U8@[156] == 0xCD && DECODE_SRGB_U8@[0xCD] == 0x9C);
        assert(ENCODE_SRGB_U8@[157] == 0xCE && DECODE_SRGB_U8@[0xCE] == 0x9D);
        assert(ENCODE_SRGB_U8@[158] == 0xCE && DECODE_SRGB_U8@[0xCE] == 0x9D);
        assert(ENCODE_SRGB_U8@[159] == 0xCF && DECODE_SRGB_U8@[0xCF] == 0x9F);
    }
    assert forall|i: int| 128 <= i < 160 implies round_trip_ok(i) by {
        assert(i == 128 || i == 129 || i == 130 || i == 131 || i == 132 || i == 133 ||
            i == 134 || i == 135 || i == 136 || i == 137 || i == 138 || i == 139 || i == 140 ||
            i == 141 || i == 142 || i == 143 || i == 144 || i == 145 || i == 146 || i == 147 ||
            i == 148 || i == 149 || i == 150 || i == 151 || i == 152 || i == 153 || i == 154 ||
            i == 155 || i == 156 || i == 157 || i == 158 || i == 159);
    }
}

proof fn lemma_round_trip_160_191()
    ensures
        forall|i: int| 160 <= i < 192 ==> round_trip_ok(i),
{
    assert(round_trip_ok(160) && round_trip_ok(161) && round_trip_ok(162) &&
        round_trip_ok(163) && round_trip_ok(164) && round_trip_ok(165) && round_trip_ok(166) &&
        round_trip_ok(167) && round_trip_ok(168) && round_trip_ok(169) && round_trip_ok(170) &&
        round_trip_ok(171) && round_trip_ok(172) && round_trip_ok(173) && round_trip_ok(174) &&
        round_trip_ok(175) && round_trip_ok(176) && round_trip_ok(177) && round_trip_ok(178) &&
        round_trip_ok(179) && round_trip_ok(180) && round_trip_ok(181) && round_trip_ok(182) &&
        round_trip_ok(183) && round_trip_ok(184) && round_trip_ok(185) && round_trip_ok(186) &&
        round_trip_ok(187) && round_trip_ok(188) && round_trip_ok(189) && round_trip_ok(190) &&
        round_trip_ok(191)) by {
        reveal(round_trip_ok);
        assert(ENCODE_SRGB_U8@[160] == 0xD0 && DECODE_SRGB_U8@[0xD0] == 0xA1);
        assert(ENCODE_SRGB_U8@[161] == 0xD0 && DECODE_SRGB_U8@[0xD0] == 0xA1);
        assert(ENCODE_SRGB_U8@[162] == 0xD1 && DECODE_SRGB_U8@[0xD1] == 0xA3);
        assert(ENCODE_SRGB_U8@[163] == 0xD1 && DECODE_SRGB_U8@[0xD1] == 0xA3);
        assert(ENCODE_SRGB_U8@[164] == 0xD2 && DECODE_SRGB_U8@[0xD2] == 0xA4);
        assert(ENCODE_SRGB_U8@[165] == 0xD2 && DECODE_SRGB_U8@[0xD2] == 0xA4);
        assert(ENCODE_SRGB_U8@[166] == 0xD3 && DECODE_SRGB_U8@[0xD3] == 0xA6);
        assert(ENCODE_SRGB_U8@[167] == 0xD4 && DECODE_SRGB_U8@[0xD4] == 0xA8);
        assert(ENCODE_SRGB_U8@[168] == 0xD4 && DECODE_SRGB_U8@[0xD4] == 0xA8);
        assert(ENCODE_SRGB_U8@[169] == 0xD5 && DECODE_SRGB_U8@[0xD5] == 0xAA);
        assert(ENCODE_SRGB_U8@[170] == 0xD5 && DECODE_SRGB_U8@[0xD5] == 0xAA);
        assert(ENCODE_SRGB_U8@[171] == 0xD6 && DECODE_SRGB_U8@[0xD6] == 0xAB);
        assert(ENCODE_SRGB_U8@[172] == 0xD6 && DECODE_SRGB_U8@[0xD6] == 0xAB);
        assert(ENCODE_SRGB_U8@[173] == 0xD7 && DECODE_SRGB_U8@[0xD7] == 0xAD);
        assert(ENCODE_SRGB_U8@[174] == 0xD7 && DECODE_SRGB_U8@[0xD7] == 0xAD);
        assert(ENCODE_SRGB_U8@[175] == 0xD8 && DECODE_SRGB_U8@[0xD8] == 0xAF);
        assert(ENCODE_SRGB_U8@[176] == 0xD8 && DECODE_SRGB_U8@[0xD8] == 0xAF);
        assert(ENCODE_SRGB_U8@[177] == 0xD9 && DECODE_SRGB_U8@[0xD9] == 0xB1);
        assert(ENCODE_SRGB_U8@[178] == 0xDA && DECODE_SRGB_U8@[0xDA] == 0xB3);
        assert(ENCODE_SRGB_U8@[179] == 0xDA && DECODE_SRGB_U8@[0xDA] == 0xB3);
        assert(ENCODE_SRGB_U8@[180] == 0xDB && DECODE_SRGB_U8@[0xDB] == 0xB5);
        assert(ENCODE_SRGB_U8@[181] == 0xDB && DECODE_SRGB_U8@[0xDB] == 0xB5);
        assert(ENCODE_SRGB_U8@[182] == 0xDC && DECODE_SRGB_U8@[0xDC] == 0xB7);
        assert(ENCODE_SRGB_U8@[183] == 0xDC && DECODE_SRGB_U8@[0xDC] == 0xB7);
        assert(ENCODE_SRGB_U8@[184] == 0xDD && DECODE_SRGB_U8@[0xDD] == 0xB8);
        assert(ENCODE_SRGB_U8@[185] == 0xDD && DECODE_SRGB_U8@[0xDD] == 0xB8);
        assert(ENCODE_SRGB_U8@[186] == 0xDE && DECODE_SRGB_U8@[0xDE] == 0xBA);
        assert(ENCODE_SRGB_U8@[187] == 0xDE && DECODE_SRGB_U8@[0xDE] == 0xBA);
        assert(ENCODE_SRGB_U8@[188] == 0xDF && DECODE_SRGB_U8@[0xDF] == 0xBC);
        assert(ENCODE_SRGB_U8@[189] == 0xDF && DECODE_SRGB_U8@[0xDF] == 0xBC);
        assert(ENCODE_SRGB_U8@[190] == 0xE0 && DECODE_SRGB_U8@[0xE0] == 0xBE);
        assert(ENCODE_SRGB_U8@[191] == 0xE0 && DECODE_SRGB_U8@[0xE0] == 0xBE);
    }
    assert forall|i: int| 160 <= i < 192 implies round_trip_ok(i) by {
        assert(i == 160 || i == 161 || i == 162 || i == 163 || i == 164 || i == 165 ||
            i == 166 || i == 167 || i == 168 || i == 169 || i == 170 || i == 171 || i == 172 ||
            i == 173 || i == 174 || i == 175 || i == 176 || i == 177 || i == 178 || i == 179 ||
            i == 180 || i == 181 || i == 182 || i == 183 || i == 184 || i == 185 || i == 186 ||
            i == 187 || i == 188 || i == 189 || i == 190 || i == 191);
    }
}

proof fn lemma_round_trip_192_223()
    ensures
        forall|i: int| 192 <= i < 224 ==> round_trip_ok(i),
{
    assert(round_trip_ok(192) && round_trip_ok(193) && round_trip_ok(194) &&
        round_trip_ok(195) && round_trip_ok(196) && round_trip_ok(197) && round_trip_ok(198) &&
        round_trip_ok(199) && round_trip_ok(200) && round_trip_ok(201) && round_trip_ok(202) &&
        round_trip_ok(203) && round_trip_ok(204) && round_trip_ok(205) && round_trip_ok(206) &&
        round_trip_ok(207) && round_trip_ok(208) && round_trip_ok(209) && round_trip_ok(210) &&
        round_trip_ok(211) && round_trip_ok(212) && round_trip_ok(213) && round_trip_ok(214) &&
        round_trip_ok(215) && round_trip_ok(216) && round_trip_ok(217) && round_trip_ok(218) &&
        round_trip_ok(219) && round_trip_ok(220) && round_trip_ok(221) && round_trip_ok(222) &&
        round_trip_ok(223)) by {
        reveal(round_trip_ok);
        assert(ENCODE_SRGB_U8@[192] == 0xE1 && DECODE_SRGB_U8@[0xE1] == 0xC0);
        assert(ENCODE_SRGB_U8@[193] == 0xE2 && DECODE_SRGB_U8@[0xE2] == 0xC2);
        assert(ENCODE_SRGB_U8@[194] == 0xE2 && DECODE_SRGB_U8@[0xE2] == 0xC2);
        assert(ENCODE_SRGB_U8@[195] == 0xE3 && DECODE_SRGB_U8@[0xE3] == 0xC4);
        assert(ENCODE_SRGB_U8@[196] == 0xE3 && DECODE_SRGB_U8@[0xE3] == 0xC4);
        assert(ENCODE_SRGB_U8@[197] == 0xE4 && DECODE_SRGB_U8@[0xE4] == 0xC6);
        assert(ENCODE_SRGB_U8@[198] == 0xE4 && DECODE_SRGB_U8@[0xE4] == 0xC6);
        assert(ENCODE_SRGB_U8@[199] == 0xE5 && DECODE_SRGB_U8@[0xE5] == 0xC8);
        assert(ENCODE_SRGB_U8@[200] == 0xE5 && DECODE_SRGB_U8@[0xE5] == 0xC8);
        assert(ENCODE_SRGB_U8@[201] == 0xE6 && DECODE_SRGB_U8@[0xE6] == 0xCA);
        assert(ENCODE_SRGB_U8@[202] == 0xE6 && DECODE_SRGB_U8@[0xE6] == 0xCA);
        assert(ENCODE_SRGB_U8@[203] == 0xE7 && DECODE_SRGB_U8@[0xE7] == 0xCC);
        assert(ENCODE_SRGB_U8@[204] == 0xE7 && DECODE_SRGB_U8@[0xE7] == 0xCC);
        assert(ENCODE_SRGB_U8@[205] == 0xE8 && DECODE_SRGB_U8@[0xE8] == 0xCE);
        assert(ENCODE_SRGB_U8@[206] == 0xE8 && DECODE_SRGB_U8@[0xE8] == 0xCE);
        assert(ENCODE_SRGB_U8@[207] == 0xE9 && DECODE_SRGB_U8@[0xE9] == 0xD0);
        assert(ENCODE_SRGB_U8@[208] == 0xE9 && DECODE_SRGB_U8@[0xE9] == 0xD0);
        assert(ENCODE_SRGB_U8@[209] == 0xEA && DECODE_SRGB_U8@[0xEA] == 0xD2);
        assert(ENCODE_SRGB_U8@[210] == 0xEA && DECODE_SRGB_U8@[0xEA] == 0xD2);
        assert(ENCODE_SRGB_U8@[211] == 0xEB && DECODE_SRGB_U8@[0xEB] == 0xD4);
        assert(ENCODE_SRGB_U8@[212] == 0xEB && DECODE_SRGB_U8@[0xEB] == 0xD4);
        assert(ENCODE_SRGB_U8@[213] == 0xEC && DECODE_SRGB_U8@[0xEC] == 0xD6);
        assert(ENCODE_SRGB_U8@[214] == 0xEC && DECODE_SRGB_U8@[0xEC] == 0xD6);
        assert(ENCODE_SRGB_U8@[215] == 0xED && DECODE_SRGB_U8@[0xED] == 0xD8);
        assert(ENCODE_SRGB_U8@[216] == 0xED && DECODE_SRGB_U8@[0xED] == 0xD8);
        assert(ENCODE_SRGB_U8@[217] == 0xEE && DECODE_SRGB_U8@[0xEE] == 0xDA);
        assert(ENCODE_SRGB_U8@[218] == 0xEE && DECODE_SRGB_U8@[0xEE] == 0xDA);
        assert(ENCODE_SRGB_U8@[219] == 0xEE && DECODE_SRGB_U8@[0xEE] == 0xDA);
        assert(ENCODE_SRGB_U8@[220] == 0xEF && DECODE_SRGB_U8@[0xEF] == 0xDC);
        assert(ENCODE_SRGB_U8@[221] == 0xEF && DECODE_SRGB_U8@[0xEF] == 0xDC);
        assert(ENCODE_SRGB_U8@[222] == 0xF0 && DECODE_SRGB_U8@[0xF0] == 0xDE);
        assert(ENCODE_SRGB_U8@[223] == 0xF0 && DECODE_SRGB_U8@[0xF0] == 0xDE);
    }
    assert forall|i: int| 192 <= i < 224 implies round_trip_ok(i) by {
        assert(i == 192 || i == 193 || i == 194 || i == 195 || i == 196 || i == 197 ||
            i == 198 || i == 199 || i == 200 || i == 201 || i == 202 || i == 203 || i == 204 ||
            i == 205 || i == 206 || i == 207 || i == 208 || i == 209 || i == 210 || i == 211 ||
            i == 212 || i == 213 || i == 214 || i == 215 || i == 216 || i == 217 || i == 218 ||
            i == 219 || i == 220 || i == 221 || i == 222 || i == 223);
    }
}

proof fn lemma_round_trip_224_255()
    ensures
        forall|i: int| 224 <= i < 256 ==> round_trip_ok(i),
{
    assert(round_trip_ok(224) && round_trip_ok(225) && round_trip_ok(226) &&
        round_trip_ok(227) && round_trip_ok(228) && round_trip_ok(229) && round_trip_ok(230) &&
        round_trip_ok(231) && round_trip_ok(232) && round_trip_ok(233) && round_trip_ok(234) &&
        round_trip_ok(235) && round_trip_ok(236) && round_trip_ok(237) && round_trip_ok(238) &&
        round_trip_ok(239) && round_trip_ok(240) && round_trip_ok(241) && round_trip_ok(242) &&
        round_trip_ok(243) && round_trip_ok(244) && round_trip_ok(245) && round_trip_ok(246) &&
        round_trip_ok(247) && round_trip_ok(248) && round_trip_ok(249) && round_trip_ok(250) &&
        round_trip_ok(251) && round_trip_ok(252) && round_trip_ok(253) && round_trip_ok(254) &&
        round_trip_ok(255)) by {
        reveal(round_trip_ok);
        assert(ENCODE_SRGB_U8@[224] == 0xF1 && DECODE_SRGB_U8@[0xF1] == 0xE0);
        assert(ENCODE_SRGB_U8@[225] == 0xF1 && DECODE_SRGB_U8@[0xF1] == 0xE0);
        assert(ENCODE_SRGB_U8@[226] == 0xF2 && DECODE_SRGB_U8@[0xF2] == 0xE2);
        assert(ENCODE_SRGB_U8@[227] == 0xF2 && DECODE_SRGB_U8@[0xF2] == 0xE2);
        assert(ENCODE_SRGB_U8@[228] == 0xF3 && DECODE_SRGB_U8@[0xF3] == 0xE5);
        assert(ENCODE_SRGB_U8@[229] == 0xF3 && DECODE_SRGB_U8@[0xF3] == 0xE5);
        assert(ENCODE_SRGB_U8@[230] == 0xF4 && DECODE_SRGB_U8@[0xF4] == 0xE7);
        assert(ENCODE_SRGB_U8@[231] == 0xF4 && DECODE_SRGB_U8@[0xF4] == 0xE7);
        assert(ENCODE_SRGB_U8@[232] == 0xF5 && DECODE_SRGB_U8@[0xF5] == 0xE9);
        assert(ENCODE_SRGB_U8@[233] == 0xF5 && DECODE_SRGB_U8@[0xF5] == 0xE9);
        assert(ENCODE_SRGB_U8@[234] == 0xF6 && DECODE_SRGB_U8@[0xF6] == 0xEB);
        assert(ENCODE_SRGB_U8@[235] == 0xF6 && DECODE_SRGB_U8@[0xF6] == 0xEB);
        assert(ENCODE_SRGB_U8@[236] == 0xF6 && DECODE_SRGB_U8@[0xF6] == 0xEB);
        assert(ENCODE_SRGB_U8@[237] == 0xF7 && DECODE_SRGB_U8@[0xF7] == 0xED);
        assert(ENCODE_SRGB_U8@[238] == 0xF7 && DECODE_SRGB_U8@[0xF7] == 0xED);
        assert(ENCODE_SRGB_U8@[239] == 0xF8 && DECODE_SRGB_U8@[0xF8] == 0xEF);
        assert(ENCODE_SRGB_U8@[240] == 0xF8 && DECODE_SRGB_U8@[0xF8] == 0xEF);
        assert(ENCODE_SRGB_U8@[241] == 0xF9 && DECODE_SRGB_U8@[0xF9] == 0xF2);
        assert(ENCODE_SRGB_U8@[242] == 0xF9 && DECODE_SRGB_U8@[0xF9] == 0xF2);
        assert(ENCODE_SRGB_U8@[243] == 0xFA && DECODE_SRGB_U8@[0xFA] == 0xF4);
        assert(ENCODE_SRGB_U8@[244] == 0xFA && DECODE_SRGB_U8@[0xFA] == 0xF4);
        assert(ENCODE_SRGB_U8@[245] == 0xFB && DECODE_SRGB_U8@[0xFB] == 0xF6);
        assert(ENCODE_SRGB_U8@[246] == 0xFB && DECODE_SRGB_U8@[0xFB] == 0xF6);
        assert(ENCODE_SRGB_U8@[247] == 0xFB && DECODE_SRGB_U8@[0xFB] == 0xF6);
        assert(ENCODE_SRGB_U8@[248] == 0xFC && DECODE_SRGB_U8@[0xFC] == 0xF8);
        assert(ENCODE_SRGB_U8@[249] == 0xFC && DECODE_SRGB_U8@[0xFC] == 0xF8);
        assert(ENCODE_SRGB_U8@[250] == 0xFD && DECODE_SRGB_U8@[0xFD] == 0xFA);
        assert(ENCODE_SRGB_U8@[251] == 0xFD && DECODE_SRGB_U8@[0xFD] == 0xFA);
        assert(ENCODE_SRGB_U8@[252] == 0xFE && DECODE_SRGB_U8@[0xFE] == 0xFD);
        assert(ENCODE_SRGB_U8@[253] == 0xFE && DECODE_SRGB_U8@[0xFE] == 0xFD);
        assert(ENCODE_SRGB_U8@[254] == 0xFF && DECODE_SRGB_U8@[0xFF] == 0xFF);
        assert(ENCODE_SRGB_U8@[255] == 0xFF && DECODE_SRGB_U8@[0xFF] == 0xFF);
    }
    assert forall|i: int| 224 <= i < 256 implies round_trip_ok(i) by {
        assert(i == 224 || i == 225 || i == 226 || i == 227 || i == 228 || i == 229 ||
            i == 230 || i == 231 || i == 232 || i == 233 || i == 234 || i == 235 || i == 236 ||
            i == 237 || i == 238 || i == 239 || i == 240 || i == 241 || i == 242 || i == 243 ||
            i == 244 || i == 245 || i == 246 || i == 247 || i == 248 || i == 249 || i == 250 ||
            i == 251 || i == 252 || i == 253 || i == 254 || i == 255);
    }
}

/// Decoding an encoded 8-bit value gives back the value within one level:
/// checked for all 256 values.
pub proof fn lemma_round_trip_table()
    ensures
        forall|i: int|
            0 <= i < 256 ==> i - 1 <= DECODE_SRGB_U8@[#[trigger] ENCODE_SRGB_U8@[i] as int] <= i + 1,
{
    lemma_round_trip_0_31();
    lemma_round_trip_32_63();
    lemma_round_trip_64_95();
    lemma_round_trip_96_127();
    lemma_round_trip_128_159();
    lemma_round_trip_160_191();
    lemma_round_trip_192_223();
    lemma_round_trip_224_255();
    assert forall|i: int|
        0 <= i < 256 implies i - 1 <= DECODE_SRGB_U8@[#[trigger] ENCODE_SRGB_U8@[i] as int] <= i + 1 by {
        assert(round_trip_ok(i));
        reveal(round_trip_ok);
    }
}

} // verus!
