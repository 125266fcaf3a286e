//! Gamma encoding and decoding of channel values, and the gamma modes that
//! tag how stored values relate to linear light.
use vstd::prelude::*;
use crate::channel::{Ch8, Channel};
use crate::srgb::{
    is_srgb_decode_u8, is_srgb_encode_u8, lemma_decode_table_exact, lemma_encode_table_exact,
    lemma_round_trip_table, rounds_to, DECODE_SRGB_U8, ENCODE_SRGB_U8,
};

verus! {

/// Encode and decode the sRGB gamma curve.
pub trait Gamma: Sized {
    /// The sRGB-encoded counterpart of a linear intensity.
    spec fn spec_encode_srgb(self) -> Self;

    /// The linear intensity of an sRGB-encoded value.
    spec fn spec_decode_srgb(self) -> Self;

    /// Encode an sRGB gamma value from linear intensity.
    fn encode_srgb(self) -> (r: Self)
        ensures
            r == self.spec_encode_srgb(),
    ;

    /// Decode an sRGB gamma value into linear intensity.
    fn decode_srgb(self) -> (r: Self)
        ensures
            r == self.spec_decode_srgb(),
    ;
}

impl Gamma for u8 {
    open spec fn spec_encode_srgb(self) -> u8 {
        ENCODE_SRGB_U8@[self as int]
    }

    open spec fn spec_decode_srgb(self) -> u8 {
        DECODE_SRGB_U8@[self as int]
    }

    /// Looks the value up in the encode table, which holds the curve rounded
    /// to 8 bits.
    fn encode_srgb(self) -> (r: u8)
        ensures
            is_srgb_encode_u8(self as int, r as int),
    {
        proof {
            lemma_encode_table_exact();
        }
        ENCODE_SRGB_U8[self as usize]
    }

    /// Looks the value up in the decode table, which holds the curve rounded
    /// to 8 bits.
    fn decode_srgb(self) -> (r: u8)
        ensures
            is_srgb_decode_u8(self as int, r as int),
    {
        proof {
            lemma_decode_table_exact();
        }
        DECODE_SRGB_U8[self as usize]
    }
}

impl Gamma for Ch8 {
    closed spec fn spec_encode_srgb(self) -> Ch8 {
        Ch8::spec_new(ENCODE_SRGB_U8@[self.level()])
    }

    closed spec fn spec_decode_srgb(self) -> Ch8 {
        Ch8::spec_new(DECODE_SRGB_U8@[self.level()])
    }

    fn encode_srgb(self) -> (r: Ch8)
        ensures
            r.level() == ENCODE_SRGB_U8@[self.level()],
            is_srgb_encode_u8(self.level(), r.level()),
    {
        Ch8::new(self.value().encode_srgb())
    }

    fn decode_srgb(self) -> (r: Ch8)
        ensures
            r.level() == DECODE_SRGB_U8@[self.level()],
            is_srgb_decode_u8(self.level(), r.level()),
    {
        Ch8::new(self.value().decode_srgb())
    }
}

/// Both 8-bit curves keep black and full intensity, and below each curve's
/// linear-segment breakpoint the result is the linear scale factor applied
/// exactly, then rounded.
pub proof fn lemma_srgb_u8_boundaries()
    ensures
        0u8.spec_encode_srgb() == 0,
        255u8.spec_encode_srgb() == 255,
        0u8.spec_decode_srgb() == 0,
        255u8.spec_decode_srgb() == 255,
        forall|x: u8|
            x * 10_000_000 < 31308 * 255 ==> rounds_to(
                #[trigger] x.spec_encode_srgb() as int,
                1292 * x,
                100,
            ),
        forall|x: u8|
            x * 100_000 < 4045 * 255 ==> rounds_to(
                #[trigger] x.spec_decode_srgb() as int,
                100 * x,
                1292,
            ),
{
    assert forall|x: u8| x * 10_000_000 < 31308 * 255 implies rounds_to(
        #[trigger] x.spec_encode_srgb() as int,
        1292 * x,
        100,
    ) by {
        assert(x == 0);
    }
    assert forall|x: u8| x * 100_000 < 4045 * 255 implies rounds_to(
        #[trigger] x.spec_decode_srgb() as int,
        100 * x,
        1292,
    ) by {
        assert(x == 0 || x == 1 || x == 2 || x == 3 || x == 4 || x == 5 || x == 6 || x == 7
            || x == 8 || x == 9 || x == 10);
    }
}

/// Decoding an encoded 8-bit value recovers it within one level.
pub proof fn lemma_srgb_u8_round_trip(x: u8)
    ensures
        x - 1 <= x.spec_encode_srgb().spec_decode_srgb() <= x + 1,
{
    lemma_round_trip_table();
    assert(0 <= x < 256);
}

/// Encode one value with the sRGB curve.
pub fn encode_srgb<C: Gamma>(c: C) -> (r: C)
    ensures
        r == c.spec_encode_srgb(),
{
    c.encode_srgb()
}

/// Decode one value with the sRGB curve.
pub fn decode_srgb<C: Gamma>(c: C) -> (r: C)
    ensures
        r == c.spec_decode_srgb(),
{
    c.decode_srgb()
}

/// Identity of a gamma mode, comparable across unrelated mode types.
#[derive(Clone, Copy, Debug, PartialEq, Eq, Structural)]
pub enum GammaModeID {
    /// No gamma correction applied
    Linear,
    /// Gamma correction using the sRGB formula
    Srgb,
    /// Gamma correction with a given exponent, held as the bit pattern of an
    /// IEEE 754 single-precision number
    PowerLaw(u32),
    /// Unknown gamma
    UnknownGamma,
}

/// A type that names a gamma mode by its identity.
pub trait GammaTag: Copy {
    /// The mode's identity.
    spec fn spec_id() -> GammaModeID;

    /// The mode's identity.
    fn id() -> (r: GammaModeID)
        ensures
            r == Self::spec_id(),
    ;
}

/// How the values stored under a mode relate to linear light.
///
/// `encode::<C, G>` takes a value from mode `G` into this mode, and
/// `decode::<C, G>` takes a value of this mode back for mode `G`; a conversion
/// is skipped where the two modes already agree.
pub trait GammaMode: GammaTag {
    /// Encode one value using the gamma mode.
    fn encode<C: Gamma, G: GammaTag>(c: C) -> C;

    /// Decode one value using the gamma mode.
    fn decode<C: Gamma, G: GammaTag>(c: C) -> C;
}

/// No gamma correction applied
#[derive(Clone, Copy, Debug, Default, PartialEq, Eq, Structural)]
pub struct Linear;

/// Gamma correction using the sRGB formula
#[derive(Clone, Copy, Debug, Default, PartialEq, Eq, Structural)]
pub struct Srgb;

impl GammaTag for Linear {
    open spec fn spec_id() -> GammaModeID {
        GammaModeID::Linear
    }

    fn id() -> (r: GammaModeID) {
        GammaModeID::Linear
    }
}

impl GammaMode for Linear {
    /// Linear values need no encoding.
    fn encode<C: Gamma, G: GammaTag>(c: C) -> (r: C)
        ensures
            r == c,
    {
        c
    }

    /// Linear values need no decoding.
    fn decode<C: Gamma, G: GammaTag>(c: C) -> (r: C)
        ensures
            r == c,
    {
        c
    }
}

impl GammaTag for Srgb {
    open spec fn spec_id() -> GammaModeID {
        GammaModeID::Srgb
    }

    fn id() -> (r: GammaModeID) {
        GammaModeID::Srgb
    }
}

impl GammaMode for Srgb {
    /// Applies the sRGB encode curve, unless `G` is sRGB already or unknown.
    fn encode<C: Gamma, G: GammaTag>(c: C) -> (r: C)
        ensures
            r == (if G::spec_id() != GammaModeID::Srgb && G::spec_id()
                != GammaModeID::UnknownGamma {
                c.spec_encode_srgb()
            } else {
                c
            }),
    {
        let g = G::id();
        if g != GammaModeID::Srgb && g != GammaModeID::UnknownGamma {
            encode_srgb(c)
        } else {
            c
        }
    }

    /// Applies the sRGB decode curve, unless `G` is sRGB already.
    fn decode<C: Gamma, G: GammaTag>(c: C) -> (r: C)
        ensures
            r == (if G::spec_id() != GammaModeID::Srgb {
                c.spec_decode_srgb()
            } else {
                c
            }),
    {
        if G::id() != GammaModeID::Srgb {
            decode_srgb(c)
        } else {
            c
        }
    }
}

} // verus!
