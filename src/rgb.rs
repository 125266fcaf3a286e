//! RGB pixel format, generic over channel depth and alpha representation.
use vstd::prelude::*;
use crate::alpha::{Alpha, Opaque, Translucent};
use crate::channel::{convert, lemma_rescale_range, lemma_rescale_same, rescale, Ch16, Ch8, Channel};

verus! {

/// The levels of a pixel's four components.
pub struct Levels {
    pub red: int,
    pub green: int,
    pub blue: int,
    pub alpha: int,
}

/// The levels after a conversion from channel top `from` to channel top `to`:
/// each color level is rescaled, and so is alpha unless the target's coverage
/// is implicit, in which case it is full.
pub open spec fn convert_levels(p: Levels, from: int, to: int, implicit: bool) -> Levels {
    Levels {
        red: rescale(p.red, from, to),
        green: rescale(p.green, from, to),
        blue: rescale(p.blue, from, to),
        alpha: if implicit {
            to
        } else {
            rescale(p.alpha, from, to)
        },
    }
}

/// The 32-bit word of four 8-bit levels: red in the lowest byte, then green,
/// blue, and alpha in the highest byte.
pub open spec fn pack_word(red: int, green: int, blue: int, alpha: int) -> int {
    red + 256 * green + 65536 * blue + 16777216 * alpha
}

/// A 32-bit word read as a two's complement signed integer.
pub open spec fn as_signed(w: int) -> int {
    if w < 0x8000_0000 {
        w
    } else {
        w - 0x1_0000_0000
    }
}

/// The packed integer of a pixel with levels `p` over channel top `top`:
/// each component is first rescaled to 8 bits.
pub open spec fn packed(p: Levels, top: int) -> int {
    as_signed(
        pack_word(
            rescale(p.red, top, 255),
            rescale(p.green, top, 255),
            rescale(p.blue, top, 255),
            rescale(p.alpha, top, 255),
        ),
    )
}

/// RGB pixel format, with optional alpha channel.
///
/// The channels are *red*, *green* and *blue*.
#[derive(Copy, Debug, Default, PartialEq)]
pub struct Rgb<C, A> {
    red: C,
    green: C,
    blue: C,
    alpha: A,
}

impl<C: Copy, A: Copy> Clone for Rgb<C, A> {
    fn clone(&self) -> (r: Self)
        ensures
            r == *self,
    {
        *self
    }
}

impl<C: Channel, A: Alpha<C>> Rgb<C, A> {
    /// The red channel.
    pub closed spec fn spec_red(&self) -> C {
        self.red
    }

    /// The green channel.
    pub closed spec fn spec_green(&self) -> C {
        self.green
    }

    /// The blue channel.
    pub closed spec fn spec_blue(&self) -> C {
        self.blue
    }

    /// The alpha value.
    pub closed spec fn spec_alpha(&self) -> A {
        self.alpha
    }

    /// The levels of the four components.
    pub open spec fn levels(&self) -> Levels {
        Levels {
            red: self.spec_red().level(),
            green: self.spec_green().level(),
            blue: self.spec_blue().level(),
            alpha: self.spec_alpha().level(),
        }
    }

    /// Build a color by specifying red, green and blue values, each converted
    /// to this pixel's channel type. Alpha is full.
    pub fn new<H: Channel>(red: H, green: H, blue: H) -> (r: Self)
        ensures
            r.levels() == (Levels {
                red: rescale(red.level(), H::top(), C::top()),
                green: rescale(green.level(), H::top(), C::top()),
                blue: rescale(blue.level(), H::top(), C::top()),
                alpha: C::top(),
            }),
    {
        let red = convert(red);
        let green = convert(green);
        let blue = convert(blue);
        let alpha = A::from_channel(C::max_value());
        Rgb { red, green, blue, alpha }
    }

    /// Create a color by specifying red, green, blue and alpha values, each
    /// converted to this pixel's channel type. Where alpha is opaque, the
    /// given alpha value is dropped.
    pub fn with_alpha<H: Channel, B: Channel>(red: H, green: H, blue: H, alpha: B) -> (r: Self)
        ensures
            r.levels() == (Levels {
                red: rescale(red.level(), H::top(), C::top()),
                green: rescale(green.level(), H::top(), C::top()),
                blue: rescale(blue.level(), H::top(), C::top()),
                alpha: if A::implicit() {
                    C::top()
                } else {
                    rescale(alpha.level(), B::top(), C::top())
                },
            }),
    {
        let red = convert(red);
        let green = convert(green);
        let blue = convert(blue);
        let alpha = A::from_channel(convert(alpha));
        Rgb { red, green, blue, alpha }
    }

    /// Get the red channel.
    pub fn red(self) -> (r: C)
        ensures
            r == self.spec_red(),
    {
        self.red
    }

    /// Get the green channel.
    pub fn green(self) -> (r: C)
        ensures
            r == self.spec_green(),
    {
        self.green
    }

    /// Get the blue channel.
    pub fn blue(self) -> (r: C)
        ensures
            r == self.spec_blue(),
    {
        self.blue
    }

    /// Get the alpha channel.
    pub fn alpha(self) -> (r: A)
        ensures
            r == self.spec_alpha(),
    {
        self.alpha
    }

    /// Convert to another channel type and alpha representation. Each
    /// component is converted on its own; opaque to translucent gives full
    /// alpha, and translucent to opaque drops the stored alpha.
    pub fn convert<D: Channel, B: Alpha<D>>(self) -> (r: Rgb<D, B>)
        ensures
            r.levels() == convert_levels(self.levels(), C::top(), D::top(), B::implicit()),
    {
        let red = convert(self.red);
        let green = convert(self.green);
        let blue = convert(self.blue);
        let alpha = B::from_channel(convert(self.alpha.value()));
        Rgb { red, green, blue, alpha }
    }

    /// The pixel packed into a 32-bit integer: red in the lowest byte, then
    /// green, blue, and alpha in the highest byte, each converted to 8 bits.
    pub fn to_packed(self) -> (r: i32)
        ensures
            r == packed(self.levels(), C::top()),
    {
        let red: u8 = convert(self.red);
        let green: u8 = convert(self.green);
        let blue: u8 = convert(self.blue);
        let alpha: u8 = convert(self.alpha.value());
        let w: u32 = red as u32 + 256 * green as u32 + 65536 * blue as u32 + 16777216 * alpha as u32;
        if w < 0x8000_0000 {
            w as i32
        } else {
            ((w - 0x8000_0000) as i32) - 0x7FFF_FFFF - 1
        }
    }
}

impl<C: Channel, A: Alpha<C>> From<Rgb<C, A>> for i32 {
    /// Get an i32 from an Rgb
    fn from(c: Rgb<C, A>) -> (r: i32) {
        c.to_packed()
    }
}

impl<C: Channel, A: Alpha<C>> vstd::std_specs::convert::FromSpecImpl<Rgb<C, A>> for i32 {
    open spec fn obeys_from_spec() -> bool {
        true
    }

    open spec fn from_spec(c: Rgb<C, A>) -> i32 {
        packed(c.levels(), C::top()) as i32
    }
}

/// A pixel's levels lie in its channel's range, with full alpha where
/// coverage is implicit.
pub proof fn lemma_levels_in_range<C: Channel, A: Alpha<C>>(p: Rgb<C, A>)
    ensures
        0 <= p.levels().red <= C::top(),
        0 <= p.levels().green <= C::top(),
        0 <= p.levels().blue <= C::top(),
        0 <= p.levels().alpha <= C::top(),
        A::implicit() ==> p.levels().alpha == C::top(),
{
    p.spec_red().lemma_level();
    p.spec_green().lemma_level();
    p.spec_blue().lemma_level();
    p.spec_alpha().lemma_level();
}

/// Opaque to translucent synthesizes full alpha, and translucent back to
/// opaque returns the original color levels with alpha full.
pub proof fn lemma_alpha_round_trip<C: Channel>(p: Rgb<C, Opaque<C>>)
    ensures
        convert_levels(p.levels(), C::top(), C::top(), Translucent::<C>::implicit()).alpha
            == C::top(),
        convert_levels(
            convert_levels(p.levels(), C::top(), C::top(), Translucent::<C>::implicit()),
            C::top(),
            C::top(),
            Opaque::<C>::implicit(),
        ) == p.levels(),
{
    C::lemma_top();
    lemma_levels_in_range(p);
    let l = p.levels();
    lemma_rescale_same(l.red, C::top());
    lemma_rescale_same(l.green, C::top());
    lemma_rescale_same(l.blue, C::top());
    lemma_rescale_same(l.alpha, C::top());
}

/// Changing channel depth and changing alpha representation commute: from
/// `p`, a conversion to depth `D` whose target coverage is implicit exactly
/// when `implicit` holds gives the same levels whether the alpha change comes
/// first (at the source depth) or last (at the target depth).
pub proof fn lemma_convert_commutes<C: Channel, A: Alpha<C>, D: Channel>(
    p: Rgb<C, A>,
    implicit: bool,
)
    ensures
        convert_levels(
            convert_levels(p.levels(), C::top(), C::top(), implicit),
            C::top(),
            D::top(),
            implicit,
        ) == convert_levels(p.levels(), C::top(), D::top(), implicit),
        convert_levels(
            convert_levels(p.levels(), C::top(), D::top(), A::implicit()),
            D::top(),
            D::top(),
            implicit,
        ) == convert_levels(p.levels(), C::top(), D::top(), implicit),
{
    C::lemma_top();
    D::lemma_top();
    lemma_levels_in_range(p);
    let l = p.levels();
    let (c, d) = (C::top(), D::top());
    lemma_rescale_same(l.red, c);
    lemma_rescale_same(l.green, c);
    lemma_rescale_same(l.blue, c);
    lemma_rescale_same(l.alpha, c);
    lemma_rescale_same(c, c);
    lemma_rescale_range(l.red, c, d);
    lemma_rescale_range(l.green, c, d);
    lemma_rescale_range(l.blue, c, d);
    lemma_rescale_range(l.alpha, c, d);
    lemma_rescale_same(rescale(l.red, c, d), d);
    lemma_rescale_same(rescale(l.green, c, d), d);
    lemma_rescale_same(rescale(l.blue, c, d), d);
    lemma_rescale_same(rescale(l.alpha, c, d), d);
    lemma_rescale_same(d, d);
}

/// Opaque 8-bit RGB pixel format.
pub type Rgb8 = Rgb<Ch8, Opaque<Ch8>>;

/// Opaque 16-bit RGB pixel format.
pub type Rgb16 = Rgb<Ch16, Opaque<Ch16>>;

/// Translucent 8-bit RGB pixel format.
pub type Rgba8 = Rgb<Ch8, Translucent<Ch8>>;

/// Translucent 16-bit RGB pixel format.
pub type Rgba16 = Rgb<Ch16, Translucent<Ch16>>;

} // verus!
