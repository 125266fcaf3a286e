//! Channel values: one component of a pixel at a fixed bit depth.
//!
//! A channel holds a *level* between zero and its representation's top
//! level. Converting between depths keeps the fraction `level / top`, rounded
//! to the nearest level of the target.
use vstd::prelude::*;

verus! {

/// `v / from`, expressed over `to` instead, rounded to the nearest integer
/// (halves round up). Requires `from > 0`.
pub open spec fn rescale(v: int, from: int, to: int) -> int {
    (2 * v * to + from) / (2 * from)
}

/// A channel numeric representation.
///
/// Conversions between representations go through a 16-bit pivot, which can
/// hold any supported level exactly.
pub trait Channel: Copy + Sized {
    /// The largest level of this representation (its full intensity).
    spec fn top() -> int;

    /// The level held, between zero and `top()`.
    spec fn level(&self) -> int;

    /// The supported depths are 8 and 16 bits.
    proof fn lemma_top()
        ensures
            Self::top() == 255 || Self::top() == 65535,
    ;

    /// A level always lies in the representation's range.
    proof fn lemma_level(&self)
        ensures
            0 <= self.level() <= Self::top(),
    ;

    /// The value at full intensity.
    fn max_value() -> (r: Self)
        ensures
            r.level() == Self::top(),
    ;

    /// The level, rescaled to 16 bits.
    fn to_wide(self) -> (r: u16)
        ensures
            r == rescale(self.level(), Self::top(), 65535),
    ;

    /// The value whose level is `w`, rescaled from 16 bits.
    fn from_wide(w: u16) -> (r: Self)
        ensures
            r.level() == rescale(w as int, 65535, Self::top()),
    ;
}

/// 8-bit channel value.
#[derive(Clone, Copy, Debug, Default, PartialEq, Eq, Structural)]
pub struct Ch8(u8);

/// 16-bit channel value.
#[derive(Clone, Copy, Debug, Default, PartialEq, Eq, Structural)]
pub struct Ch16(u16);

impl Ch8 {
    /// The 8-bit channel value of `value`.
    pub closed spec fn spec_new(value: u8) -> Ch8 {
        Ch8(value)
    }

    /// Make an 8-bit channel value.
    pub fn new(value: u8) -> (r: Ch8)
        ensures
            r == Ch8::spec_new(value),
            r.level() == value,
    {
        Ch8(value)
    }

    /// The raw 8-bit value.
    pub fn value(self) -> (r: u8)
        ensures
            r == self.level(),
    {
        self.0
    }
}

impl Ch16 {
    /// Make a 16-bit channel value.
    pub fn new(value: u16) -> (r: Ch16)
        ensures
            r.level() == value,
    {
        Ch16(value)
    }

    /// The raw 16-bit value.
    pub fn value(self) -> (r: u16)
        ensures
            r == self.level(),
    {
        self.0
    }
}

/// 8-bit levels widen exactly: `v * 65535 / 255 == v * 257`.
proof fn lemma_widen_u8(v: int)
    requires
        0 <= v <= 255,
    ensures
        rescale(v, 255, 65535) == 257 * v,
{
    assert((2 * v * 65535 + 255) / 510int == 257 * v) by (nonlinear_arith)
        requires
            0 <= v <= 255,
    ;
}

/// Narrowing to 8 bits in exec arithmetic.
proof fn lemma_narrow_u8(w: int)
    requires
        0 <= w <= 65535,
    ensures
        rescale(w, 65535, 255) == (510 * w + 65535) / 131070,
        0 <= rescale(w, 65535, 255) <= 255,
{
    assert(2 * w * 255 + 65535 == 510 * w + 65535) by (nonlinear_arith);
}

/// Rescaling onto the same top is the identity.
pub proof fn lemma_rescale_same(v: int, top: int)
    requires
        0 <= v,
        top > 0,
    ensures
        rescale(v, top, top) == v,
{
    assert((2 * v * top + top) / (2 * top) == v) by (nonlinear_arith)
        requires
            0 <= v,
            top > 0,
    {
        assert(2 * v * top + top == v * (2 * top) + top);
        vstd::arithmetic::div_mod::lemma_fundamental_div_mod_converse(
            2 * v * top + top,
            2 * top,
            v,
            top,
        );
    }
}

impl Channel for u8 {
    open spec fn top() -> int {
        255
    }

    open spec fn level(&self) -> int {
        *self as int
    }

    proof fn lemma_top() {
    }

    proof fn lemma_level(&self) {
    }

    fn max_value() -> (r: Self) {
        255
    }

    fn to_wide(self) -> (r: u16) {
        proof {
            lemma_widen_u8(self as int);
        }
        self as u16 * 257
    }

    fn from_wide(w: u16) -> (r: Self) {
        proof {
            lemma_narrow_u8(w as int);
        }
        ((510 * w as u32 + 65535) / 131070) as u8
    }
}

impl Channel for u16 {
    open spec fn top() -> int {
        65535
    }

    open spec fn level(&self) -> int {
        *self as int
    }

    proof fn lemma_top() {
    }

    proof fn lemma_level(&self) {
    }

    fn max_value() -> (r: Self) {
        65535
    }

    fn to_wide(self) -> (r: u16) {
        proof {
            lemma_rescale_same(self as int, 65535);
        }
        self
    }

    fn from_wide(w: u16) -> (r: Self) {
        proof {
            lemma_rescale_same(w as int, 65535);
        }
        w
    }
}

impl Channel for Ch8 {
    open spec fn top() -> int {
        255
    }

    closed spec fn level(&self) -> int {
        self.0 as int
    }

    proof fn lemma_top() {
    }

    proof fn lemma_level(&self) {
    }

    fn max_value() -> (r: Self) {
        Ch8(255)
    }

    fn to_wide(self) -> (r: u16) {
        self.0.to_wide()
    }

    fn from_wide(w: u16) -> (r: Self) {
        Ch8(u8::from_wide(w))
    }
}

impl Channel for Ch16 {
    open spec fn top() -> int {
        65535
    }

    closed spec fn level(&self) -> int {
        self.0 as int
    }

    proof fn lemma_top() {
    }

    proof fn lemma_level(&self) {
    }

    fn max_value() -> (r: Self) {
        Ch16(65535)
    }

    fn to_wide(self) -> (r: u16) {
        self.0.to_wide()
    }

    fn from_wide(w: u16) -> (r: Self) {
        Ch16(u16::from_wide(w))
    }
}

/// Rescaling between supported depths stays in the target's range and takes
/// full intensity to full intensity.
pub proof fn lemma_rescale_range(v: int, from: int, to: int)
    requires
        from == 255 || from == 65535,
        to == 255 || to == 65535,
        0 <= v <= from,
    ensures
        0 <= rescale(v, from, to) <= to,
        rescale(from, from, to) == to,
{
    lemma_pivot(v, from, to);
    lemma_pivot(from, from, to);
    if from == 255 {
        lemma_widen_u8(255);
        if to == 255 {
            lemma_rescale_same(255, 255);
        }
    } else {
        lemma_rescale_same(65535, 65535);
        if to == 255 {
            lemma_narrow_u8(65535);
        }
    }
}

/// Depth conversion keeps black at zero and preserves order.
pub proof fn lemma_rescale_monotonic(v1: int, v2: int, from: int, to: int)
    requires
        from > 0,
        to >= 0,
        0 <= v1 <= v2,
    ensures
        rescale(0, from, to) == 0,
        rescale(v1, from, to) <= rescale(v2, from, to),
{
    assert(2 * v1 * to + from <= 2 * v2 * to + from) by (nonlinear_arith)
        requires
            to >= 0,
            v1 <= v2,
    ;
    vstd::arithmetic::div_mod::lemma_div_is_ordered(
        2 * v1 * to + from,
        2 * v2 * to + from,
        2 * from,
    );
    assert(0int * to == 0);
    vstd::arithmetic::div_mod::lemma_basic_div(from, 2 * from);
}

/// Going through the 16-bit pivot is the same as rescaling directly.
proof fn lemma_pivot(v: int, from: int, to: int)
    requires
        from == 255 || from == 65535,
        to == 255 || to == 65535,
        0 <= v <= from,
    ensures
        rescale(rescale(v, from, 65535), 65535, to) == rescale(v, from, to),
        0 <= rescale(v, from, to) <= to,
{
    if from == 255 {
        lemma_widen_u8(v);
        lemma_rescale_same(v, 255);
        if to == 255 {
            assert(rescale(257 * v, 65535, 255) == v) by (nonlinear_arith)
                requires
                    0 <= v <= 255,
            ;
        } else {
            lemma_rescale_same(257 * v, 65535);
        }
    } else {
        lemma_rescale_same(v, 65535);
        if to == 255 {
            lemma_narrow_u8(v);
        }
    }
}

/// Convert a channel value to another representation, keeping its fraction of
/// full intensity (rounded to the nearest level of the target).
pub fn convert<H: Channel, C: Channel>(h: H) -> (r: C)
    ensures
        r.level() == rescale(h.level(), H::top(), C::top()),
{
    proof {
        H::lemma_top();
        C::lemma_top();
        h.lemma_level();
        lemma_pivot(h.level(), H::top(), C::top());
    }
    C::from_wide(h.to_wide())
}

} // verus!
