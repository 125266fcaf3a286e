//! Alpha representations: opaque (coverage implicitly full) or translucent
//! (coverage stored as a channel value).
use vstd::prelude::*;
use core::marker::PhantomData;
use crate::channel::Channel;

verus! {

/// Coverage of a pixel, over channel type `C`.
pub trait Alpha<C: Channel>: Copy + Sized {
    /// Whether coverage is implicit, that is always full.
    spec fn implicit() -> bool;

    /// The coverage level, between zero and `C::top()`.
    spec fn level(&self) -> int;

    /// Implicit coverage is full, and coverage lies in the channel's range.
    proof fn lemma_level(&self)
        ensures
            Self::implicit() ==> self.level() == C::top(),
            0 <= self.level() <= C::top(),
    ;

    /// The coverage as a channel value.
    fn value(self) -> (r: C)
        ensures
            r.level() == self.level(),
    ;

    /// The coverage taken from a channel value: its level where coverage is
    /// stored, full where it is implicit (the value is then dropped).
    fn from_channel(c: C) -> (r: Self)
        ensures
            r.level() == (if Self::implicit() {
                C::top()
            } else {
                c.level()
            }),
    ;
}

/// Opaque alpha: coverage is always full and nothing is stored.
#[derive(Debug, Default, PartialEq, Eq)]
pub struct Opaque<C> {
    value: PhantomData<C>,
}

/// Translucent alpha: coverage is stored as a channel value.
#[derive(Copy, Debug, Default, PartialEq, Eq)]
pub struct Translucent<C> {
    value: C,
}

impl<C> Clone for Opaque<C> {
    fn clone(&self) -> (r: Self)
        ensures
            r == *self,
    {
        Opaque { value: PhantomData }
    }
}

impl<C> Copy for Opaque<C> {
}

impl<C: Copy> Clone for Translucent<C> {
    fn clone(&self) -> (r: Self)
        ensures
            r == *self,
    {
        *self
    }
}

impl<C: Channel> Opaque<C> {
    /// The opaque alpha value.
    pub fn new() -> (r: Opaque<C>)
        ensures
            r.level() == C::top(),
    {
        Opaque { value: PhantomData }
    }
}

impl<C: Channel> Translucent<C> {
    /// A translucent alpha value holding `value`.
    pub fn new(value: C) -> (r: Translucent<C>)
        ensures
            r.level() == value.level(),
    {
        Translucent { value }
    }
}

impl<C: Channel> Alpha<C> for Opaque<C> {
    open spec fn implicit() -> bool {
        true
    }

    open spec fn level(&self) -> int {
        C::top()
    }

    proof fn lemma_level(&self) {
        C::lemma_top();
    }

    fn value(self) -> (r: C) {
        C::max_value()
    }

    fn from_channel(c: C) -> (r: Self) {
        Opaque { value: PhantomData }
    }
}

impl<C: Channel> Alpha<C> for Translucent<C> {
    open spec fn implicit() -> bool {
        false
    }

    closed spec fn level(&self) -> int {
        self.value.level()
    }

    proof fn lemma_level(&self) {
        self.value.lemma_level();
    }

    fn value(self) -> (r: C) {
        self.value
    }

    fn from_channel(c: C) -> (r: Self) {
        Translucent { value: c }
    }
}

} // verus!
