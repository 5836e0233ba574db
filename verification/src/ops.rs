//! Ergonomic composition operators: method-call syntax for `Compose::of`
//! and `Invert::of`, and the identity accessor in function form.
use vstd::prelude::*;

use crate::{Compose, Identity, Invert, Lenticuloid};

verus! {

/// The identity lenticuloid (function form).
pub fn identity<S, T>() -> (r: Identity<S, T>)
    ensures
        r == Identity::<S, T>::spec_mk(),
{
    Identity::mk()
}

/// Extension trait for lenticuloid composition in categorical order:
/// `this.compose(other)` applies `other` first on reads.
pub trait ComposeExt<Other>: Lenticuloid where
    Other: Lenticuloid<InitialTarget = Self::InitialSource, FinalTarget = Self::FinalSource>,
 {
    fn compose(self, other: Other) -> (r: Compose<Self, Other>)
        ensures
            r == Compose::spec_of(self, other),
    ;
}

impl<This, Other> ComposeExt<Other> for This where
    This: Lenticuloid,
    Other: Lenticuloid<InitialTarget = This::InitialSource, FinalTarget = This::FinalSource>,
 {
    fn compose(self, other: Other) -> Compose<This, Other> {
        Compose::of(self, other)
    }
}

/// Extension trait for lenticuloid composition in intuitive order:
/// `this.and_then(other)` applies `this` first on reads.
pub trait AndThenExt<Other: Lenticuloid>: Lenticuloid<
    InitialTarget = Other::InitialSource,
    FinalTarget = Other::FinalSource,
> {
    fn and_then(self, other: Other) -> (r: Compose<Other, Self>)
        ensures
            r == Compose::spec_of(other, self),
    ;
}

impl<This, Other> AndThenExt<Other> for This where
    Other: Lenticuloid,
    This: Lenticuloid<InitialTarget = Other::InitialSource, FinalTarget = Other::FinalSource>,
 {
    fn and_then(self, other: Other) -> Compose<Other, This> {
        Compose::of(other, self)
    }
}

/// Extension trait for lenticuloid inversion.
pub trait InvertExt: Lenticuloid {
    fn invert(self) -> (r: Invert<Self>)
        ensures
            r == Invert::spec_of(self),
    ;
}

impl<This: Lenticuloid> InvertExt for This {
    fn invert(self) -> Invert<This> {
        Invert::of(self)
    }
}

} // verus!
