//! `refraction` is a verified lens library: a family of composable,
//! bidirectional accessors (lenses, prisms, isomorphisms) over plain values,
//! with their behaviour stated as contracts and their algebraic laws proved.
//!
//! Every accessor is a *lenticuloid*: it fixes four types — the initial
//! source and target used by reads, and the final source and target used by
//! type-changing writes.  An accessor with `InitialSource == FinalSource` and
//! `InitialTarget == FinalTarget` is *simple*; the classical single-type
//! optic laws are stated of simple accessors by the `Lawful` traits, and
//! every law is a proof obligation discharged by each accessor.
use vstd::prelude::*;

use core::marker::PhantomData;

mod access;
mod conv;
mod errors;
mod iso;
mod laws;
mod lens;
mod ops;
mod partial_lens;
mod prism;
mod terminal;

pub use access::{Inner, InnerValueLens, Outer, OuterInnerLens};
pub use conv::{CELSIUS_OFFSET, Celsius, Conv, Convert, DeciKelvin, lemma_conv_correct};
pub use errors::OptionFromResultL;
pub use iso::Iso;
pub use laws::{LawfulIso, LawfulLens, LawfulPrism, lemma_compose_assoc, lemma_compose_assoc_get, lemma_compose_assoc_inject, lemma_identity_laws, lemma_invert_involution, lemma_invert_twice};
pub use lens::Lens;
pub use ops::{AndThenExt, ComposeExt, InvertExt, identity};
pub use partial_lens::PartialLens;
pub use prism::Prism;
pub use terminal::{FromNever, FromUnit, Never, ToNever, ToUnit, lemma_unit_accessors};

verus! {

/// The supertype of all lenticuloids: a pure type declaration fixing the
/// four endpoint types of the accessor family.
pub trait Lenticuloid: Sized {
    /// The type consumed by read operations.
    type InitialSource;

    /// The type produced by read operations.
    type InitialTarget;

    /// The type produced by write operations (may differ from
    /// `InitialSource`, which is what enables type-changing updates).
    type FinalSource;

    /// The type consumed by write operations.
    type FinalTarget;
}

/// The identity lenticuloid: reads and writes are the identity function.
pub struct Identity<S, T> {
    pub phantom_ss: PhantomData<S>,
    pub phantom_tt: PhantomData<T>,
}

impl<S, T> Identity<S, T> {
    /// The (unique) identity accessor value.
    pub open spec fn spec_mk() -> Identity<S, T> {
        Identity { phantom_ss: PhantomData, phantom_tt: PhantomData }
    }

    pub fn mk() -> (r: Self)
        ensures
            r == Identity::<S, T>::spec_mk(),
    {
        Identity { phantom_ss: PhantomData, phantom_tt: PhantomData }
    }
}

impl<S, T> Default for Identity<S, T> {
    fn default() -> (r: Self)
        ensures
            r == Identity::<S, T>::spec_mk(),
    {
        Identity::mk()
    }
}

impl<S, T> Lenticuloid for Identity<S, T> {
    type InitialSource = S;

    type InitialTarget = S;

    type FinalSource = T;

    type FinalTarget = T;
}

/// Composition of two lenticuloids in categorical order: `second` is applied
/// first by reads, so its target endpoints must match `first`'s source
/// endpoints.
pub struct Compose<LF, LS> {
    pub first: LF,
    pub second: LS,
}

impl<LF, LS> Compose<LF, LS> {
    /// The composite of `lf` after `ls`.
    pub open spec fn spec_of(lf: LF, ls: LS) -> Compose<LF, LS> {
        Compose { first: lf, second: ls }
    }

    pub fn of(lf: LF, ls: LS) -> (r: Self)
        ensures
            r == Compose::spec_of(lf, ls),
    {
        Compose { first: lf, second: ls }
    }
}

impl<LF: Lenticuloid, LS> Lenticuloid for Compose<LF, LS> where
    LS: Lenticuloid<InitialTarget = LF::InitialSource, FinalTarget = LF::FinalSource>,
 {
    type InitialSource = LS::InitialSource;

    type InitialTarget = LF::InitialTarget;

    type FinalSource = LS::FinalSource;

    type FinalTarget = LF::FinalTarget;
}

/// The inversion of a lenticuloid: the accessor that runs `L` backwards.
/// It is only usable through the accessor traits when `L` is an `Iso`.
pub struct Invert<L> {
    pub deinvert: L,
}

impl<L> Invert<L> {
    /// The inversion of `l`.
    pub open spec fn spec_of(l: L) -> Invert<L> {
        Invert { deinvert: l }
    }

    pub fn of(l: L) -> (r: Self)
        ensures
            r == Invert::spec_of(l),
    {
        Invert { deinvert: l }
    }
}

impl<L: Lenticuloid> Lenticuloid for Invert<L> {
    type InitialSource = L::FinalTarget;

    type InitialTarget = L::FinalSource;

    type FinalSource = L::InitialTarget;

    type FinalTarget = L::InitialSource;
}

} // verus!
