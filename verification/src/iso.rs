//! The total, invertible accessor: the intersection of `Lens` and `Prism`.
use vstd::prelude::*;

use crate::{Compose, Identity, Invert, Lenticuloid};
use crate::lens::Lens;
use crate::prism::Prism;

verus! {

/// The supertype of all isomorphism families.  It adds no new operations:
/// its content is closure — the identity is an `Iso`, the composition of two
/// `Iso`s is an `Iso`, and the inversion of an `Iso` is an `Iso` — together
/// with the invertibility laws stated of simple accessors in `laws`.
pub trait Iso: Lens + Prism {

}

impl<S, T> Iso for Identity<S, T> {

}

impl<LF: Iso, LS> Iso for Compose<LF, LS> where
    LS: Iso<InitialTarget = LF::InitialSource, FinalTarget = LF::FinalSource>,
 {

}

impl<L: Iso> Iso for Invert<L> {

}

} // verus!
