//! The total accessor: a partial lens whose extraction always succeeds.
use vstd::prelude::*;

use crate::{Compose, Identity, Invert, Lenticuloid};
use crate::iso::Iso;
use crate::partial_lens::PartialLens;

verus! {

/// The supertype of all lens families: adds a total `get`.
pub trait Lens: PartialLens {
    /// The (total) extraction.
    spec fn spec_get(&self, v: Self::InitialSource) -> Self::InitialTarget;

    /// Law: attempted extraction always succeeds, with exactly `spec_get`.
    proof fn lemma_get_total(&self, v: Self::InitialSource)
        ensures
            self.spec_try_get(v) == Ok::<Self::InitialTarget, Self::FinalSource>(self.spec_get(v)),
    ;

    fn get(&self, v: Self::InitialSource) -> (r: Self::InitialTarget)
        ensures
            r == self.spec_get(v),
    ;
}

impl<S, T> Lens for Identity<S, T> {
    open spec fn spec_get(&self, v: S) -> S {
        v
    }

    proof fn lemma_get_total(&self, v: S) {
    }

    fn get(&self, v: S) -> S {
        v
    }
}

impl<LF: Lens, LS> Lens for Compose<LF, LS> where
    LS: Lens<InitialTarget = LF::InitialSource, FinalTarget = LF::FinalSource>,
 {
    open spec fn spec_get(&self, v: LS::InitialSource) -> LF::InitialTarget {
        self.first.spec_get(self.second.spec_get(v))
    }

    proof fn lemma_get_total(&self, v: LS::InitialSource) {
        self.second.lemma_get_total(v);
        self.first.lemma_get_total(self.second.spec_get(v));
    }

    fn get(&self, v: LS::InitialSource) -> LF::InitialTarget {
        self.first.get(self.second.get(v))
    }
}

impl<L: Iso> Lens for Invert<L> {
    open spec fn spec_get(&self, v: L::FinalTarget) -> L::FinalSource {
        self.deinvert.spec_inject(v)
    }

    proof fn lemma_get_total(&self, v: L::FinalTarget) {
    }

    fn get(&self, v: L::FinalTarget) -> L::FinalSource {
        self.deinvert.inject(v)
    }
}

} // verus!
