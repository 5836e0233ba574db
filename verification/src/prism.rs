//! The partial-construction accessor: a partial lens with an unconditional
//! constructor of the final source from a replacement target.
use vstd::prelude::*;

use crate::{Compose, Identity, Invert, Lenticuloid};
use crate::iso::Iso;
use crate::partial_lens::PartialLens;

verus! {

/// The supertype of all prism families: adds an unconditional `inject`.
pub trait Prism: PartialLens {
    /// The unconditional construction of a final source from a target.
    spec fn spec_inject(&self, x: Self::FinalTarget) -> Self::FinalSource;

    /// Law: on a source whose extraction succeeds, replacement coincides
    /// with unconditional construction — the replaced target is all the
    /// rebuilt source retains.
    proof fn lemma_set_inject(&self, v: Self::InitialSource, x: Self::FinalTarget)
        requires
            self.spec_try_get(v) is Ok,
        ensures
            self.spec_set(v, x) == self.spec_inject(x),
    ;

    fn inject(&self, x: Self::FinalTarget) -> (r: Self::FinalSource)
        ensures
            r == self.spec_inject(x),
    ;
}

impl<S, T> Prism for Identity<S, T> {
    open spec fn spec_inject(&self, x: T) -> T {
        x
    }

    proof fn lemma_set_inject(&self, v: S, x: T) {
    }

    fn inject(&self, x: T) -> T {
        x
    }
}

impl<LF: Prism, LS> Prism for Compose<LF, LS> where
    LS: Prism<InitialTarget = LF::InitialSource, FinalTarget = LF::FinalSource>,
 {
    open spec fn spec_inject(&self, x: LF::FinalTarget) -> LS::FinalSource {
        self.second.spec_inject(self.first.spec_inject(x))
    }

    proof fn lemma_set_inject(&self, v: LS::InitialSource, x: LF::FinalTarget) {
        let q = (self.second.spec_try_get(v))->Ok_0;
        self.first.lemma_set_inject(q, x);
        self.second.lemma_set_inject(v, self.first.spec_inject(x));
    }

    fn inject(&self, x: LF::FinalTarget) -> LS::FinalSource {
        self.second.inject(self.first.inject(x))
    }
}

impl<L: Iso> Prism for Invert<L> {
    open spec fn spec_inject(&self, x: L::InitialSource) -> L::InitialTarget {
        self.deinvert.spec_get(x)
    }

    proof fn lemma_set_inject(&self, v: L::FinalTarget, x: L::InitialSource) {
    }

    fn inject(&self, x: L::InitialSource) -> L::InitialTarget {
        self.deinvert.get(x)
    }
}

} // verus!
