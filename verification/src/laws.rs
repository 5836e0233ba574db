//! The classical optic laws, stated of *simple* accessors — those whose
//! final endpoint types equal their initial ones — where the round trips are
//! typeable.  `S` is the accessor's source type on both sides, `A` its
//! target type on both sides.
//!
//! Each law is a proof obligation: an accessor type only earns the
//! corresponding `Lawful` trait by proving the law, and the combinators
//! propagate lawfulness — the composition of lawful accessors is lawful,
//! and the inversion of a lawful isomorphism is lawful.
use vstd::prelude::*;

use crate::{Compose, Identity, Invert, Lenticuloid};
use crate::iso::Iso;
use crate::lens::Lens;
use crate::partial_lens::PartialLens;
use crate::prism::Prism;

verus! {

/// A simple lens satisfying the classical get/set coherence laws.
pub trait LawfulLens<S, A>: Lens + Lenticuloid<
    InitialSource = S,
    InitialTarget = A,
    FinalSource = S,
    FinalTarget = A,
> {
    /// Put-then-get: reading back a freshly written target yields it.
    proof fn lemma_put_get(&self, s: S, x: A)
        ensures
            self.spec_get(self.spec_set(s, x)) == x,
    ;

    /// Get-then-put: writing back the target just read changes nothing.
    proof fn lemma_get_put(&self, s: S)
        ensures
            self.spec_set(s, self.spec_get(s)) == s,
    ;

    /// Put-put: a second write overwrites the first.
    proof fn lemma_put_put(&self, s: S, x1: A, x2: A)
        ensures
            self.spec_set(self.spec_set(s, x1), x2) == self.spec_set(s, x2),
    ;
}

/// A simple prism satisfying the round-trip law: extraction recovers
/// whatever was injected.
pub trait LawfulPrism<S, A>: Prism + Lenticuloid<
    InitialSource = S,
    InitialTarget = A,
    FinalSource = S,
    FinalTarget = A,
> {
    /// Injection followed by attempted extraction succeeds with the
    /// injected target.
    proof fn lemma_round_trip(&self, b: A)
        ensures
            self.spec_try_get(self.spec_inject(b)) == Ok::<A, S>(b),
    ;
}

/// A simple isomorphism: `get` and `inject` are mutual inverses.
pub trait LawfulIso<S, A>: Iso + LawfulLens<S, A> + LawfulPrism<S, A> {
    /// Reading an injected target yields it back.
    proof fn lemma_get_inject(&self, b: A)
        ensures
            self.spec_get(self.spec_inject(b)) == b,
    ;

    /// Injecting what was read rebuilds the source.
    proof fn lemma_inject_get(&self, s: S)
        ensures
            self.spec_inject(self.spec_get(s)) == s,
    ;
}

impl<S> LawfulLens<S, S> for Identity<S, S> {
    proof fn lemma_put_get(&self, s: S, x: S) {
    }

    proof fn lemma_get_put(&self, s: S) {
    }

    proof fn lemma_put_put(&self, s: S, x1: S, x2: S) {
    }
}

impl<S> LawfulPrism<S, S> for Identity<S, S> {
    proof fn lemma_round_trip(&self, b: S) {
    }
}

impl<S> LawfulIso<S, S> for Identity<S, S> {
    proof fn lemma_get_inject(&self, b: S) {
    }

    proof fn lemma_inject_get(&self, s: S) {
    }
}

impl<S, Q, A, LF, LS> LawfulLens<S, A> for Compose<LF, LS> where
    LF: LawfulLens<Q, A>,
    LS: LawfulLens<S, Q> + Lenticuloid<InitialTarget = Q>,
 {
    proof fn lemma_put_get(&self, s: S, x: A) {
        self.second.lemma_get_total(s);
        let q = self.second.spec_get(s);
        self.second.lemma_put_get(s, self.first.spec_set(q, x));
        self.first.lemma_put_get(q, x);
    }

    proof fn lemma_get_put(&self, s: S) {
        self.second.lemma_get_total(s);
        let q = self.second.spec_get(s);
        self.first.lemma_get_put(q);
        self.second.lemma_get_put(s);
    }

    proof fn lemma_put_put(&self, s: S, x1: A, x2: A) {
        self.second.lemma_get_total(s);
        let q = self.second.spec_get(s);
        let y1 = self.first.spec_set(q, x1);
        let s1 = self.second.spec_set(s, y1);
        self.second.lemma_get_total(s1);
        self.second.lemma_put_get(s, y1);
        self.first.lemma_put_put(q, x1, x2);
        self.second.lemma_put_put(s, y1, self.first.spec_set(q, x2));
    }
}

impl<S, Q, A, LF, LS> LawfulPrism<S, A> for Compose<LF, LS> where
    LF: LawfulPrism<Q, A>,
    LS: LawfulPrism<S, Q> + Lenticuloid<InitialTarget = Q>,
 {
    proof fn lemma_round_trip(&self, b: A) {
        let t = self.first.spec_inject(b);
        self.second.lemma_round_trip(t);
        self.first.lemma_round_trip(b);
    }
}

impl<S, Q, A, LF, LS> LawfulIso<S, A> for Compose<LF, LS> where
    LF: LawfulIso<Q, A>,
    LS: LawfulIso<S, Q> + Lenticuloid<InitialTarget = Q>,
 {
    proof fn lemma_get_inject(&self, b: A) {
        let t = self.first.spec_inject(b);
        self.second.lemma_get_inject(t);
        self.first.lemma_get_inject(b);
    }

    proof fn lemma_inject_get(&self, s: S) {
        let q = self.second.spec_get(s);
        self.first.lemma_inject_get(q);
        self.second.lemma_inject_get(s);
    }
}

impl<S, A, L: LawfulIso<S, A>> LawfulLens<A, S> for Invert<L> {
    proof fn lemma_put_get(&self, s: A, x: S) {
        self.deinvert.lemma_inject_get(x);
    }

    proof fn lemma_get_put(&self, s: A) {
        self.deinvert.lemma_get_inject(s);
    }

    proof fn lemma_put_put(&self, s: A, x1: S, x2: S) {
    }
}

impl<S, A, L: LawfulIso<S, A>> LawfulPrism<A, S> for Invert<L> {
    proof fn lemma_round_trip(&self, b: S) {
        self.deinvert.lemma_inject_get(b);
    }
}

impl<S, A, L: LawfulIso<S, A>> LawfulIso<A, S> for Invert<L> {
    proof fn lemma_get_inject(&self, b: S) {
        self.deinvert.lemma_inject_get(b);
    }

    proof fn lemma_inject_get(&self, s: A) {
        self.deinvert.lemma_get_inject(s);
    }
}

/// The identity accessor is a no-op in every operation: reading yields the
/// source, writing yields the written value, and injection is the identity.
/// (`modify` is pinned by these: its result is a possible output of the
/// transformation applied directly to the source.)
pub proof fn lemma_identity_laws<S, T>(l: Identity<S, T>, v: S, x: T)
    ensures
        l.spec_get(v) == v,
        l.spec_set(v, x) == x,
        l.spec_inject(x) == x,
        l.spec_try_get(v) == Ok::<S, T>(v),
{
}

/// Composition is associative for the partial-lens operations: on every
/// input, the two groupings of a three-accessor chain agree on attempted
/// extraction and on replacement.  Since every other operation (`exchange`,
/// `modify`, `modify_with`) is specified by `spec_try_get` and `spec_set`
/// alone, the two groupings behave identically throughout.
pub proof fn lemma_compose_assoc<LA, LB, LC>(
    la: LA,
    lb: LB,
    lc: LC,
    v: LC::InitialSource,
    x: LA::FinalTarget,
) where
    LA: PartialLens,
    LB: PartialLens<InitialTarget = LA::InitialSource, FinalTarget = LA::FinalSource>,
    LC: PartialLens<InitialTarget = LB::InitialSource, FinalTarget = LB::FinalSource>,

    ensures
        Compose::spec_of(Compose::spec_of(la, lb), lc).spec_try_get(v) == Compose::spec_of(
            la,
            Compose::spec_of(lb, lc),
        ).spec_try_get(v),
        Compose::spec_of(Compose::spec_of(la, lb), lc).spec_set(v, x) == Compose::spec_of(
            la,
            Compose::spec_of(lb, lc),
        ).spec_set(v, x),
{
}

/// Composition of lenses is associative for total extraction.
pub proof fn lemma_compose_assoc_get<LA, LB, LC>(la: LA, lb: LB, lc: LC, v: LC::InitialSource) where
    LA: Lens,
    LB: Lens<InitialTarget = LA::InitialSource, FinalTarget = LA::FinalSource>,
    LC: Lens<InitialTarget = LB::InitialSource, FinalTarget = LB::FinalSource>,

    ensures
        Compose::spec_of(Compose::spec_of(la, lb), lc).spec_get(v) == Compose::spec_of(
            la,
            Compose::spec_of(lb, lc),
        ).spec_get(v),
{
}

/// Composition of prisms is associative for unconditional construction.
pub proof fn lemma_compose_assoc_inject<LA, LB, LC>(la: LA, lb: LB, lc: LC, x: LA::FinalTarget) where
    LA: Prism,
    LB: Prism<InitialTarget = LA::InitialSource, FinalTarget = LA::FinalSource>,
    LC: Prism<InitialTarget = LB::InitialSource, FinalTarget = LB::FinalSource>,

    ensures
        Compose::spec_of(Compose::spec_of(la, lb), lc).spec_inject(x) == Compose::spec_of(
            la,
            Compose::spec_of(lb, lc),
        ).spec_inject(x),
{
}

/// Inverting twice gives back the original behaviour: the double inversion
/// of an isomorphism agrees with it on every operation.
pub proof fn lemma_invert_twice<L: Iso>(
    l: L,
    v: L::InitialSource,
    x: L::FinalTarget,
    b: L::FinalTarget,
)
    ensures
        Invert::spec_of(Invert::spec_of(l)).spec_get(v) == l.spec_get(v),
        Invert::spec_of(Invert::spec_of(l)).spec_inject(b) == l.spec_inject(b),
        Invert::spec_of(Invert::spec_of(l)).spec_try_get(v) == l.spec_try_get(v),
        Invert::spec_of(Invert::spec_of(l)).spec_set(v, x) == l.spec_set(v, x),
{
    l.lemma_get_total(v);
    l.lemma_set_inject(v, x);
}

/// Inverting a lawful isomorphism yields its two-sided inverse: reading
/// through the inversion undoes reading through the accessor, in both
/// directions.
pub proof fn lemma_invert_involution<S, A, L: LawfulIso<S, A>>(l: L, s: S, t: A)
    ensures
        Invert::spec_of(l).spec_get(l.spec_get(s)) == s,
        l.spec_get(Invert::spec_of(l).spec_get(t)) == t,
{
    l.lemma_inject_get(s);
    l.lemma_get_inject(t);
}

} // verus!
