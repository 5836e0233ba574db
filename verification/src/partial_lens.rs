//! The foundational fallible accessor: attempt to extract a target value,
//! falling back to a reconstructed source on failure, together with the
//! value-preserving modification operations derived from extraction.
use vstd::prelude::*;

use crate::{Compose, Identity, Invert, Lenticuloid};
use crate::iso::Iso;

verus! {

/// The supertype of all partial lens families.
///
/// The behaviour of every operation is pinned down by two specification
/// functions: `spec_try_get`, the attempted extraction, and `spec_set`, the
/// unconditional replacement.  Extraction never fails outright: when the
/// source is not in a shape that contains a target, `spec_try_get` returns a
/// complete value of the final source type.
///
/// `try_get_inject` decomposes a source into its target and a *residual*:
/// the data saved from the source that `reinject` needs to rebuild it around
/// a replacement target.  The residual plays the role of a one-shot
/// injection continuation, as a plain value.
pub trait PartialLens: Lenticuloid {
    /// Data saved from a decomposed source, from which `reinject` rebuilds
    /// a final source around a replacement target.
    type Residual;

    /// The attempted extraction: `Ok` with the target, or `Err` with a
    /// complete final source when the source does not contain a target.
    spec fn spec_try_get(&self, v: Self::InitialSource) -> Result<
        Self::InitialTarget,
        Self::FinalSource,
    >;

    /// The unconditional replacement of the target inside `v` by `x`.
    spec fn spec_set(&self, v: Self::InitialSource, x: Self::FinalTarget) -> Self::FinalSource;

    /// Rebuilding a final source from a residual and a replacement target.
    spec fn spec_reinject(&self, res: Self::Residual, x: Self::FinalTarget) -> Self::FinalSource;

    /// Law: when extraction fails, replacement returns the failure value
    /// untouched — failure is itself the rebuilt source.
    proof fn lemma_set_on_failure(&self, v: Self::InitialSource, x: Self::FinalTarget, w: Self::FinalSource)
        requires
            self.spec_try_get(v) == Err::<Self::InitialTarget, Self::FinalSource>(w),
        ensures
            self.spec_set(v, x) == w,
    ;

    /// By default, extraction is decomposition with the residual dropped.
    fn try_get(&self, v: Self::InitialSource) -> (r: Result<
        Self::InitialTarget,
        Self::FinalSource,
    >)
        ensures
            r == self.spec_try_get(v),
    {
        match self.try_get_inject(v) {
            Ok(p) => Ok(p.0),
            Err(w) => Err(w),
        }
    }

    /// Decompose `v` into its target and the residual needed to rebuild it;
    /// on failure, return the rebuilt final source directly.
    fn try_get_inject(&self, v: Self::InitialSource) -> (r: Result<
        (Self::InitialTarget, Self::Residual),
        Self::FinalSource,
    >)
        ensures
            match r {
                Ok(p) => self.spec_try_get(v) == Ok::<Self::InitialTarget, Self::FinalSource>(p.0)
                    && forall|x: Self::FinalTarget|
                        self.spec_reinject(p.1, x) == self.spec_set(v, x),
                Err(w) => self.spec_try_get(v) == Err::<Self::InitialTarget, Self::FinalSource>(w),
            },
    ;

    fn reinject(&self, res: Self::Residual, x: Self::FinalTarget) -> (r: Self::FinalSource)
        ensures
            r == self.spec_reinject(res, x),
    ;

    /// By default, replacement is decomposition followed by rebuilding
    /// around the new target; a failed decomposition is already the result.
    fn set(&self, v: Self::InitialSource, x: Self::FinalTarget) -> (r: Self::FinalSource)
        ensures
            r == self.spec_set(v, x),
    {
        match self.try_get_inject(v) {
            Ok(p) => self.reinject(p.1, x),
            Err(w) => {
                proof {
                    self.lemma_set_on_failure(v, x, w);
                }
                w
            },
        }
    }

    /// Replace the target by `x`, also returning the old target if the
    /// source contained one.  By default, decomposition keeps the old
    /// target while the residual is rebuilt around the new one.
    fn exchange(&self, v: Self::InitialSource, x: Self::FinalTarget) -> (r: (
        Option<Self::InitialTarget>,
        Self::FinalSource,
    ))
        ensures
            match self.spec_try_get(v) {
                Ok(a) => r.0 == Some(a) && r.1 == self.spec_set(v, x),
                Err(w) => r.0 == None::<Self::InitialTarget> && r.1 == w,
            },
    {
        match self.try_get_inject(v) {
            Ok(p) => {
                let (a, res) = p;
                let w = self.reinject(res, x);
                (Some(a), w)
            },
            Err(w) => (None, w),
        }
    }

    /// Extract-then-replace in one step: on success the replacement is a
    /// possible output of `f` on the extracted target; on failure the
    /// failure-path final source is returned untouched by `f`.  By default,
    /// a single decomposition feeds the transformation and the rebuild.
    fn modify<F: FnOnce(Self::InitialTarget) -> Self::FinalTarget>(
        &self,
        v: Self::InitialSource,
        f: F,
    ) -> (r: Self::FinalSource)
        requires
            forall|a: Self::InitialTarget|
                self.spec_try_get(v) == Ok::<Self::InitialTarget, Self::FinalSource>(a)
                    ==> call_requires(f, (a,)),
        ensures
            match self.spec_try_get(v) {
                Ok(a) => exists|b: Self::FinalTarget|
                    call_ensures(f, (a,), b) && r == self.spec_set(v, b),
                Err(w) => r == w,
            },
    {
        match self.try_get_inject(v) {
            Ok(p) => {
                let (a, res) = p;
                let b = f(a);
                let w = self.reinject(res, b);
                proof {
                    assert(call_ensures(f, ((self.spec_try_get(v))->Ok_0,), b));
                    assert(w == self.spec_set(v, b));
                }
                w
            },
            Err(w) => w,
        }
    }

    /// `modify` threading an auxiliary result out of the transformation.
    fn modify_with<F: FnOnce(Self::InitialTarget) -> (Self::FinalTarget, X), X>(
        &self,
        v: Self::InitialSource,
        f: F,
    ) -> (r: (Self::FinalSource, Option<X>))
        requires
            forall|a: Self::InitialTarget|
                self.spec_try_get(v) == Ok::<Self::InitialTarget, Self::FinalSource>(a)
                    ==> call_requires(f, (a,)),
        ensures
            match self.spec_try_get(v) {
                Ok(a) => exists|b: Self::FinalTarget, y: X|
                    call_ensures(f, (a,), (b, y)) && r.0 == self.spec_set(v, b) && r.1 == Some(y),
                Err(w) => r.0 == w && r.1 == None::<X>,
            },
    {
        match self.try_get_inject(v) {
            Ok(p) => {
                let (a, res) = p;
                let (b, y) = f(a);
                let w = self.reinject(res, b);
                proof {
                    assert(call_ensures(f, ((self.spec_try_get(v))->Ok_0,), (b, y)));
                    assert(w == self.spec_set(v, b));
                }
                (w, Some(y))
            },
            Err(w) => (w, None),
        }
    }
}

impl<S, T> PartialLens for Identity<S, T> {
    type Residual = ();

    open spec fn spec_try_get(&self, v: S) -> Result<S, T> {
        Ok(v)
    }

    open spec fn spec_set(&self, v: S, x: T) -> T {
        x
    }

    open spec fn spec_reinject(&self, res: (), x: T) -> T {
        x
    }

    proof fn lemma_set_on_failure(&self, v: S, x: T, w: T) {
    }

    fn try_get(&self, v: S) -> Result<S, T> {
        Ok(v)
    }

    fn try_get_inject(&self, v: S) -> Result<(S, ()), T> {
        Ok((v, ()))
    }

    fn reinject(&self, res: (), x: T) -> T {
        x
    }

    fn set(&self, v: S, x: T) -> T {
        x
    }

    fn exchange(&self, v: S, x: T) -> (Option<S>, T) {
        (Some(v), x)
    }

    fn modify<F: FnOnce(S) -> T>(&self, v: S, f: F) -> T {
        let r = f(v);
        proof {
            assert(call_ensures(f, (v,), r));
            assert(self.spec_set(v, r) == r);
        }
        r
    }

    fn modify_with<F: FnOnce(S) -> (T, X), X>(&self, v: S, f: F) -> (T, Option<X>) {
        let (a, b) = f(v);
        let res = (a, Some(b));
        proof {
            assert(call_ensures(f, ((self.spec_try_get(v))->Ok_0,), (a, b)));
            assert(self.spec_set(v, a) == a);
        }
        res
    }
}

impl<LF: PartialLens, LS> PartialLens for Compose<LF, LS> where
    LS: PartialLens<InitialTarget = LF::InitialSource, FinalTarget = LF::FinalSource>,
 {
    type Residual = (LF::Residual, LS::Residual);

    open spec fn spec_try_get(&self, v: LS::InitialSource) -> Result<
        LF::InitialTarget,
        LS::FinalSource,
    > {
        match self.second.spec_try_get(v) {
            Ok(q) => match self.first.spec_try_get(q) {
                Ok(a) => Ok(a),
                Err(t) => Err(self.second.spec_set(v, t)),
            },
            Err(w) => Err(w),
        }
    }

    open spec fn spec_set(&self, v: LS::InitialSource, x: LF::FinalTarget) -> LS::FinalSource {
        match self.second.spec_try_get(v) {
            Ok(q) => self.second.spec_set(v, self.first.spec_set(q, x)),
            Err(w) => w,
        }
    }

    open spec fn spec_reinject(
        &self,
        res: (LF::Residual, LS::Residual),
        x: LF::FinalTarget,
    ) -> LS::FinalSource {
        self.second.spec_reinject(res.1, self.first.spec_reinject(res.0, x))
    }

    proof fn lemma_set_on_failure(&self, v: LS::InitialSource, x: LF::FinalTarget, w: LS::FinalSource) {
        match self.second.spec_try_get(v) {
            Ok(q) => {
                let t = (self.first.spec_try_get(q))->Err_0;
                self.first.lemma_set_on_failure(q, x, t);
            },
            Err(_) => {},
        }
    }

    fn try_get_inject(&self, v: LS::InitialSource) -> Result<
        (LF::InitialTarget, (LF::Residual, LS::Residual)),
        LS::FinalSource,
    > {
        match self.second.try_get_inject(v) {
            Ok(p) => {
                let (q, rs) = p;
                match self.first.try_get_inject(q) {
                    Ok(pf) => {
                        let (a, rf) = pf;
                        proof {
                            assert forall|x: LF::FinalTarget|
                                self.spec_reinject((rf, rs), x) == self.spec_set(v, x) by {
                                assert(self.first.spec_reinject(rf, x) == self.first.spec_set(
                                    q,
                                    x,
                                ));
                                assert(self.second.spec_reinject(rs, self.first.spec_set(q, x))
                                    == self.second.spec_set(v, self.first.spec_set(q, x)));
                            }
                        }
                        Ok((a, (rf, rs)))
                    },
                    Err(t) => Err(self.second.reinject(rs, t)),
                }
            },
            Err(w) => Err(w),
        }
    }

    fn reinject(&self, res: (LF::Residual, LS::Residual), x: LF::FinalTarget) -> LS::FinalSource {
        let (rf, rs) = res;
        let w = self.second.reinject(rs, self.first.reinject(rf, x));
        proof {
            assert(w == self.spec_reinject((rf, rs), x));
        }
        w
    }
}

impl<L: Iso> PartialLens for Invert<L> {
    type Residual = ();

    open spec fn spec_try_get(&self, v: L::FinalTarget) -> Result<L::FinalSource, L::InitialTarget> {
        Ok(self.deinvert.spec_inject(v))
    }

    open spec fn spec_set(&self, v: L::FinalTarget, x: L::InitialSource) -> L::InitialTarget {
        self.deinvert.spec_get(x)
    }

    open spec fn spec_reinject(&self, res: (), x: L::InitialSource) -> L::InitialTarget {
        self.deinvert.spec_get(x)
    }

    proof fn lemma_set_on_failure(&self, v: L::FinalTarget, x: L::InitialSource, w: L::InitialTarget) {
    }

    fn try_get(&self, v: L::FinalTarget) -> Result<L::FinalSource, L::InitialTarget> {
        Ok(self.deinvert.inject(v))
    }

    fn try_get_inject(&self, v: L::FinalTarget) -> Result<(L::FinalSource, ()), L::InitialTarget> {
        Ok((self.deinvert.inject(v), ()))
    }

    fn reinject(&self, res: (), x: L::InitialSource) -> L::InitialTarget {
        self.deinvert.get(x)
    }

    fn set(&self, v: L::FinalTarget, x: L::InitialSource) -> L::InitialTarget {
        self.deinvert.get(x)
    }

    fn exchange(&self, v: L::FinalTarget, x: L::InitialSource) -> (
        Option<L::FinalSource>,
        L::InitialTarget,
    ) {
        (Some(self.deinvert.inject(v)), self.deinvert.get(x))
    }

    fn modify<F: FnOnce(L::FinalSource) -> L::InitialSource>(
        &self,
        v: L::FinalTarget,
        f: F,
    ) -> L::InitialTarget {
        let a = self.deinvert.inject(v);
        let b = f(a);
        let w = self.deinvert.get(b);
        proof {
            assert(call_ensures(f, ((self.spec_try_get(v))->Ok_0,), b));
            assert(w == self.spec_set(v, b));
        }
        w
    }

    fn modify_with<F: FnOnce(L::FinalSource) -> (L::InitialSource, X), X>(
        &self,
        v: L::FinalTarget,
        f: F,
    ) -> (L::InitialTarget, Option<X>) {
        let a = self.deinvert.inject(v);
        let (b, y) = f(a);
        let w = self.deinvert.get(b);
        proof {
            assert(call_ensures(f, ((self.spec_try_get(v))->Ok_0,), (b, y)));
            assert(w == self.spec_set(v, b));
        }
        (w, Some(y))
    }
}

} // verus!
