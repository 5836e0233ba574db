//! Accessors dealing with the trivial and the impossible: the unit type,
//! which carries no information, and the `Never` type, which has no values.
use vstd::prelude::*;

use core::marker::PhantomData;
use vstd::pervasive::{arbitrary, unreached};
use crate::Lenticuloid;
use crate::laws::LawfulLens;
use crate::lens::Lens;
use crate::partial_lens::PartialLens;
use crate::prism::Prism;

verus! {

/// A type with no values that verified code can construct or hold: its type
/// invariant is unsatisfiable, so any code path that receives one is
/// provably unreachable.  Reaching such a path is a programming-contract
/// violation, fatal by construction, not a modelled error.
#[derive(Debug, PartialEq, Eq)]
pub struct Never {
    no_value: bool,
}

impl Never {
    #[verifier::type_invariant]
    spec fn well_formed(self) -> bool {
        self.no_value && !self.no_value
    }
}

/// A `Lens` to "extract" anything from `Never`.
pub struct FromNever<A, B> {
    pub phantom_na: PhantomData<A>,
    pub phantom_bn: PhantomData<B>,
}

impl<A, B> FromNever<A, B> {
    /// The (unique) accessor value out of `Never`.
    pub open spec fn spec_mk() -> FromNever<A, B> {
        FromNever { phantom_na: PhantomData, phantom_bn: PhantomData }
    }

    pub fn mk() -> (r: Self)
        ensures
            r == FromNever::<A, B>::spec_mk(),
    {
        FromNever { phantom_na: PhantomData, phantom_bn: PhantomData }
    }
}

impl<A, B> Default for FromNever<A, B> {
    fn default() -> (r: Self)
        ensures
            r == FromNever::<A, B>::spec_mk(),
    {
        FromNever::mk()
    }
}

impl<A, B> Lenticuloid for FromNever<A, B> {
    type InitialSource = Never;

    type InitialTarget = A;

    type FinalSource = Never;

    type FinalTarget = B;
}

impl<A, B> PartialLens for FromNever<A, B> {
    type Residual = Never;

    open spec fn spec_try_get(&self, v: Never) -> Result<A, Never> {
        Ok(arbitrary::<A>())
    }

    open spec fn spec_set(&self, v: Never, x: B) -> Never {
        arbitrary::<Never>()
    }

    open spec fn spec_reinject(&self, res: Never, x: B) -> Never {
        res
    }

    proof fn lemma_set_on_failure(&self, v: Never, x: B, w: Never) {
    }

    fn try_get(&self, v: Never) -> Result<A, Never> {
        proof {
            use_type_invariant(&v);
        }
        unreached()
    }

    fn try_get_inject(&self, v: Never) -> Result<(A, Never), Never> {
        proof {
            use_type_invariant(&v);
        }
        unreached()
    }

    fn reinject(&self, res: Never, x: B) -> Never {
        proof {
            use_type_invariant(&res);
        }
        unreached()
    }

    fn set(&self, v: Never, x: B) -> Never {
        proof {
            use_type_invariant(&v);
        }
        unreached()
    }

    fn exchange(&self, v: Never, x: B) -> (Option<A>, Never) {
        proof {
            use_type_invariant(&v);
        }
        unreached()
    }

    fn modify<F: FnOnce(A) -> B>(&self, v: Never, f: F) -> Never {
        proof {
            use_type_invariant(&v);
        }
        unreached()
    }

    fn modify_with<F: FnOnce(A) -> (B, X), X>(&self, v: Never, f: F) -> (Never, Option<X>) {
        proof {
            use_type_invariant(&v);
        }
        unreached()
    }
}

impl<A, B> Lens for FromNever<A, B> {
    open spec fn spec_get(&self, v: Never) -> A {
        arbitrary::<A>()
    }

    proof fn lemma_get_total(&self, v: Never) {
    }

    fn get(&self, v: Never) -> A {
        proof {
            use_type_invariant(&v);
        }
        unreached()
    }
}

/// A `Prism` to "inject" `Never` into anything.
pub struct ToNever<S> {
    pub phantom_ns: PhantomData<S>,
}

impl<S> ToNever<S> {
    /// The (unique) accessor value into `Never`.
    pub open spec fn spec_mk() -> ToNever<S> {
        ToNever { phantom_ns: PhantomData }
    }

    pub fn mk() -> (r: Self)
        ensures
            r == ToNever::<S>::spec_mk(),
    {
        ToNever { phantom_ns: PhantomData }
    }
}

impl<S> Default for ToNever<S> {
    fn default() -> (r: Self)
        ensures
            r == ToNever::<S>::spec_mk(),
    {
        ToNever::mk()
    }
}

impl<S> Lenticuloid for ToNever<S> {
    type InitialSource = S;

    type InitialTarget = Never;

    type FinalSource = S;

    type FinalTarget = Never;
}

impl<S> PartialLens for ToNever<S> {
    type Residual = ();

    open spec fn spec_try_get(&self, v: S) -> Result<Never, S> {
        Err(v)
    }

    open spec fn spec_set(&self, v: S, x: Never) -> S {
        v
    }

    open spec fn spec_reinject(&self, res: (), x: Never) -> S {
        arbitrary::<S>()
    }

    proof fn lemma_set_on_failure(&self, v: S, x: Never, w: S) {
    }

    fn try_get(&self, v: S) -> Result<Never, S> {
        Err(v)
    }

    fn try_get_inject(&self, v: S) -> Result<(Never, ()), S> {
        Err(v)
    }

    fn reinject(&self, res: (), x: Never) -> S {
        proof {
            use_type_invariant(&x);
        }
        unreached()
    }

    fn set(&self, v: S, x: Never) -> S {
        proof {
            use_type_invariant(&x);
        }
        unreached()
    }

    fn exchange(&self, v: S, x: Never) -> (Option<Never>, S) {
        proof {
            use_type_invariant(&x);
        }
        unreached()
    }

    fn modify<F: FnOnce(Never) -> Never>(&self, v: S, f: F) -> S {
        v
    }

    fn modify_with<F: FnOnce(Never) -> (Never, X), X>(&self, v: S, f: F) -> (S, Option<X>) {
        (v, None)
    }
}

impl<S> Prism for ToNever<S> {
    open spec fn spec_inject(&self, x: Never) -> S {
        arbitrary::<S>()
    }

    proof fn lemma_set_inject(&self, v: S, x: Never) {
    }

    fn inject(&self, x: Never) -> S {
        proof {
            use_type_invariant(&x);
        }
        unreached()
    }
}

/// A `Prism` to "inject" anything into the unit type.  Extraction never
/// succeeds: unit carries no information from which to rebuild a target.
pub struct FromUnit<A, B> {
    pub phantom_ua: PhantomData<A>,
    pub phantom_bu: PhantomData<B>,
}

impl<A, B> FromUnit<A, B> {
    /// The (unique) accessor value out of unit.
    pub open spec fn spec_mk() -> FromUnit<A, B> {
        FromUnit { phantom_ua: PhantomData, phantom_bu: PhantomData }
    }

    pub fn mk() -> (r: Self)
        ensures
            r == FromUnit::<A, B>::spec_mk(),
    {
        FromUnit { phantom_ua: PhantomData, phantom_bu: PhantomData }
    }
}

impl<A, B> Default for FromUnit<A, B> {
    fn default() -> (r: Self)
        ensures
            r == FromUnit::<A, B>::spec_mk(),
    {
        FromUnit::mk()
    }
}

impl<A, B> Lenticuloid for FromUnit<A, B> {
    type InitialSource = ();

    type InitialTarget = A;

    type FinalSource = ();

    type FinalTarget = B;
}

impl<A, B> PartialLens for FromUnit<A, B> {
    type Residual = ();

    open spec fn spec_try_get(&self, v: ()) -> Result<A, ()> {
        Err(())
    }

    open spec fn spec_set(&self, v: (), x: B) -> () {
        ()
    }

    open spec fn spec_reinject(&self, res: (), x: B) -> () {
        ()
    }

    proof fn lemma_set_on_failure(&self, v: (), x: B, w: ()) {
    }

    fn try_get(&self, v: ()) -> Result<A, ()> {
        Err(v)
    }

    fn try_get_inject(&self, v: ()) -> Result<(A, ()), ()> {
        Err(v)
    }

    fn reinject(&self, res: (), x: B) -> () {
        ()
    }

    fn set(&self, v: (), x: B) -> () {
        v
    }

    fn exchange(&self, v: (), x: B) -> (Option<A>, ()) {
        (None, ())
    }

    fn modify<F: FnOnce(A) -> B>(&self, v: (), f: F) -> () {
        v
    }

    fn modify_with<F: FnOnce(A) -> (B, X), X>(&self, v: (), f: F) -> ((), Option<X>) {
        ((), None)
    }
}

impl<A, B> Prism for FromUnit<A, B> {
    open spec fn spec_inject(&self, x: B) -> () {
        ()
    }

    proof fn lemma_set_inject(&self, v: (), x: B) {
    }

    fn inject(&self, x: B) -> () {
        ()
    }
}

/// A `Lens` to "extract" the unit value from anything.  Writing the unit
/// value back carries no new information, so writes leave the source
/// untouched.
pub struct ToUnit<S> {
    pub phantom_su: PhantomData<S>,
}

impl<S> ToUnit<S> {
    /// The (unique) accessor value into unit.
    pub open spec fn spec_mk() -> ToUnit<S> {
        ToUnit { phantom_su: PhantomData }
    }

    pub fn mk() -> (r: Self)
        ensures
            r == ToUnit::<S>::spec_mk(),
    {
        ToUnit { phantom_su: PhantomData }
    }
}

impl<S> Default for ToUnit<S> {
    fn default() -> (r: Self)
        ensures
            r == ToUnit::<S>::spec_mk(),
    {
        ToUnit::mk()
    }
}

impl<S> Lenticuloid for ToUnit<S> {
    type InitialSource = S;

    type InitialTarget = ();

    type FinalSource = S;

    type FinalTarget = ();
}

impl<S> PartialLens for ToUnit<S> {
    type Residual = S;

    open spec fn spec_try_get(&self, v: S) -> Result<(), S> {
        Ok(())
    }

    open spec fn spec_set(&self, v: S, x: ()) -> S {
        v
    }

    open spec fn spec_reinject(&self, res: S, x: ()) -> S {
        res
    }

    proof fn lemma_set_on_failure(&self, v: S, x: (), w: S) {
    }

    fn try_get(&self, v: S) -> Result<(), S> {
        Ok(())
    }

    fn try_get_inject(&self, v: S) -> Result<((), S), S> {
        Ok(((), v))
    }

    fn reinject(&self, res: S, x: ()) -> S {
        res
    }

    fn set(&self, v: S, x: ()) -> S {
        v
    }

    fn exchange(&self, v: S, x: ()) -> (Option<()>, S) {
        (Some(()), v)
    }

    fn modify<F: FnOnce(()) -> ()>(&self, v: S, f: F) -> S {
        let b = f(());
        proof {
            assert(call_ensures(f, ((self.spec_try_get(v))->Ok_0,), b));
            assert(self.spec_set(v, b) == v);
        }
        v
    }

    fn modify_with<F: FnOnce(()) -> ((), X), X>(&self, v: S, f: F) -> (S, Option<X>) {
        let (b, y) = f(());
        proof {
            assert(call_ensures(f, ((self.spec_try_get(v))->Ok_0,), (b, y)));
            assert(self.spec_set(v, b) == v);
        }
        (v, Some(y))
    }
}

impl<S> Lens for ToUnit<S> {
    open spec fn spec_get(&self, v: S) -> () {
        ()
    }

    proof fn lemma_get_total(&self, v: S) {
    }

    fn get(&self, v: S) -> () {
        ()
    }
}

/// The unit accessors in every case: extraction into unit always yields the
/// unit value, extraction out of unit never succeeds, and injection into
/// unit discards its argument.
pub proof fn lemma_unit_accessors<S, A, B>(tu: ToUnit<S>, fu: FromUnit<A, B>, v: S, x: B)
    ensures
        tu.spec_get(v) == (),
        fu.spec_try_get(()) == Err::<A, ()>(()),
        fu.spec_inject(x) == (),
{
}

impl<S> LawfulLens<S, ()> for ToUnit<S> {
    proof fn lemma_put_get(&self, s: S, x: ()) {
        assert(x == ());
    }

    proof fn lemma_get_put(&self, s: S) {
    }

    proof fn lemma_put_put(&self, s: S, x1: (), x2: ()) {
    }
}

} // verus!
