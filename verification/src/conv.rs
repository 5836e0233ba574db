//! The accessor family for lossless conversions by owned value: given a
//! bidirectional, information-preserving conversion between two types, the
//! conversion itself is a total, invertible accessor.
use vstd::prelude::*;

use core::marker::PhantomData;
use crate::Lenticuloid;
use crate::iso::Iso;
use crate::laws::{LawfulIso, LawfulLens, LawfulPrism};
use crate::lens::Lens;
use crate::partial_lens::PartialLens;
use crate::prism::Prism;

verus! {

/// A lossless conversion capability between `Self` and `A`: both directions
/// are provided, and each round trip is a proof obligation, so every
/// `Convert` pair is a bijection.
pub trait Convert<A>: Sized {
    /// The forward conversion.
    spec fn spec_to(self) -> A;

    /// The backward conversion.
    spec fn spec_from(a: A) -> Self;

    /// Law: converting forward then back recovers the value exactly.
    proof fn lemma_to_from(self)
        ensures
            Self::spec_from(self.spec_to()) == self,
    ;

    /// Law: converting back then forward recovers the value exactly.
    proof fn lemma_from_to(a: A)
        ensures
            Self::spec_from(a).spec_to() == a,
    ;

    fn to(self) -> (r: A)
        ensures
            r == self.spec_to(),
    ;

    fn from_val(a: A) -> (r: Self)
        ensures
            r == Self::spec_from(a),
    ;
}

/// An isomorphism family for lossless conversions by owned value: reads
/// convert `S` to `A`, writes convert `B` back to `T`.
pub struct Conv<S, A = S, T = S, B = A> {
    pub phantom_sa: PhantomData<(S, A)>,
    pub phantom_bt: PhantomData<(B, T)>,
}

impl<S, A, T, B> Conv<S, A, T, B> where S: Convert<A>, T: Convert<B> {
    /// The (unique) conversion accessor value.
    pub open spec fn spec_mk() -> Conv<S, A, T, B> {
        Conv { phantom_sa: PhantomData, phantom_bt: PhantomData }
    }

    pub fn mk() -> (r: Self)
        ensures
            r == Conv::<S, A, T, B>::spec_mk(),
    {
        Conv { phantom_sa: PhantomData, phantom_bt: PhantomData }
    }
}

impl<S, A, T, B> Default for Conv<S, A, T, B> where S: Convert<A>, T: Convert<B> {
    fn default() -> (r: Self)
        ensures
            r == Conv::<S, A, T, B>::spec_mk(),
    {
        Conv::mk()
    }
}

impl<S, A, T, B> Lenticuloid for Conv<S, A, T, B> where S: Convert<A>, T: Convert<B> {
    type InitialSource = S;

    type InitialTarget = A;

    type FinalSource = T;

    type FinalTarget = B;
}

impl<S, A, T, B> PartialLens for Conv<S, A, T, B> where S: Convert<A>, T: Convert<B> {
    type Residual = ();

    open spec fn spec_try_get(&self, v: S) -> Result<A, T> {
        Ok(v.spec_to())
    }

    open spec fn spec_set(&self, v: S, x: B) -> T {
        T::spec_from(x)
    }

    open spec fn spec_reinject(&self, res: (), x: B) -> T {
        T::spec_from(x)
    }

    proof fn lemma_set_on_failure(&self, v: S, x: B, w: T) {
    }

    fn try_get(&self, v: S) -> Result<A, T> {
        Ok(v.to())
    }

    fn try_get_inject(&self, v: S) -> Result<(A, ()), T> {
        Ok((v.to(), ()))
    }

    fn reinject(&self, res: (), x: B) -> T {
        T::from_val(x)
    }

    fn set(&self, v: S, x: B) -> T {
        T::from_val(x)
    }

    fn exchange(&self, v: S, x: B) -> (Option<A>, T) {
        (Some(v.to()), T::from_val(x))
    }

    fn modify<F: FnOnce(A) -> B>(&self, v: S, f: F) -> T {
        let a = v.to();
        let b = f(a);
        let w = T::from_val(b);
        proof {
            assert(call_ensures(f, ((self.spec_try_get(v))->Ok_0,), b));
            assert(w == self.spec_set(v, b));
        }
        w
    }

    fn modify_with<F: FnOnce(A) -> (B, X), X>(&self, v: S, f: F) -> (T, Option<X>) {
        let a = v.to();
        let (b, y) = f(a);
        let w = T::from_val(b);
        proof {
            assert(call_ensures(f, ((self.spec_try_get(v))->Ok_0,), (b, y)));
            assert(w == self.spec_set(v, b));
        }
        (w, Some(y))
    }
}

impl<S, A, T, B> Lens for Conv<S, A, T, B> where S: Convert<A>, T: Convert<B> {
    open spec fn spec_get(&self, v: S) -> A {
        v.spec_to()
    }

    proof fn lemma_get_total(&self, v: S) {
    }

    fn get(&self, v: S) -> A {
        v.to()
    }
}

impl<S, A, T, B> Prism for Conv<S, A, T, B> where S: Convert<A>, T: Convert<B> {
    open spec fn spec_inject(&self, x: B) -> T {
        T::spec_from(x)
    }

    proof fn lemma_set_inject(&self, v: S, x: B) {
    }

    fn inject(&self, x: B) -> T {
        T::from_val(x)
    }
}

impl<S, A, T, B> Iso for Conv<S, A, T, B> where S: Convert<A>, T: Convert<B> {

}

impl<S, A> LawfulLens<S, A> for Conv<S, A, S, A> where S: Convert<A> {
    proof fn lemma_put_get(&self, s: S, x: A) {
        S::lemma_from_to(x);
    }

    proof fn lemma_get_put(&self, s: S) {
        s.lemma_to_from();
    }

    proof fn lemma_put_put(&self, s: S, x1: A, x2: A) {
    }
}

impl<S, A> LawfulPrism<S, A> for Conv<S, A, S, A> where S: Convert<A> {
    proof fn lemma_round_trip(&self, b: A) {
        S::lemma_from_to(b);
    }
}

impl<S, A> LawfulIso<S, A> for Conv<S, A, S, A> where S: Convert<A> {
    proof fn lemma_get_inject(&self, b: A) {
        S::lemma_from_to(b);
    }

    proof fn lemma_inject_get(&self, s: S) {
        s.lemma_to_from();
    }
}

/// A lossless conversion is a correct isomorphism: reading an injected
/// value recovers it, and injecting what was read rebuilds the source.
pub proof fn lemma_conv_correct<S: Convert<A>, A>(c: Conv<S, A, S, A>, s: S, a: A)
    ensures
        c.spec_get(c.spec_inject(a)) == a,
        c.spec_inject(c.spec_get(s)) == s,
{
    S::lemma_from_to(a);
    s.lemma_to_from();
}

/// A temperature in tenths of a degree Celsius.
#[derive(Clone, Copy, Debug, PartialEq, Eq, Structural)]
pub struct Celsius {
    pub tenths: i64,
}

/// A temperature in tenths of a kelvin, wrapping on `i64` overflow so that
/// the scale change is a bijection on the whole carrier type.
#[derive(Clone, Copy, Debug, PartialEq, Eq, Structural)]
pub struct DeciKelvin {
    pub tenths: i64,
}

/// The offset between the two scales, in tenths of a degree.
pub const CELSIUS_OFFSET: i64 = 2732;

impl Convert<DeciKelvin> for Celsius {
    open spec fn spec_to(self) -> DeciKelvin {
        DeciKelvin { tenths: self.tenths.wrapping_add(CELSIUS_OFFSET) }
    }

    open spec fn spec_from(a: DeciKelvin) -> Celsius {
        Celsius { tenths: a.tenths.wrapping_sub(CELSIUS_OFFSET) }
    }

    proof fn lemma_to_from(self) {
    }

    proof fn lemma_from_to(a: DeciKelvin) {
    }

    fn to(self) -> DeciKelvin {
        DeciKelvin { tenths: self.tenths.wrapping_add(CELSIUS_OFFSET) }
    }

    fn from_val(a: DeciKelvin) -> Celsius {
        Celsius { tenths: a.tenths.wrapping_sub(CELSIUS_OFFSET) }
    }
}

impl Convert<i64> for DeciKelvin {
    open spec fn spec_to(self) -> i64 {
        self.tenths
    }

    open spec fn spec_from(a: i64) -> DeciKelvin {
        DeciKelvin { tenths: a }
    }

    proof fn lemma_to_from(self) {
    }

    proof fn lemma_from_to(a: i64) {
    }

    fn to(self) -> i64 {
        self.tenths
    }

    fn from_val(a: i64) -> DeciKelvin {
        DeciKelvin { tenths: a }
    }
}

} // verus!
