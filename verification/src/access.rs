//! Concrete field-accessing lenses over record types, written out by hand
//! exactly as the field-access sugar layer would generate them: each lens
//! extracts one field, and writing puts a replacement field back while
//! leaving every other field untouched.
use vstd::prelude::*;

use crate::Lenticuloid;
use crate::laws::LawfulLens;
use crate::lens::Lens;
use crate::partial_lens::PartialLens;

verus! {

/// A record with one interesting nested field and one unrelated field.
#[derive(Debug, PartialEq, Eq)]
pub struct Inner {
    pub value: String,
    pub count: u64,
}

/// A record holding an `Inner` record and one unrelated field.
#[derive(Debug, PartialEq, Eq)]
pub struct Outer {
    pub inner: Inner,
    pub label: String,
}

/// The lens addressing the field `inner` of `Outer`.
pub struct OuterInnerLens {
    pub marker: (),
}

impl OuterInnerLens {
    /// The (unique) field lens value.
    pub open spec fn spec_mk() -> OuterInnerLens {
        OuterInnerLens { marker: () }
    }

    pub fn mk() -> (r: Self)
        ensures
            r == OuterInnerLens::spec_mk(),
    {
        OuterInnerLens { marker: () }
    }
}

impl Lenticuloid for OuterInnerLens {
    type InitialSource = Outer;

    type InitialTarget = Inner;

    type FinalSource = Outer;

    type FinalTarget = Inner;
}

impl PartialLens for OuterInnerLens {
    type Residual = String;

    open spec fn spec_try_get(&self, v: Outer) -> Result<Inner, Outer> {
        Ok(v.inner)
    }

    open spec fn spec_set(&self, v: Outer, x: Inner) -> Outer {
        Outer { inner: x, label: v.label }
    }

    open spec fn spec_reinject(&self, res: String, x: Inner) -> Outer {
        Outer { inner: x, label: res }
    }

    proof fn lemma_set_on_failure(&self, v: Outer, x: Inner, w: Outer) {
    }

    fn try_get(&self, v: Outer) -> Result<Inner, Outer> {
        Ok(v.inner)
    }

    fn try_get_inject(&self, v: Outer) -> Result<(Inner, String), Outer> {
        let Outer { inner, label } = v;
        Ok((inner, label))
    }

    fn reinject(&self, res: String, x: Inner) -> Outer {
        Outer { inner: x, label: res }
    }

    fn set(&self, v: Outer, x: Inner) -> Outer {
        let Outer { inner: _, label } = v;
        Outer { inner: x, label }
    }

    fn exchange(&self, v: Outer, x: Inner) -> (Option<Inner>, Outer) {
        let Outer { inner, label } = v;
        (Some(inner), Outer { inner: x, label })
    }

    fn modify<F: FnOnce(Inner) -> Inner>(&self, v: Outer, f: F) -> Outer {
        let Outer { inner, label } = v;
        let b = f(inner);
        let w = Outer { inner: b, label };
        proof {
            assert(call_ensures(f, ((self.spec_try_get(v))->Ok_0,), b));
            assert(w == self.spec_set(v, b));
        }
        w
    }

    fn modify_with<F: FnOnce(Inner) -> (Inner, X), X>(&self, v: Outer, f: F) -> (
        Outer,
        Option<X>,
    ) {
        let Outer { inner, label } = v;
        let (b, y) = f(inner);
        let w = Outer { inner: b, label };
        proof {
            assert(call_ensures(f, ((self.spec_try_get(v))->Ok_0,), (b, y)));
            assert(w == self.spec_set(v, b));
        }
        (w, Some(y))
    }
}

impl Lens for OuterInnerLens {
    open spec fn spec_get(&self, v: Outer) -> Inner {
        v.inner
    }

    proof fn lemma_get_total(&self, v: Outer) {
    }

    fn get(&self, v: Outer) -> Inner {
        v.inner
    }
}

impl LawfulLens<Outer, Inner> for OuterInnerLens {
    proof fn lemma_put_get(&self, s: Outer, x: Inner) {
    }

    proof fn lemma_get_put(&self, s: Outer) {
    }

    proof fn lemma_put_put(&self, s: Outer, x1: Inner, x2: Inner) {
    }
}

/// The lens addressing the field `value` of `Inner`.
pub struct InnerValueLens {
    pub marker: (),
}

impl InnerValueLens {
    /// The (unique) field lens value.
    pub open spec fn spec_mk() -> InnerValueLens {
        InnerValueLens { marker: () }
    }

    pub fn mk() -> (r: Self)
        ensures
            r == InnerValueLens::spec_mk(),
    {
        InnerValueLens { marker: () }
    }
}

impl Lenticuloid for InnerValueLens {
    type InitialSource = Inner;

    type InitialTarget = String;

    type FinalSource = Inner;

    type FinalTarget = String;
}

impl PartialLens for InnerValueLens {
    type Residual = u64;

    open spec fn spec_try_get(&self, v: Inner) -> Result<String, Inner> {
        Ok(v.value)
    }

    open spec fn spec_set(&self, v: Inner, x: String) -> Inner {
        Inner { value: x, count: v.count }
    }

    open spec fn spec_reinject(&self, res: u64, x: String) -> Inner {
        Inner { value: x, count: res }
    }

    proof fn lemma_set_on_failure(&self, v: Inner, x: String, w: Inner) {
    }

    fn try_get(&self, v: Inner) -> Result<String, Inner> {
        Ok(v.value)
    }

    fn try_get_inject(&self, v: Inner) -> Result<(String, u64), Inner> {
        let Inner { value, count } = v;
        Ok((value, count))
    }

    fn reinject(&self, res: u64, x: String) -> Inner {
        Inner { value: x, count: res }
    }

    fn set(&self, v: Inner, x: String) -> Inner {
        let Inner { value: _, count } = v;
        Inner { value: x, count }
    }

    fn exchange(&self, v: Inner, x: String) -> (Option<String>, Inner) {
        let Inner { value, count } = v;
        (Some(value), Inner { value: x, count })
    }

    fn modify<F: FnOnce(String) -> String>(&self, v: Inner, f: F) -> Inner {
        let Inner { value, count } = v;
        let b = f(value);
        let w = Inner { value: b, count };
        proof {
            assert(call_ensures(f, ((self.spec_try_get(v))->Ok_0,), b));
            assert(w == self.spec_set(v, b));
        }
        w
    }

    fn modify_with<F: FnOnce(String) -> (String, X), X>(&self, v: Inner, f: F) -> (
        Inner,
        Option<X>,
    ) {
        let Inner { value, count } = v;
        let (b, y) = f(value);
        let w = Inner { value: b, count };
        proof {
            assert(call_ensures(f, ((self.spec_try_get(v))->Ok_0,), (b, y)));
            assert(w == self.spec_set(v, b));
        }
        (w, Some(y))
    }
}

impl Lens for InnerValueLens {
    open spec fn spec_get(&self, v: Inner) -> String {
        v.value
    }

    proof fn lemma_get_total(&self, v: Inner) {
    }

    fn get(&self, v: Inner) -> String {
        v.value
    }
}

impl LawfulLens<Inner, String> for InnerValueLens {
    proof fn lemma_put_get(&self, s: Inner, x: String) {
    }

    proof fn lemma_get_put(&self, s: Inner) {
    }

    proof fn lemma_put_put(&self, s: Inner, x1: String, x2: String) {
    }
}

} // verus!
