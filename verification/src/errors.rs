//! The accessor bridging Rust's basic error-handling types: `Option` and
//! `Result`, in a left-biased fashion.
use vstd::prelude::*;

use core::marker::PhantomData;
use crate::Lenticuloid;
use crate::iso::Iso;
use crate::laws::{LawfulIso, LawfulLens, LawfulPrism};
use crate::lens::Lens;
use crate::partial_lens::PartialLens;
use crate::prism::Prism;

verus! {

/// A lenticuloid that converts between `Result`s and `Option`s: the success
/// case carries the payload, and the error case — only ever the unit type,
/// which carries no information — maps to `None`.
pub struct OptionFromResultL<A, B, C> {
    pub phantom_ro: PhantomData<(A, B)>,
    pub phantom_or: PhantomData<C>,
}

impl<A, B, C> OptionFromResultL<A, B, C> {
    /// The (unique) bridging accessor value.
    pub open spec fn spec_mk() -> OptionFromResultL<A, B, C> {
        OptionFromResultL { phantom_ro: PhantomData, phantom_or: PhantomData }
    }

    pub fn mk() -> (r: Self)
        ensures
            r == OptionFromResultL::<A, B, C>::spec_mk(),
    {
        OptionFromResultL { phantom_ro: PhantomData, phantom_or: PhantomData }
    }
}

impl<A, B, C> Default for OptionFromResultL<A, B, C> {
    fn default() -> (r: Self)
        ensures
            r == OptionFromResultL::<A, B, C>::spec_mk(),
    {
        OptionFromResultL::mk()
    }
}

impl<A, B, C> Lenticuloid for OptionFromResultL<A, B, C> {
    type InitialSource = Result<A, B>;

    type InitialTarget = Option<A>;

    type FinalSource = Result<C, B>;

    type FinalTarget = Option<C>;
}

impl<A, C> PartialLens for OptionFromResultL<A, (), C> {
    type Residual = ();

    open spec fn spec_try_get(&self, v: Result<A, ()>) -> Result<Option<A>, Result<C, ()>> {
        Ok(
            match v {
                Ok(a) => Some(a),
                Err(_) => None,
            },
        )
    }

    open spec fn spec_set(&self, v: Result<A, ()>, x: Option<C>) -> Result<C, ()> {
        match x {
            Some(c) => Ok(c),
            None => Err(()),
        }
    }

    open spec fn spec_reinject(&self, res: (), x: Option<C>) -> Result<C, ()> {
        match x {
            Some(c) => Ok(c),
            None => Err(()),
        }
    }

    proof fn lemma_set_on_failure(&self, v: Result<A, ()>, x: Option<C>, w: Result<C, ()>) {
    }

    fn try_get(&self, v: Result<A, ()>) -> Result<Option<A>, Result<C, ()>> {
        Ok(
            match v {
                Ok(a) => Some(a),
                Err(_) => None,
            },
        )
    }

    fn try_get_inject(&self, v: Result<A, ()>) -> Result<(Option<A>, ()), Result<C, ()>> {
        let a = match v {
            Ok(a) => Some(a),
            Err(_) => None,
        };
        Ok((a, ()))
    }

    fn reinject(&self, res: (), x: Option<C>) -> Result<C, ()> {
        match x {
            Some(c) => Ok(c),
            None => Err(()),
        }
    }

    fn set(&self, v: Result<A, ()>, x: Option<C>) -> Result<C, ()> {
        match x {
            Some(c) => Ok(c),
            None => Err(()),
        }
    }

    fn exchange(&self, v: Result<A, ()>, x: Option<C>) -> (Option<Option<A>>, Result<C, ()>) {
        let a = match v {
            Ok(a) => Some(a),
            Err(_) => None,
        };
        let w = match x {
            Some(c) => Ok(c),
            None => Err(()),
        };
        (Some(a), w)
    }

    fn modify<F: FnOnce(Option<A>) -> Option<C>>(&self, v: Result<A, ()>, f: F) -> Result<C, ()> {
        let a = match v {
            Ok(a) => Some(a),
            Err(_) => None,
        };
        let b = f(a);
        let w = match b {
            Some(c) => Ok(c),
            None => Err(()),
        };
        proof {
            assert(call_ensures(f, ((self.spec_try_get(v))->Ok_0,), b));
            assert(w == self.spec_set(v, b));
        }
        w
    }

    fn modify_with<F: FnOnce(Option<A>) -> (Option<C>, X), X>(&self, v: Result<A, ()>, f: F) -> (
        Result<C, ()>,
        Option<X>,
    ) {
        let a = match v {
            Ok(a) => Some(a),
            Err(_) => None,
        };
        let (b, y) = f(a);
        let w = match b {
            Some(c) => Ok(c),
            None => Err(()),
        };
        proof {
            assert(call_ensures(f, ((self.spec_try_get(v))->Ok_0,), (b, y)));
            assert(w == self.spec_set(v, b));
        }
        (w, Some(y))
    }
}

impl<A, C> OptionFromResultL<A, (), C> {
    /// `modify` over the attempted extraction itself: the transformation
    /// sees the whole (always successful) extraction result.
    pub fn try_modify<F: FnOnce(Result<Option<A>, Result<C, ()>>) -> Option<C>>(
        &self,
        v: Result<A, ()>,
        f: F,
    ) -> (r: Result<C, ()>)
        requires
            call_requires(f, (self.spec_try_get(v),)),
        ensures
            exists|b: Option<C>|
                call_ensures(f, (self.spec_try_get(v),), b) && r == self.spec_set(v, b),
    {
        let a = match v {
            Ok(a) => Some(a),
            Err(_) => None,
        };
        let b = f(Ok(a));
        let w = match b {
            Some(c) => Ok(c),
            None => Err(()),
        };
        proof {
            assert(call_ensures(f, (self.spec_try_get(v),), b));
            assert(w == self.spec_set(v, b));
        }
        w
    }
}

impl<A, C> Lens for OptionFromResultL<A, (), C> {
    open spec fn spec_get(&self, v: Result<A, ()>) -> Option<A> {
        match v {
            Ok(a) => Some(a),
            Err(_) => None,
        }
    }

    proof fn lemma_get_total(&self, v: Result<A, ()>) {
    }

    fn get(&self, v: Result<A, ()>) -> Option<A> {
        match v {
            Ok(a) => Some(a),
            Err(_) => None,
        }
    }
}

impl<A, C> Prism for OptionFromResultL<A, (), C> {
    open spec fn spec_inject(&self, x: Option<C>) -> Result<C, ()> {
        match x {
            Some(c) => Ok(c),
            None => Err(()),
        }
    }

    proof fn lemma_set_inject(&self, v: Result<A, ()>, x: Option<C>) {
    }

    fn inject(&self, x: Option<C>) -> Result<C, ()> {
        match x {
            Some(c) => Ok(c),
            None => Err(()),
        }
    }
}

impl<A, C> Iso for OptionFromResultL<A, (), C> {

}

impl<A> LawfulLens<Result<A, ()>, Option<A>> for OptionFromResultL<A, (), A> {
    proof fn lemma_put_get(&self, s: Result<A, ()>, x: Option<A>) {
    }

    proof fn lemma_get_put(&self, s: Result<A, ()>) {
        if s is Err {
            assert(s->Err_0 == ());
        }
    }

    proof fn lemma_put_put(&self, s: Result<A, ()>, x1: Option<A>, x2: Option<A>) {
    }
}

impl<A> LawfulPrism<Result<A, ()>, Option<A>> for OptionFromResultL<A, (), A> {
    proof fn lemma_round_trip(&self, b: Option<A>) {
    }
}

impl<A> LawfulIso<Result<A, ()>, Option<A>> for OptionFromResultL<A, (), A> {
    proof fn lemma_get_inject(&self, b: Option<A>) {
    }

    proof fn lemma_inject_get(&self, s: Result<A, ()>) {
        if s is Err {
            assert(s->Err_0 == ());
        }
    }
}

} // verus!
