//! Behaviour of the individual accessors through their executable API.
use refraction::{
    FromUnit, Identity, Inner, InnerValueLens, Lens, OptionFromResultL, PartialLens, Prism,
    ToNever, ToUnit,
};

#[test]
fn default_is_the_accessor() {
    let l: Identity<u32, u32> = Default::default();
    assert_eq!(l.get(3), 3);
    let m: OptionFromResultL<i32, (), i32> = Default::default();
    assert_eq!(m.get(Ok(1)), Some(1));
    let u: ToUnit<u8> = Default::default();
    assert_eq!(u.get(9), ());
}

#[test]
fn identity_get_returns_source() {
    let l = Identity::<u32, u32>::mk();
    assert_eq!(l.get(5), 5);
}

#[test]
fn identity_set_returns_written_value() {
    let l = Identity::<u32, u32>::mk();
    assert_eq!(l.set(5, 7), 7);
}

#[test]
fn identity_modify_applies_function() {
    let l = Identity::<u32, u32>::mk();
    assert_eq!(l.modify(5, |x| x + 1), 6);
}

#[test]
fn identity_try_get_always_succeeds() {
    let l = Identity::<u32, u32>::mk();
    assert_eq!(l.try_get(9), Ok(9));
}

#[test]
fn identity_exchange_returns_old_value() {
    let l = Identity::<u32, u32>::mk();
    assert_eq!(l.exchange(5, 7), (Some(5), 7));
}

#[test]
fn option_from_result_get() {
    let l = OptionFromResultL::<i32, (), i32>::mk();
    assert_eq!(l.get(Ok(5)), Some(5));
    assert_eq!(l.get(Err(())), None);
}

#[test]
fn option_from_result_inject() {
    let l = OptionFromResultL::<i32, (), i32>::mk();
    assert_eq!(l.inject(Some(5)), Ok(5));
    assert_eq!(l.inject(None), Err(()));
}

#[test]
fn option_from_result_set_and_modify() {
    let l = OptionFromResultL::<i32, (), i32>::mk();
    assert_eq!(l.set(Ok(1), Some(2)), Ok(2));
    assert_eq!(l.set(Err(()), None), Err(()));
    assert_eq!(l.modify(Ok(3), |x: Option<i32>| x.map(|a| a + 1)), Ok(4));
    assert_eq!(l.modify(Err(()), |x: Option<i32>| x.map(|a| a + 1)), Err(()));
}

#[test]
fn option_from_result_try_modify() {
    let l = OptionFromResultL::<i32, (), i32>::mk();
    let r = l.try_modify(Ok(3), |x: Result<Option<i32>, Result<i32, ()>>| {
        x.unwrap().map(|a| a * 2)
    });
    assert_eq!(r, Ok(6));
}

#[test]
fn to_unit_get_is_unit() {
    let l = ToUnit::<u64>::mk();
    assert_eq!(l.get(42), ());
}

#[test]
fn to_unit_set_keeps_source() {
    let l = ToUnit::<u64>::mk();
    assert_eq!(l.set(42, ()), 42);
    assert_eq!(l.modify(42, |u: ()| u), 42);
}

#[test]
fn from_unit_never_extracts() {
    let l = FromUnit::<i32, i32>::mk();
    assert_eq!(l.try_get(()), Err(()));
}

#[test]
fn from_unit_inject_discards() {
    let l = FromUnit::<i32, i32>::mk();
    assert_eq!(l.inject(9), ());
    assert_eq!(l.exchange((), 3), (None, ()));
}

#[test]
fn to_never_extraction_always_fails() {
    let l = ToNever::<u8>::mk();
    assert_eq!(l.try_get(5), Err(5));
    assert_eq!(l.modify(5, |x| x), 5);
}

#[test]
fn compose_inner_failure_reinjects_through_outer_layer() {
    // The outer layer always extracts (into unit); the inner layer always
    // fails (out of unit), so the composite's failure value must be the
    // whole source rebuilt through the outer layer.
    let l = refraction::Compose::of(FromUnit::<i32, i32>::mk(), ToUnit::<u8>::mk());
    assert_eq!(l.try_get(7), Err(7));
    assert_eq!(l.set(7, 5), 7);
    assert_eq!(l.modify(7, |x: i32| x + 1), 7);
    assert_eq!(l.exchange(7, 5), (None, 7));
}

#[test]
fn field_lens_exchange_returns_old_field() {
    let l = InnerValueLens::mk();
    let v = Inner { value: "old".to_string(), count: 3 };
    let (old, w) = l.exchange(v, "new".to_string());
    assert_eq!(old, Some("old".to_string()));
    assert_eq!(w, Inner { value: "new".to_string(), count: 3 });
}

#[test]
fn field_lens_modify_with_threads_result() {
    let l = InnerValueLens::mk();
    let v = Inner { value: "ab".to_string(), count: 3 };
    let (w, aux) = l.modify_with(v, |x: String| {
        let n = x.len();
        (x, n)
    });
    assert_eq!(w, Inner { value: "ab".to_string(), count: 3 });
    assert_eq!(aux, Some(2));
}

#[test]
fn field_lens_try_get_inject_round_trip() {
    let l = InnerValueLens::mk();
    let v = Inner { value: "seed".to_string(), count: 11 };
    match l.try_get_inject(v) {
        Ok((value, residual)) => {
            assert_eq!(value, "seed".to_string());
            let w = l.reinject(residual, "grown".to_string());
            assert_eq!(w, Inner { value: "grown".to_string(), count: 11 });
        },
        Err(_) => panic!("extraction from a field lens is total"),
    }
}
