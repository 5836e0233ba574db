//! The algebraic laws checked on concrete values through the executable API.
use refraction::{
    AndThenExt, CELSIUS_OFFSET, Celsius, Compose, ComposeExt, Conv, DeciKelvin, Identity, Inner,
    InnerValueLens, Invert, InvertExt, Lens, OptionFromResultL, PartialLens, Prism, identity,
};

#[test]
fn lens_put_then_get() {
    let l = InnerValueLens::mk();
    let s = Inner { value: "a".to_string(), count: 1 };
    let w = l.set(s, "b".to_string());
    assert_eq!(l.get(w), "b".to_string());
}

#[test]
fn lens_get_then_put() {
    let l = InnerValueLens::mk();
    let s = Inner { value: "a".to_string(), count: 1 };
    let g = l.get(Inner { value: "a".to_string(), count: 1 });
    assert_eq!(l.set(s, g), Inner { value: "a".to_string(), count: 1 });
}

#[test]
fn lens_put_then_put() {
    let l = InnerValueLens::mk();
    let s = Inner { value: "a".to_string(), count: 1 };
    let w = l.set(l.set(s, "b".to_string()), "c".to_string());
    let s2 = Inner { value: "a".to_string(), count: 1 };
    assert_eq!(w, l.set(s2, "c".to_string()));
}

#[test]
fn prism_round_trip() {
    let p = OptionFromResultL::<i32, (), i32>::mk();
    assert_eq!(p.try_get(p.inject(Some(5))), Ok(Some(5)));
    assert_eq!(p.try_get(p.inject(None)), Ok(None));
}

#[test]
fn iso_invertibility() {
    let i = Conv::<Celsius, DeciKelvin>::mk();
    let j = Invert::of(Conv::<Celsius, DeciKelvin>::mk());
    let s = Celsius { tenths: 215 };
    assert_eq!(j.get(i.get(s)), s);
    let t = DeciKelvin { tenths: 2947 };
    assert_eq!(i.get(j.get(t)), t);
}

#[test]
fn invert_swaps_get_and_inject() {
    let j = Invert::of(Conv::<Celsius, DeciKelvin>::mk());
    assert_eq!(j.get(DeciKelvin { tenths: 2732 }), Celsius { tenths: 0 });
    assert_eq!(j.inject(Celsius { tenths: 0 }), DeciKelvin { tenths: 2732 });
}

#[test]
fn compose_associativity() {
    let v = Celsius { tenths: 250 };
    let x: i64 = 3000;

    let left = Compose::of(
        Compose::of(Identity::<i64, i64>::mk(), Conv::<DeciKelvin, i64>::mk()),
        Conv::<Celsius, DeciKelvin>::mk(),
    );
    let right = Compose::of(
        Identity::<i64, i64>::mk(),
        Compose::of(Conv::<DeciKelvin, i64>::mk(), Conv::<Celsius, DeciKelvin>::mk()),
    );

    assert_eq!(left.get(v), right.get(v));
    assert_eq!(left.try_get(v), right.try_get(v));
    assert_eq!(left.set(v, x), right.set(v, x));
    assert_eq!(left.inject(x), right.inject(x));
    assert_eq!(left.modify(v, |n| n + 1), right.modify(v, |n| n + 1));
    assert_eq!(left.exchange(v, x), right.exchange(v, x));
}

#[test]
fn conv_round_trips() {
    let c = Conv::<Celsius, DeciKelvin>::mk();
    let s = Celsius { tenths: -50 };
    assert_eq!(c.inject(c.get(s)), s);
    let a = DeciKelvin { tenths: 3000 };
    assert_eq!(c.get(c.inject(a)), a);
}

#[test]
fn identity_composition_is_identity() {
    let l = Conv::<Celsius, DeciKelvin>::mk().compose(identity::<Celsius, Celsius>());
    let v = Celsius { tenths: 100 };
    assert_eq!(l.get(v), DeciKelvin { tenths: 100 + CELSIUS_OFFSET });
}

#[test]
fn and_then_orders_intuitively() {
    let l = Conv::<Celsius, DeciKelvin>::mk().and_then(Conv::<DeciKelvin, i64>::mk());
    let v = Celsius { tenths: 18 };
    assert_eq!(l.get(v), 18 + CELSIUS_OFFSET);
}

#[test]
fn invert_ext_matches_invert_of() {
    let a = Conv::<Celsius, DeciKelvin>::mk().invert();
    let b = Invert::of(Conv::<Celsius, DeciKelvin>::mk());
    let t = DeciKelvin { tenths: 2732 };
    assert_eq!(a.get(t), b.get(t));
}
