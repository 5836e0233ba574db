//! Field-lens scenarios: modification through nested record structure.
use refraction::{
    CELSIUS_OFFSET, Celsius, Compose, Conv, DeciKelvin, Inner, InnerValueLens, Lens, Outer,
    OuterInnerLens, PartialLens, Prism,
};

#[test]
fn test_field_lens() {
    let l = Compose::of(InnerValueLens::mk(), OuterInnerLens::mk());
    let v = Outer {
        inner: Inner { value: "  hello\n".to_string(), count: 0 },
        label: "record".to_string(),
    };
    let w = l.modify(v, |x: String| x.trim().to_string());
    assert_eq!(w.inner.value, "hello")
}

#[test]
fn nested_modify_leaves_other_fields_unchanged() {
    let l = Compose::of(InnerValueLens::mk(), OuterInnerLens::mk());
    let v = Outer {
        inner: Inner { value: "  hello\n".to_string(), count: 7 },
        label: "keep me".to_string(),
    };
    let w = l.modify(v, |x: String| x.trim().to_string());
    assert_eq!(
        w,
        Outer { inner: Inner { value: "hello".to_string(), count: 7 }, label: "keep me".to_string() }
    );
}

#[test]
fn nested_get_and_set_two_levels_deep() {
    let l = Compose::of(InnerValueLens::mk(), OuterInnerLens::mk());
    let v = Outer {
        inner: Inner { value: "deep".to_string(), count: 2 },
        label: "outer".to_string(),
    };
    assert_eq!(l.get(v), "deep".to_string());
    let v2 = Outer {
        inner: Inner { value: "deep".to_string(), count: 2 },
        label: "outer".to_string(),
    };
    let w = l.set(v2, "deeper".to_string());
    assert_eq!(
        w,
        Outer { inner: Inner { value: "deeper".to_string(), count: 2 }, label: "outer".to_string() }
    );
}

#[test]
fn temperature_composite_is_an_iso() {
    let l = Compose::of(Conv::<DeciKelvin, i64>::mk(), Conv::<Celsius, DeciKelvin>::mk());
    let freezing = Celsius { tenths: 0 };
    let raw = l.get(freezing);
    assert_eq!(raw, CELSIUS_OFFSET as i64);
    assert_eq!(l.inject(raw), freezing);
    let boiling_raw: i64 = 1000 + CELSIUS_OFFSET;
    let celsius = l.inject(boiling_raw);
    assert_eq!(celsius, Celsius { tenths: 1000 });
    assert_eq!(l.get(celsius), boiling_raw);
}
