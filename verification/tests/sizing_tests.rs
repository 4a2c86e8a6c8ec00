use svg_element::geometry::{AbsoluteLength, DefiniteLength, Length};
use svg_element::scalar::Scalar;
use svg_element::sizing::{IntrinsicSize, resolve};

fn px(num: i128) -> Length {
    Length::Definite(DefiniteLength::Absolute(AbsoluteLength::Pixels(Scalar { num, den: 1 })))
}

fn derived_pixels(l: Option<Length>) -> Scalar {
    match l {
        Some(Length::Definite(DefiniteLength::Absolute(AbsoluteLength::Pixels(s)))) => s,
        other => panic!("expected a derived pixel length, got {:?}", other),
    }
}

#[test]
fn aspect_ratio_is_exact_and_both_auto_falls_back_to_intrinsic() {
    let rem = Scalar { num: 16, den: 1 };
    let r = resolve(
        Some(IntrinsicSize { width: 3, height: 2 }),
        Length::Auto,
        Length::Auto,
        rem,
    );
    let ar = r.aspect_ratio.unwrap();
    assert!(ar.same_value(Scalar { num: 3, den: 2 }));
    assert!(derived_pixels(r.derived_width).same_value(Scalar { num: 3, den: 1 }));
    assert!(derived_pixels(r.derived_height).same_value(Scalar { num: 2, den: 1 }));
}

#[test]
fn auto_width_is_anchored_on_definite_absolute_height() {
    let rem = Scalar { num: 16, den: 1 };
    let r = resolve(
        Some(IntrinsicSize { width: 200, height: 100 }),
        Length::Auto,
        px(100),
        rem,
    );
    assert!(r.aspect_ratio.unwrap().same_value(Scalar { num: 2, den: 1 }));
    assert!(derived_pixels(r.derived_width).same_value(Scalar { num: 200, den: 1 }));
    assert!(r.derived_height.is_none());
}

#[test]
fn auto_height_is_anchored_on_definite_absolute_width() {
    let rem = Scalar { num: 16, den: 1 };
    let r = resolve(
        Some(IntrinsicSize { width: 200, height: 100 }),
        px(100),
        Length::Auto,
        rem,
    );
    assert!(derived_pixels(r.derived_height).same_value(Scalar { num: 50, den: 1 }));
    assert!(r.derived_width.is_none());
}

#[test]
fn rem_height_anchors_after_conversion_through_root_font_size() {
    let rem = Scalar { num: 16, den: 1 };
    let height = Length::Definite(DefiniteLength::Absolute(AbsoluteLength::Rems(Scalar {
        num: 2,
        den: 1,
    })));
    let r = resolve(Some(IntrinsicSize { width: 1, height: 1 }), Length::Auto, height, rem);
    assert!(derived_pixels(r.derived_width).same_value(Scalar { num: 32, den: 1 }));
}

#[test]
fn relative_height_is_never_an_anchor() {
    let rem = Scalar { num: 16, den: 1 };
    let height = Length::Definite(DefiniteLength::Fraction(Scalar { num: 1, den: 2 }));
    let r = resolve(Some(IntrinsicSize { width: 7, height: 3 }), Length::Auto, height, rem);
    assert!(derived_pixels(r.derived_width).same_value(Scalar { num: 7, den: 1 }));
    assert!(r.derived_height.is_none());
}

#[test]
fn absent_intrinsic_resolves_nothing() {
    let rem = Scalar { num: 16, den: 1 };
    let r = resolve(None, Length::Auto, Length::Auto, rem);
    assert!(r.aspect_ratio.is_none());
    assert!(r.derived_width.is_none());
    assert!(r.derived_height.is_none());
}

#[test]
fn zero_intrinsic_resolves_nothing() {
    let rem = Scalar { num: 16, den: 1 };
    let r = resolve(
        Some(IntrinsicSize { width: 0, height: 5 }),
        Length::Auto,
        Length::Auto,
        rem,
    );
    assert!(r.aspect_ratio.is_none());
    assert!(r.derived_width.is_none());
    assert!(r.derived_height.is_none());
}

#[test]
fn definite_axes_are_never_overwritten() {
    let rem = Scalar { num: 16, den: 1 };
    let r = resolve(Some(IntrinsicSize { width: 4, height: 4 }), px(10), px(20), rem);
    assert!(r.aspect_ratio.unwrap().same_value(Scalar { num: 1, den: 1 }));
    assert!(r.derived_width.is_none());
    assert!(r.derived_height.is_none());
}
