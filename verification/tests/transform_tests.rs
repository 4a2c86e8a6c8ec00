use svg_element::geometry::{Point, Size};
use svg_element::scalar::Scalar;
use svg_element::transform::{Matrix, Rotation, Transformation};

fn s(num: i128, den: i128) -> Scalar {
    Scalar { num, den }
}

fn point(x: Scalar, y: Scalar) -> Point {
    Point { x, y }
}

#[test]
fn default_composes_to_identity_for_any_pivot_and_scale() {
    let one = s(1, 1);
    let zero = s(0, 1);
    for (px, py, ds) in [
        (s(10, 1), s(20, 1), s(2, 1)),
        (s(-7, 2), s(33, 16), s(5, 4)),
        (s(0, 1), s(0, 1), s(1, 1)),
    ] {
        let m = Transformation::default().into_matrix(point(px, py), ds);
        assert!(m.m11.same_value(one));
        assert!(m.m12.same_value(zero));
        assert!(m.m21.same_value(zero));
        assert!(m.m22.same_value(one));
        assert!(m.tx.same_value(zero));
        assert!(m.ty.same_value(zero));
    }
}

#[test]
fn pure_translation_translates_by_exactly_translate_times_device_scale() {
    let t = Transformation::translate(point(s(7, 2), s(5, 1)));
    let ds = s(3, 2);
    let m = t.into_matrix(point(s(123, 4), s(99, 16)), ds);
    assert!(m.tx.same_value(s(21, 4)));
    assert!(m.ty.same_value(s(15, 2)));
    assert!(m.m11.same_value(s(1, 1)));
    assert!(m.m12.same_value(s(0, 1)));
}

#[test]
fn pure_translation_is_pivot_invariant() {
    let t = Transformation::translate(point(s(9, 1), s(-4, 1)));
    let ds = s(2, 1);
    let m1 = t.into_matrix(point(s(0, 1), s(0, 1)), ds);
    let m2 = t.into_matrix(point(s(500, 1), s(-300, 2)), ds);
    assert!(m1.tx.same_value(m2.tx));
    assert!(m1.ty.same_value(m2.ty));
}

#[test]
fn quarter_turn_rotation_composes_around_the_pivot() {
    let quarter = Rotation { cos: s(0, 1), sin: s(1, 1) };
    let t = Transformation::rotate(quarter);
    let m = t.into_matrix(point(s(10, 1), s(20, 1)), s(1, 1));
    assert!(m.m11.same_value(s(0, 1)));
    assert!(m.m12.same_value(s(-1, 1)));
    assert!(m.m21.same_value(s(1, 1)));
    assert!(m.m22.same_value(s(0, 1)));
    assert!(m.tx.same_value(s(30, 1)));
    assert!(m.ty.same_value(s(10, 1)));
}

#[test]
fn scaling_scales_the_linear_part_and_recenters() {
    let t = Transformation::scale(Size { width: s(2, 1), height: s(3, 1) });
    let m = t.into_matrix(point(s(10, 1), s(20, 1)), s(1, 1));
    assert!(m.m11.same_value(s(2, 1)));
    assert!(m.m22.same_value(s(3, 1)));
    // translation re-centers: p - S * p
    assert!(m.tx.same_value(s(-10, 1)));
    assert!(m.ty.same_value(s(-40, 1)));
}

#[test]
fn device_scale_multiplies_translations_but_not_the_linear_part() {
    let t = Transformation::translate(point(s(3, 1), s(0, 1))).with_scaling(Size {
        width: s(2, 1),
        height: s(2, 1),
    });
    let ds = s(2, 1);
    let m = t.into_matrix(point(s(10, 1), s(10, 1)), ds);
    assert!(m.m11.same_value(s(2, 1)));
    // ds * ((p + t) - 2p) = 2 * (3 - 10) = -14 on x
    assert!(m.tx.same_value(s(-14, 1)));
    assert!(m.ty.same_value(s(-20, 1)));
}

#[test]
fn builders_update_exactly_one_component() {
    let base = Transformation::default();
    let scaled = base.with_scaling(Size { width: s(2, 1), height: s(2, 1) });
    assert_eq!(scaled.translate, base.translate);
    assert_eq!(scaled.rotate, base.rotate);
    assert_eq!(scaled.scale, Size { width: s(2, 1), height: s(2, 1) });

    let moved = base.with_translation(point(s(1, 1), s(2, 1)));
    assert_eq!(moved.scale, base.scale);
    assert_eq!(moved.translate, point(s(1, 1), s(2, 1)));

    let quarter = Rotation { cos: s(0, 1), sin: s(1, 1) };
    let turned = base.with_rotation(quarter);
    assert_eq!(turned.rotate, quarter);
    assert_eq!(turned.scale, base.scale);

    assert_eq!(Transformation::scale(base.scale), base);
    assert_eq!(Transformation::rotate(Rotation::zero()), base);
    assert_eq!(Transformation::translate(point(s(0, 1), s(0, 1))), base);
}

#[test]
fn unit_matrix_is_the_identity() {
    let m = Matrix::unit();
    assert_eq!(m.m11, s(1, 1));
    assert_eq!(m.m12, s(0, 1));
    assert_eq!(m.m21, s(0, 1));
    assert_eq!(m.m22, s(1, 1));
    assert_eq!(m.tx, s(0, 1));
    assert_eq!(m.ty, s(0, 1));
}
