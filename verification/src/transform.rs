use crate::geometry::{CTR_DEN, CTR_NUM, Point, Size};
use crate::scalar::{
    FAC_DEN, FAC_NUM, PIX_DEN, PIX_NUM, Rat, Scalar, rat_add, rat_eq, rat_mul, rat_neg, rat_of_int,
    rat_sub,
};
use vstd::prelude::*;

verus! {

/// A rotation, held as the exact cosine and sine of its angle.
///
/// The trigonometric functions themselves are not rational, so an angle is
/// represented by the pair of values the composition actually reads. The
/// zero angle is the exact pair `(1, 0)`.
#[derive(Clone, Copy, Debug, PartialEq, Eq, Structural)]
pub struct Rotation {
    pub cos: Scalar,
    pub sin: Scalar,
}

impl Rotation {
    pub open spec fn wf(self) -> bool {
        self.cos.wf() && self.sin.wf()
    }

    pub open spec fn fac_bounded(self) -> bool {
        self.cos.fac_bounded() && self.sin.fac_bounded()
    }

    pub open spec fn spec_zero() -> Rotation {
        Rotation { cos: Scalar { num: 1, den: 1 }, sin: Scalar { num: 0, den: 1 } }
    }

    /// The rotation by a zero angle.
    pub fn zero() -> (r: Rotation)
        ensures
            r == Rotation::spec_zero(),
    {
        Rotation { cos: Scalar { num: 1, den: 1 }, sin: Scalar { num: 0, den: 1 } }
    }
}

/// A transformation descriptor for the element: scale and rotate around the
/// element's visual center, then translate. Pure data; the builder methods
/// return an updated copy.
#[derive(Clone, Copy, Debug, PartialEq, Eq, Structural)]
pub struct Transformation {
    pub scale: Size,
    pub translate: Point,
    pub rotate: Rotation,
}

impl Transformation {
    pub open spec fn wf(self) -> bool {
        self.scale.wf() && self.translate.wf() && self.rotate.wf()
    }

    /// The bounds under which composition stays within 128-bit arithmetic.
    pub open spec fn bounded(self) -> bool {
        self.scale.fac_bounded() && self.translate.pix_bounded() && self.rotate.fac_bounded()
    }

    pub open spec fn spec_default() -> Transformation {
        Transformation {
            scale: Size { width: Scalar { num: 1, den: 1 }, height: Scalar { num: 1, den: 1 } },
            translate: Point { x: Scalar { num: 0, den: 1 }, y: Scalar { num: 0, den: 1 } },
            rotate: Rotation::spec_zero(),
        }
    }

    /// A transformation that only scales, by the given factor on each axis.
    pub fn scale(scale: Size) -> (r: Self)
        ensures
            r == (Transformation { scale, ..Transformation::spec_default() }),
    {
        Transformation {
            scale,
            translate: Point { x: Scalar { num: 0, den: 1 }, y: Scalar { num: 0, den: 1 } },
            rotate: Rotation::zero(),
        }
    }

    /// A transformation that only translates, by the given offset.
    pub fn translate(translate: Point) -> (r: Self)
        ensures
            r == (Transformation { translate, ..Transformation::spec_default() }),
    {
        Transformation {
            scale: Size { width: Scalar { num: 1, den: 1 }, height: Scalar { num: 1, den: 1 } },
            translate,
            rotate: Rotation::zero(),
        }
    }

    /// A transformation that only rotates, by the given rotation.
    pub fn rotate(rotate: Rotation) -> (r: Self)
        ensures
            r == (Transformation { rotate, ..Transformation::spec_default() }),
    {
        Transformation {
            scale: Size { width: Scalar { num: 1, den: 1 }, height: Scalar { num: 1, den: 1 } },
            translate: Point { x: Scalar { num: 0, den: 1 }, y: Scalar { num: 0, den: 1 } },
            rotate,
        }
    }

    /// This transformation with the scale replaced.
    pub fn with_scaling(self, scale: Size) -> (r: Self)
        ensures
            r == (Transformation { scale, ..self }),
    {
        Transformation { scale, ..self }
    }

    /// This transformation with the translation replaced.
    pub fn with_translation(self, translate: Point) -> (r: Self)
        ensures
            r == (Transformation { translate, ..self }),
    {
        Transformation { translate, ..self }
    }

    /// This transformation with the rotation replaced.
    pub fn with_rotation(self, rotate: Rotation) -> (r: Self)
        ensures
            r == (Transformation { rotate, ..self }),
    {
        Transformation { rotate, ..self }
    }
}

impl Default for Transformation {
    /// Unit scale, zero translation, zero rotation.
    fn default() -> (r: Self)
        ensures
            r == Transformation::spec_default(),
    {
        Transformation {
            scale: Size { width: Scalar { num: 1, den: 1 }, height: Scalar { num: 1, den: 1 } },
            translate: Point { x: Scalar { num: 0, den: 1 }, y: Scalar { num: 0, den: 1 } },
            rotate: Rotation::zero(),
        }
    }
}

/// A 2D affine transform, applied to a column vector `v` as
/// `[[m11, m12], [m21, m22]] * v + (tx, ty)`.
#[derive(Clone, Copy, Debug, PartialEq, Eq, Structural)]
pub struct Matrix {
    pub m11: Scalar,
    pub m12: Scalar,
    pub m21: Scalar,
    pub m22: Scalar,
    pub tx: Scalar,
    pub ty: Scalar,
}

impl Matrix {
    pub open spec fn wf(self) -> bool {
        self.m11.wf() && self.m12.wf() && self.m21.wf() && self.m22.wf() && self.tx.wf()
            && self.ty.wf()
    }

    pub open spec fn spec_unit() -> Matrix {
        Matrix {
            m11: Scalar { num: 1, den: 1 },
            m12: Scalar { num: 0, den: 1 },
            m21: Scalar { num: 0, den: 1 },
            m22: Scalar { num: 1, den: 1 },
            tx: Scalar { num: 0, den: 1 },
            ty: Scalar { num: 0, den: 1 },
        }
    }

    /// Whether this matrix is the identity transform, as rationals.
    pub open spec fn is_identity(self) -> bool {
        &&& rat_eq(self.m11.rat(), rat_of_int(1))
        &&& rat_eq(self.m12.rat(), rat_of_int(0))
        &&& rat_eq(self.m21.rat(), rat_of_int(0))
        &&& rat_eq(self.m22.rat(), rat_of_int(1))
        &&& rat_eq(self.tx.rat(), rat_of_int(0))
        &&& rat_eq(self.ty.rat(), rat_of_int(0))
    }

    /// The identity transform.
    pub fn unit() -> (r: Matrix)
        ensures
            r == Matrix::spec_unit(),
            r.is_identity(),
            r.wf(),
    {
        Matrix {
            m11: Scalar { num: 1, den: 1 },
            m12: Scalar { num: 0, den: 1 },
            m21: Scalar { num: 0, den: 1 },
            m22: Scalar { num: 1, den: 1 },
            tx: Scalar { num: 0, den: 1 },
            ty: Scalar { num: 0, den: 1 },
        }
    }
}

/// Top-left entry of the composed linear part: `cos * scale_x`.
pub open spec fn lin_m11(t: Transformation) -> Rat {
    rat_mul(t.rotate.cos.rat(), t.scale.width.rat())
}

/// Top-right entry: `-sin * scale_y`.
pub open spec fn lin_m12(t: Transformation) -> Rat {
    rat_mul(rat_neg(t.rotate.sin.rat()), t.scale.height.rat())
}

/// Bottom-left entry: `sin * scale_x`.
pub open spec fn lin_m21(t: Transformation) -> Rat {
    rat_mul(t.rotate.sin.rat(), t.scale.width.rat())
}

/// Bottom-right entry: `cos * scale_y`.
pub open spec fn lin_m22(t: Transformation) -> Rat {
    rat_mul(t.rotate.cos.rat(), t.scale.height.rat())
}

/// Horizontal translation of the composed transform:
/// `ds * ((pivot_x + translate_x) - (m11 * pivot_x + m12 * pivot_y))`.
///
/// The pivot is subtracted before the linear part and re-added, together
/// with the user translation, after it; the device scale multiplies every
/// translation component and nothing of the linear part.
pub open spec fn trans_x(t: Transformation, pivot: Point, ds: Scalar) -> Rat {
    rat_mul(
        rat_sub(
            rat_add(pivot.x.rat(), t.translate.x.rat()),
            rat_add(rat_mul(lin_m11(t), pivot.x.rat()), rat_mul(lin_m12(t), pivot.y.rat())),
        ),
        ds.rat(),
    )
}

/// Vertical translation of the composed transform.
pub open spec fn trans_y(t: Transformation, pivot: Point, ds: Scalar) -> Rat {
    rat_mul(
        rat_sub(
            rat_add(pivot.y.rat(), t.translate.y.rat()),
            rat_add(rat_mul(lin_m21(t), pivot.x.rat()), rat_mul(lin_m22(t), pivot.y.rat())),
        ),
        ds.rat(),
    )
}

impl Transformation {
    /// Compose this descriptor into a single affine matrix: translate the
    /// pivot to the origin, scale, rotate, then translate back to the pivot
    /// plus this descriptor's translation, with the pivot and every
    /// translation pre-scaled by the device scale factor.
    pub fn into_matrix(self, center: Point, scale_factor: Scalar) -> (r: Matrix)
        requires
            self.bounded(),
            center.ctr_bounded(),
            scale_factor.fac_bounded(),
        ensures
            r.wf(),
            r.m11.rat() == lin_m11(self),
            r.m12.rat() == lin_m12(self),
            r.m21.rat() == lin_m21(self),
            r.m22.rat() == lin_m22(self),
            r.tx.rat() == trans_x(self, center, scale_factor),
            r.ty.rat() == trans_y(self, center, scale_factor),
    {
        proof {
            assert(PIX_NUM == 16777216 && PIX_DEN == 16 && FAC_NUM == 65536 && FAC_DEN == 4096
                && CTR_NUM == 805306368 && CTR_DEN == 512);
        }
        // Bounds of each intermediate, as literals so that every product the
        // arithmetic operations demand is ground. Loose powers of two stand
        // in for the exact products; the largest, 1 << 110 times 65536, is
        // 1 << 126 and stays within the 128-bit range.
        let ghost bp = (16777216int, 16int);
        let ghost bf = (65536int, 4096int);
        let ghost bc = (805306368int, 512int);
        let ghost bm = (4294967296int, 16777216int);
        let ghost bt = (4611686018427387904int, 8589934592int);
        let ghost bs = (79228162514264337593543950336int, 73786976294838206464int);
        let ghost ba = (34359738368int, 8192int);
        let ghost bd = (1298074214633706907132624082305024int, 604462909807314587353088int);

        let m11 = self.rotate.cos.times(self.scale.width, Ghost(bf), Ghost(bf));
        let m12 = self.rotate.sin.negate().times(self.scale.height, Ghost(bf), Ghost(bf));
        let m21 = self.rotate.sin.times(self.scale.width, Ghost(bf), Ghost(bf));
        let m22 = self.rotate.cos.times(self.scale.height, Ghost(bf), Ghost(bf));

        let ax = center.x.plus(self.translate.x, Ghost(bc), Ghost(bp));
        let bx = m11.times(center.x, Ghost(bm), Ghost(bc)).plus(
            m12.times(center.y, Ghost(bm), Ghost(bc)),
            Ghost(bt),
            Ghost(bt),
        );
        let tx = ax.minus(bx, Ghost(ba), Ghost(bs)).times(scale_factor, Ghost(bd), Ghost(bf));

        let ay = center.y.plus(self.translate.y, Ghost(bc), Ghost(bp));
        let by = m21.times(center.x, Ghost(bm), Ghost(bc)).plus(
            m22.times(center.y, Ghost(bm), Ghost(bc)),
            Ghost(bt),
            Ghost(bt),
        );
        let ty = ay.minus(by, Ghost(ba), Ghost(bs)).times(scale_factor, Ghost(bd), Ghost(bf));

        Matrix { m11, m12, m21, m22, tx, ty }
    }
}

/// Rearranging a product of five factors.
proof fn lemma_shuffle(a: int, b: int, c: int, d: int, k: int)
    by (nonlinear_arith)
    ensures
        ((a * k) * b) * (c * d) == (a * b) * ((c * k) * d),
{
}

/// The shared part of the two composition laws: with a unit scale and zero
/// rotation the linear entries are the identity and the translation
/// components reduce to `translate * device_scale`.
proof fn lemma_unit_linear_part(t: Transformation, pivot: Point, ds: Scalar)
    requires
        t.rotate == Rotation::spec_zero(),
        t.scale.width == (Scalar { num: 1, den: 1 }),
        t.scale.height == (Scalar { num: 1, den: 1 }),
        t.translate.wf(),
        pivot.wf(),
        ds.wf(),
    ensures
        rat_eq(lin_m11(t), rat_of_int(1)),
        rat_eq(lin_m12(t), rat_of_int(0)),
        rat_eq(lin_m21(t), rat_of_int(0)),
        rat_eq(lin_m22(t), rat_of_int(1)),
        rat_eq(trans_x(t, pivot, ds), rat_mul(t.translate.x.rat(), ds.rat())),
        rat_eq(trans_y(t, pivot, ds), rat_mul(t.translate.y.rat(), ds.rat())),
        t.translate.x == (Scalar { num: 0, den: 1 }) ==> trans_x(t, pivot, ds).n == 0,
        t.translate.y == (Scalar { num: 0, den: 1 }) ==> trans_y(t, pivot, ds).n == 0,
{
    let cn = t.rotate.cos.num as int;
    let cd = t.rotate.cos.den as int;
    let sn = t.rotate.sin.num as int;
    let sd = t.rotate.sin.den as int;
    let wn = t.scale.width.num as int;
    let wd = t.scale.width.den as int;
    let hn = t.scale.height.num as int;
    let hd = t.scale.height.den as int;
    let pxn = pivot.x.num as int;
    let pxd = pivot.x.den as int;
    let pyn = pivot.y.num as int;
    let pyd = pivot.y.den as int;
    let uxn = t.translate.x.num as int;
    let uxd = t.translate.x.den as int;
    let uyn = t.translate.y.num as int;
    let uyd = t.translate.y.den as int;
    let dn = ds.num as int;
    let dd = ds.den as int;
    assert(cn * wn == 1 && cd * wd == 1 && (-sn) * hn == 0 && sd * hd == 1 && sn * wn == 0 && sd
        * wd == 1 && cn * hn == 1 && cd * hd == 1) by (nonlinear_arith)
        requires
            cn == 1,
            cd == 1,
            sn == 0,
            sd == 1,
            wn == 1,
            wd == 1,
            hn == 1,
            hd == 1,
    ;
    // The composed translation components, in the shape trans_x and trans_y
    // build them.
    assert(trans_x(t, pivot, ds).n == ((pxn * uxd + uxn * pxd) * (((cd * wd) * pxd) * ((sd * hd)
        * pyd)) - (((cn * wn) * pxn) * ((sd * hd) * pyd) + (((-sn) * hn) * pyn) * ((cd * wd)
        * pxd)) * (pxd * uxd)) * dn);
    assert(trans_x(t, pivot, ds).d == ((pxd * uxd) * (((cd * wd) * pxd) * ((sd * hd) * pyd)))
        * dd);
    assert(trans_y(t, pivot, ds).n == ((pyn * uyd + uyn * pyd) * (((sd * wd) * pxd) * ((cd * hd)
        * pyd)) - (((sn * wn) * pxn) * ((cd * hd) * pyd) + ((cn * hn) * pyn) * ((sd * wd) * pxd))
        * (pyd * uyd)) * dn);
    assert(trans_y(t, pivot, ds).d == ((pyd * uyd) * (((sd * wd) * pxd) * ((cd * hd) * pyd)))
        * dd);
    // The unit factors drop out of the products.
    assert(((cd * wd) * pxd) * ((sd * hd) * pyd) == pxd * pyd) by (nonlinear_arith)
        requires
            cd == 1,
            wd == 1,
            sd == 1,
            hd == 1,
    ;
    assert(((cn * wn) * pxn) * ((sd * hd) * pyd) + (((-sn) * hn) * pyn) * ((cd * wd) * pxd) == pxn
        * pyd) by (nonlinear_arith)
        requires
            cn == 1,
            cd == 1,
            sn == 0,
            sd == 1,
            wn == 1,
            wd == 1,
            hn == 1,
            hd == 1,
    ;
    assert(((sd * wd) * pxd) * ((cd * hd) * pyd) == pxd * pyd) by (nonlinear_arith)
        requires
            cd == 1,
            wd == 1,
            sd == 1,
            hd == 1,
    ;
    assert(((sn * wn) * pxn) * ((cd * hd) * pyd) + ((cn * hn) * pyn) * ((sd * wd) * pxd) == pyn
        * pxd) by (nonlinear_arith)
        requires
            cn == 1,
            cd == 1,
            sn == 0,
            sd == 1,
            wn == 1,
            wd == 1,
            hn == 1,
            hd == 1,
    ;
    // What remains is a ring identity on each axis.
    assert((pxn * uxd + uxn * pxd) * (pxd * pyd) - (pxn * pyd) * (pxd * uxd) == uxn * (pxd * (pxd
        * pyd))) by (nonlinear_arith);
    assert((pxd * uxd) * (pxd * pyd) == uxd * (pxd * (pxd * pyd))) by (nonlinear_arith);
    lemma_shuffle(uxn, dn, uxd, dd, pxd * (pxd * pyd));
    assert((pyn * uyd + uyn * pyd) * (pxd * pyd) - (pyn * pxd) * (pyd * uyd) == uyn * (pyd * (pxd
        * pyd))) by (nonlinear_arith);
    assert((pyd * uyd) * (pxd * pyd) == uyd * (pyd * (pxd * pyd))) by (nonlinear_arith);
    lemma_shuffle(uyn, dn, uyd, dd, pyd * (pxd * pyd));
    if t.translate.x == (Scalar { num: 0, den: 1 }) {
        assert(((pxn * 1 + 0 * pxd) * (pxd * pyd) - (pxn * pyd) * (pxd * 1)) * dn == 0)
            by (nonlinear_arith);
    }
    if t.translate.y == (Scalar { num: 0, den: 1 }) {
        assert(((pyn * 1 + 0 * pyd) * (pxd * pyd) - (pyn * pxd) * (pyd * 1)) * dn == 0)
            by (nonlinear_arith);
    }
}

/// Law: the default transformation composes to the identity matrix, for
/// every pivot and every device scale factor.
pub proof fn lemma_default_composes_to_identity(t: Transformation, pivot: Point, ds: Scalar)
    requires
        t == Transformation::spec_default(),
        pivot.wf(),
        ds.wf(),
    ensures
        rat_eq(lin_m11(t), rat_of_int(1)),
        rat_eq(lin_m12(t), rat_of_int(0)),
        rat_eq(lin_m21(t), rat_of_int(0)),
        rat_eq(lin_m22(t), rat_of_int(1)),
        rat_eq(trans_x(t, pivot, ds), rat_of_int(0)),
        rat_eq(trans_y(t, pivot, ds), rat_of_int(0)),
{
    lemma_unit_linear_part(t, pivot, ds);
}

/// Law: with a zero rotation and a unit scale the composition is a pure
/// translation: it translates by exactly `translate * device_scale`,
/// whatever the pivot, and its linear part is the identity.
pub proof fn lemma_pure_translation_ignores_pivot(t: Transformation, pivot: Point, ds: Scalar)
    requires
        t.rotate == Rotation::spec_zero(),
        t.scale.width == (Scalar { num: 1, den: 1 }),
        t.scale.height == (Scalar { num: 1, den: 1 }),
        t.translate.wf(),
        pivot.wf(),
        ds.wf(),
    ensures
        rat_eq(lin_m11(t), rat_of_int(1)),
        rat_eq(lin_m12(t), rat_of_int(0)),
        rat_eq(lin_m21(t), rat_of_int(0)),
        rat_eq(lin_m22(t), rat_of_int(1)),
        rat_eq(trans_x(t, pivot, ds), rat_mul(t.translate.x.rat(), ds.rat())),
        rat_eq(trans_y(t, pivot, ds), rat_mul(t.translate.y.rat(), ds.rat())),
{
    lemma_unit_linear_part(t, pivot, ds);
}

} // verus!
