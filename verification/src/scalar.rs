use vstd::prelude::*;

verus! {

/// The mathematical rational `n / d` that a `Scalar` stands for.
///
/// Pairs are not reduced, and a denominator may be negative in an
/// intermediate expression such as `rat_div`; `rat_eq` compares by
/// cross-multiplication, which identifies exactly the pairs that stand for
/// the same rational whenever both denominators are nonzero.
pub struct Rat {
    pub n: int,
    pub d: int,
}

pub open spec fn rat_eq(a: Rat, b: Rat) -> bool {
    a.n * b.d == b.n * a.d
}

pub open spec fn rat_of_int(i: int) -> Rat {
    Rat { n: i, d: 1 }
}

pub open spec fn rat_mul(a: Rat, b: Rat) -> Rat {
    Rat { n: a.n * b.n, d: a.d * b.d }
}

pub open spec fn rat_neg(a: Rat) -> Rat {
    Rat { n: -a.n, d: a.d }
}

pub open spec fn rat_add(a: Rat, b: Rat) -> Rat {
    Rat { n: a.n * b.d + b.n * a.d, d: a.d * b.d }
}

pub open spec fn rat_sub(a: Rat, b: Rat) -> Rat {
    Rat { n: a.n * b.d - b.n * a.d, d: a.d * b.d }
}

pub open spec fn rat_div(a: Rat, b: Rat) -> Rat {
    Rat { n: a.n * b.d, d: a.d * b.n }
}

/// Magnitude limit on the numerator of a pixel-valued scalar (a coordinate,
/// a length, a translation component).
pub const PIX_NUM: i128 = 16777216;

/// Limit on the denominator of a pixel-valued scalar: pixel quantities are
/// carried to within one sixteenth of a pixel.
pub const PIX_DEN: i128 = 16;

/// Magnitude limit on the numerator of a unitless factor (a scale axis, a
/// rotation cosine or sine, the device scale).
pub const FAC_NUM: i128 = 65536;

/// Limit on the denominator of a unitless factor.
pub const FAC_DEN: i128 = 4096;

/// An exact rational scalar `num / den` with a positive denominator.
///
/// All geometry in this crate — pixel lengths, scale factors, rotation
/// cosines and sines — is carried as exact rationals, so that every contract
/// can state the value of a quotient or a product precisely. Values are not
/// reduced; two scalars stand for the same rational when `rat_eq` holds of
/// their `rat()` views. The numerator and denominator limits above leave
/// every intermediate product of the transformation composition within the
/// 128-bit range, which the arithmetic operations below demand through their
/// bound parameters.
#[derive(Clone, Copy, Debug, PartialEq, Eq, Structural)]
pub struct Scalar {
    pub num: i128,
    pub den: i128,
}

impl Scalar {
    /// A positive denominator: the single well-formedness condition.
    pub open spec fn wf(self) -> bool {
        self.den > 0
    }

    /// The rational this scalar stands for.
    pub open spec fn rat(self) -> Rat {
        Rat { n: self.num as int, d: self.den as int }
    }

    /// Numerator within `[-n, n]`, denominator within `(0, d]`.
    pub open spec fn bnd(self, n: int, d: int) -> bool {
        &&& -n <= self.num <= n
        &&& 0 < self.den <= d
    }

    /// The bound asked of pixel-valued inputs.
    pub open spec fn pix_bounded(self) -> bool {
        self.bnd(PIX_NUM as int, PIX_DEN as int)
    }

    /// The bound asked of unitless factors.
    pub open spec fn fac_bounded(self) -> bool {
        self.bnd(FAC_NUM as int, FAC_DEN as int)
    }

    pub fn new(num: i128, den: i128) -> (r: Scalar)
        requires
            den > 0,
        ensures
            r.num == num,
            r.den == den,
            r.wf(),
    {
        Scalar { num, den }
    }

    /// Exact product. The ghost pairs carry the caller's bounds on each
    /// operand; the result is bounded by their products.
    pub fn times(self, o: Scalar, Ghost(bs): Ghost<(int, int)>, Ghost(bo): Ghost<(int, int)>) -> (r:
        Scalar)
        requires
            self.bnd(bs.0, bs.1),
            o.bnd(bo.0, bo.1),
            bs.0 * bo.0 <= i128::MAX,
            bs.1 * bo.1 <= i128::MAX,
        ensures
            r.num == self.num * o.num,
            r.den == self.den * o.den,
            r.bnd(bs.0 * bo.0, bs.1 * bo.1),
            r.rat() == rat_mul(self.rat(), o.rat()),
    {
        proof {
            lemma_mul_bounds(self.num as int, o.num as int, bs.0, bo.0);
            lemma_mul_bounds(self.den as int, o.den as int, bs.1, bo.1);
            lemma_mul_pos(self.den as int, o.den as int);
        }
        Scalar { num: self.num * o.num, den: self.den * o.den }
    }

    /// Exact sum over the common denominator.
    pub fn plus(self, o: Scalar, Ghost(bs): Ghost<(int, int)>, Ghost(bo): Ghost<(int, int)>) -> (r:
        Scalar)
        requires
            self.bnd(bs.0, bs.1),
            o.bnd(bo.0, bo.1),
            bs.0 * bo.1 + bo.0 * bs.1 <= i128::MAX,
            bs.1 * bo.1 <= i128::MAX,
        ensures
            r.num == self.num * o.den + o.num * self.den,
            r.den == self.den * o.den,
            r.bnd(bs.0 * bo.1 + bo.0 * bs.1, bs.1 * bo.1),
            r.rat() == rat_add(self.rat(), o.rat()),
    {
        proof {
            lemma_mul_bounds(self.num as int, o.den as int, bs.0, bo.1);
            lemma_mul_bounds(o.num as int, self.den as int, bo.0, bs.1);
            lemma_mul_bounds(self.den as int, o.den as int, bs.1, bo.1);
            lemma_mul_pos(self.den as int, o.den as int);
            lemma_bound_products_nonneg(bs.0, bs.1, bo.0, bo.1);
        }
        Scalar { num: self.num * o.den + o.num * self.den, den: self.den * o.den }
    }

    /// Exact difference over the common denominator.
    pub fn minus(self, o: Scalar, Ghost(bs): Ghost<(int, int)>, Ghost(bo): Ghost<(int, int)>) -> (r:
        Scalar)
        requires
            self.bnd(bs.0, bs.1),
            o.bnd(bo.0, bo.1),
            bs.0 * bo.1 + bo.0 * bs.1 <= i128::MAX,
            bs.1 * bo.1 <= i128::MAX,
        ensures
            r.num == self.num * o.den - o.num * self.den,
            r.den == self.den * o.den,
            r.bnd(bs.0 * bo.1 + bo.0 * bs.1, bs.1 * bo.1),
            r.rat() == rat_sub(self.rat(), o.rat()),
    {
        proof {
            lemma_mul_bounds(self.num as int, o.den as int, bs.0, bo.1);
            lemma_mul_bounds(o.num as int, self.den as int, bo.0, bs.1);
            lemma_mul_bounds(self.den as int, o.den as int, bs.1, bo.1);
            lemma_mul_pos(self.den as int, o.den as int);
            lemma_bound_products_nonneg(bs.0, bs.1, bo.0, bo.1);
        }
        Scalar { num: self.num * o.den - o.num * self.den, den: self.den * o.den }
    }

    /// Exact negation.
    pub fn negate(self) -> (r: Scalar)
        requires
            self.num > i128::MIN,
        ensures
            r.num == -self.num,
            r.den == self.den,
            r.rat() == rat_neg(self.rat()),
    {
        Scalar { num: -self.num, den: self.den }
    }

    /// Exact quotient; the divisor must stand for a nonzero rational. The
    /// sign of the divisor's numerator moves into the result's numerator so
    /// that the denominator stays positive.
    pub fn over(self, o: Scalar, Ghost(bs): Ghost<(int, int)>, Ghost(bo): Ghost<(int, int)>) -> (r:
        Scalar)
        requires
            self.bnd(bs.0, bs.1),
            o.bnd(bo.0, bo.1),
            o.num != 0,
            bs.0 * bo.1 <= i128::MAX,
            bs.1 * bo.0 <= i128::MAX,
        ensures
            r.bnd(bs.0 * bo.1, bs.1 * bo.0),
            r.wf(),
            rat_eq(r.rat(), rat_div(self.rat(), o.rat())),
            o.num > 0 ==> r.num == self.num * o.den && r.den == self.den * o.num,
            o.num < 0 ==> r.num == -(self.num * o.den) && r.den == -(self.den * o.num),
    {
        proof {
            lemma_mul_bounds(self.num as int, o.den as int, bs.0, bo.1);
            lemma_mul_bounds(self.den as int, o.num as int, bs.1, bo.0);
            if o.num > 0 {
                lemma_mul_pos(self.den as int, o.num as int);
            } else {
                lemma_mul_pos(self.den as int, -(o.num as int));
                assert((self.den as int) * (-(o.num as int)) == -((self.den as int) * (
                o.num as int))) by (nonlinear_arith);
                assert((-((self.num as int) * (o.den as int))) * ((self.den as int) * (
                o.num as int)) == ((self.num as int) * (o.den as int)) * (-((self.den as int) * (
                o.num as int)))) by (nonlinear_arith);
            }
        }
        let n = self.num * o.den;
        let d = self.den * o.num;
        if o.num > 0 {
            Scalar { num: n, den: d }
        } else {
            Scalar { num: -n, den: -d }
        }
    }

    /// Whether two scalars stand for the same rational.
    pub fn same_value(self, o: Scalar) -> (r: bool)
        requires
            self.wf(),
            o.wf(),
            -i128::MAX <= self.num * o.den <= i128::MAX,
            -i128::MAX <= o.num * self.den <= i128::MAX,
        ensures
            r == rat_eq(self.rat(), o.rat()),
    {
        self.num * o.den == o.num * self.den
    }
}

pub proof fn lemma_mul_bounds(a: int, b: int, na: int, nb: int)
    by (nonlinear_arith)
    requires
        -na <= a <= na,
        -nb <= b <= nb,
    ensures
        -(na * nb) <= a * b <= na * nb,
{
}

pub proof fn lemma_mul_pos(a: int, b: int)
    by (nonlinear_arith)
    requires
        a > 0,
        b > 0,
    ensures
        a * b > 0,
{
}

proof fn lemma_bound_products_nonneg(n1: int, d1: int, n2: int, d2: int)
    by (nonlinear_arith)
    requires
        n1 >= 0,
        d1 > 0,
        n2 >= 0,
        d2 > 0,
    ensures
        n1 * d2 >= 0,
        n2 * d1 >= 0,
        d1 * d2 > 0,
{
}

} // verus!
