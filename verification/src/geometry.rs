use crate::scalar::{PIX_DEN, PIX_NUM, Rat, Scalar, rat_add, rat_div, rat_of_int};
use vstd::prelude::*;

verus! {

/// Numerator limit of a bounds center: the midpoint of two pixel-bounded
/// scalars stays within `3 * PIX_NUM * PIX_DEN`.
pub const CTR_NUM: i128 = 805306368;

/// Denominator limit of a bounds center: `2 * PIX_DEN * PIX_DEN`.
pub const CTR_DEN: i128 = 512;

/// A point in device-independent pixels.
#[derive(Clone, Copy, Debug, PartialEq, Eq, Structural)]
pub struct Point {
    pub x: Scalar,
    pub y: Scalar,
}

impl Point {
    pub open spec fn wf(self) -> bool {
        self.x.wf() && self.y.wf()
    }

    pub open spec fn pix_bounded(self) -> bool {
        self.x.pix_bounded() && self.y.pix_bounded()
    }

    /// The bound that holds of a bounds center.
    pub open spec fn ctr_bounded(self) -> bool {
        self.x.bnd(CTR_NUM as int, CTR_DEN as int) && self.y.bnd(CTR_NUM as int, CTR_DEN as int)
    }
}

/// A width and height pair.
#[derive(Clone, Copy, Debug, PartialEq, Eq, Structural)]
pub struct Size {
    pub width: Scalar,
    pub height: Scalar,
}

impl Size {
    pub open spec fn wf(self) -> bool {
        self.width.wf() && self.height.wf()
    }

    pub open spec fn pix_bounded(self) -> bool {
        self.width.pix_bounded() && self.height.pix_bounded()
    }

    pub open spec fn fac_bounded(self) -> bool {
        self.width.fac_bounded() && self.height.fac_bounded()
    }
}

/// An axis-aligned rectangle: origin and size, in device-independent pixels.
#[derive(Clone, Copy, Debug, PartialEq, Eq, Structural)]
pub struct Bounds {
    pub origin: Point,
    pub size: Size,
}

/// The horizontal midpoint of a bounds rectangle, as a rational.
pub open spec fn center_x_rat(b: Bounds) -> Rat {
    rat_add(b.origin.x.rat(), rat_div(b.size.width.rat(), rat_of_int(2)))
}

/// The vertical midpoint of a bounds rectangle, as a rational.
pub open spec fn center_y_rat(b: Bounds) -> Rat {
    rat_add(b.origin.y.rat(), rat_div(b.size.height.rat(), rat_of_int(2)))
}

impl Bounds {
    pub open spec fn wf(self) -> bool {
        self.origin.wf() && self.size.wf()
    }

    pub open spec fn pix_bounded(self) -> bool {
        self.origin.pix_bounded() && self.size.pix_bounded()
    }

    /// The visual center, `origin + size / 2` on each axis, exactly.
    pub fn center(self) -> (r: Point)
        requires
            self.pix_bounded(),
        ensures
            r.wf(),
            r.ctr_bounded(),
            r.x.rat() == center_x_rat(self),
            r.y.rat() == center_y_rat(self),
    {
        let two = Scalar::new(2, 1);
        let half_w = self.size.width.over(
            two,
            Ghost((PIX_NUM as int, PIX_DEN as int)),
            Ghost((2, 1)),
        );
        let half_h = self.size.height.over(
            two,
            Ghost((PIX_NUM as int, PIX_DEN as int)),
            Ghost((2, 1)),
        );
        let x = self.origin.x.plus(
            half_w,
            Ghost((PIX_NUM as int, PIX_DEN as int)),
            Ghost(((PIX_NUM as int) * 1, (PIX_DEN as int) * 2)),
        );
        let y = self.origin.y.plus(
            half_h,
            Ghost((PIX_NUM as int, PIX_DEN as int)),
            Ghost(((PIX_NUM as int) * 1, (PIX_DEN as int) * 2)),
        );
        Point { x, y }
    }
}

/// An absolute style length: device-independent pixels, or a multiple of the
/// root font size.
#[derive(Clone, Copy, Debug, PartialEq, Eq, Structural)]
pub enum AbsoluteLength {
    Pixels(Scalar),
    Rems(Scalar),
}

impl AbsoluteLength {
    pub open spec fn wf(self) -> bool {
        match self {
            AbsoluteLength::Pixels(s) => s.wf(),
            AbsoluteLength::Rems(s) => s.wf(),
        }
    }

    pub open spec fn pix_bounded(self) -> bool {
        match self {
            AbsoluteLength::Pixels(s) => s.pix_bounded(),
            AbsoluteLength::Rems(s) => s.pix_bounded(),
        }
    }
}

/// A definite style length: absolute, or a fraction of the parent.
#[derive(Clone, Copy, Debug, PartialEq, Eq, Structural)]
pub enum DefiniteLength {
    Absolute(AbsoluteLength),
    Fraction(Scalar),
}

impl DefiniteLength {
    pub open spec fn wf(self) -> bool {
        match self {
            DefiniteLength::Absolute(a) => a.wf(),
            DefiniteLength::Fraction(s) => s.wf(),
        }
    }

    pub open spec fn pix_bounded(self) -> bool {
        match self {
            DefiniteLength::Absolute(a) => a.pix_bounded(),
            DefiniteLength::Fraction(s) => s.pix_bounded(),
        }
    }
}

/// A style length for one axis: automatic, or definite.
#[derive(Clone, Copy, Debug, PartialEq, Eq, Structural)]
pub enum Length {
    Auto,
    Definite(DefiniteLength),
}

impl Length {
    pub open spec fn wf(self) -> bool {
        match self {
            Length::Auto => true,
            Length::Definite(d) => d.wf(),
        }
    }

    pub open spec fn pix_bounded(self) -> bool {
        match self {
            Length::Auto => true,
            Length::Definite(d) => d.pix_bounded(),
        }
    }
}

} // verus!
