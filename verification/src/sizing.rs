use crate::geometry::{AbsoluteLength, DefiniteLength, Length};
use crate::scalar::{PIX_DEN, PIX_NUM, Rat, Scalar, rat_div, rat_eq, rat_mul, rat_of_int};
use vstd::prelude::*;

verus! {

/// The natural size encoded in vector-graphics content, in whole pixels.
#[derive(Clone, Copy, Debug, PartialEq, Eq, Structural)]
pub struct IntrinsicSize {
    pub width: u32,
    pub height: u32,
}

impl IntrinsicSize {
    /// Only a strictly positive intrinsic size yields an aspect ratio.
    pub open spec fn positive(self) -> bool {
        self.width > 0 && self.height > 0
    }

    /// The aspect ratio `width / height`, exactly.
    pub open spec fn ar(self) -> Rat {
        Rat { n: self.width as int, d: self.height as int }
    }
}

/// An absolute length in pixels: pixels stand as they are, rems multiply the
/// root font size.
pub open spec fn to_pixels_rat(a: AbsoluteLength, rem: Scalar) -> Rat {
    match a {
        AbsoluteLength::Pixels(p) => p.rat(),
        AbsoluteLength::Rems(r) => rat_mul(r.rat(), rem.rat()),
    }
}

/// Converts an absolute length to pixels.
pub fn to_pixels(a: AbsoluteLength, rem: Scalar) -> (r: Scalar)
    requires
        a.pix_bounded(),
        rem.pix_bounded(),
    ensures
        r.wf(),
        r.bnd(281474976710656, 256),
        r.rat() == to_pixels_rat(a, rem),
{
    proof {
        assert(PIX_NUM == 16777216 && PIX_DEN == 16);
    }
    match a {
        AbsoluteLength::Pixels(p) => p,
        AbsoluteLength::Rems(rm) => rm.times(rem, Ghost((16777216int, 16int)), Ghost((16777216int,
        16int))),
    }
}

/// The width the resolver derives for an `Auto` width: anchored on a definite
/// absolute height when there is one, otherwise the raw intrinsic width. A
/// relative (fraction) height is never an anchor, since it cannot be resolved
/// to pixels at this stage.
pub open spec fn derived_width_rat(intr: IntrinsicSize, style_height: Length, rem: Scalar) -> Rat {
    match style_height {
        Length::Definite(DefiniteLength::Absolute(h)) => rat_mul(intr.ar(), to_pixels_rat(h, rem)),
        _ => rat_of_int(intr.width as int),
    }
}

/// The height the resolver derives for an `Auto` height, symmetrically.
pub open spec fn derived_height_rat(intr: IntrinsicSize, style_width: Length, rem: Scalar) -> Rat {
    match style_width {
        Length::Definite(DefiniteLength::Absolute(w)) => rat_div(to_pixels_rat(w, rem), intr.ar()),
        _ => rat_of_int(intr.height as int),
    }
}

/// What one sizing pass produces: an aspect-ratio hint for the layout
/// engine, and a definite pixel length for each axis that was `Auto`.
#[derive(Clone, Copy, Debug, PartialEq, Eq)]
pub struct ResolvedSize {
    pub aspect_ratio: Option<Scalar>,
    pub derived_width: Option<Length>,
    pub derived_height: Option<Length>,
}

impl ResolvedSize {
    /// The result when nothing can be derived.
    pub open spec fn spec_absent() -> ResolvedSize {
        ResolvedSize { aspect_ratio: None, derived_width: None, derived_height: None }
    }
}

/// What `resolve` returns for a positive intrinsic size: the exact aspect
/// ratio, and a definite derived pixel length exactly for the axes that were
/// `Auto`.
pub open spec fn resolves_for(
    i: IntrinsicSize,
    style_width: Length,
    style_height: Length,
    rem: Scalar,
    r: ResolvedSize,
) -> bool {
    &&& r.aspect_ratio == Some(Scalar { num: i.width as i128, den: i.height as i128 })
    &&& (r.derived_width is Some <==> style_width is Auto)
    &&& (r.derived_height is Some <==> style_height is Auto)
    &&& (style_width is Auto ==> (r.derived_width matches Some(
        Length::Definite(DefiniteLength::Absolute(AbsoluteLength::Pixels(dw))),
    ) && dw.wf() && rat_eq(dw.rat(), derived_width_rat(i, style_height, rem))))
    &&& (style_height is Auto ==> (r.derived_height matches Some(
        Length::Definite(DefiniteLength::Absolute(AbsoluteLength::Pixels(dh))),
    ) && dh.wf() && rat_eq(dh.rat(), derived_height_rat(i, style_width, rem))))
}

/// Resolves the aspect ratio and the auto-sized axes from the intrinsic
/// content size and the style's declared lengths.
///
/// Without a positive intrinsic size everything stays absent and layout
/// proceeds with what the style already specifies. Otherwise the aspect
/// ratio is `width / height` exactly, always set, and each `Auto` axis gets
/// a definite pixel value: cross-derived through the aspect ratio when the
/// other axis is a definite absolute length, and the axis's own raw
/// intrinsic dimension otherwise. An axis that is already definite is never
/// overwritten.
pub fn resolve(
    intrinsic: Option<IntrinsicSize>,
    style_width: Length,
    style_height: Length,
    rem: Scalar,
) -> (r: ResolvedSize)
    requires
        style_width.pix_bounded(),
        style_height.pix_bounded(),
        rem.pix_bounded(),
    ensures
        intrinsic is None ==> r == ResolvedSize::spec_absent(),
        intrinsic matches Some(i) && !i.positive() ==> r == ResolvedSize::spec_absent(),
        intrinsic matches Some(i) ==> (i.positive() ==> resolves_for(
            i,
            style_width,
            style_height,
            rem,
            r,
        )),
{
    let absent = ResolvedSize { aspect_ratio: None, derived_width: None, derived_height: None };
    match intrinsic {
        None => absent,
        Some(i) => {
            if i.width == 0 || i.height == 0 {
                absent
            } else {
                let ar = Scalar { num: i.width as i128, den: i.height as i128 };
                let ghost bar = (4294967296int, 4294967296int);
                let ghost btp = (281474976710656int, 256int);
                let derived_width: Option<Length> = match style_width {
                    Length::Auto => {
                        let dw = match style_height {
                            Length::Definite(DefiniteLength::Absolute(h)) => ar.times(
                                to_pixels(h, rem),
                                Ghost(bar),
                                Ghost(btp),
                            ),
                            _ => Scalar { num: i.width as i128, den: 1 },
                        };
                        Some(
                            Length::Definite(
                                DefiniteLength::Absolute(AbsoluteLength::Pixels(dw)),
                            ),
                        )
                    },
                    _ => None,
                };
                let derived_height: Option<Length> = match style_height {
                    Length::Auto => {
                        let dh = match style_width {
                            Length::Definite(DefiniteLength::Absolute(w)) => to_pixels(
                                w,
                                rem,
                            ).over(ar, Ghost(btp), Ghost(bar)),
                            _ => Scalar { num: i.height as i128, den: 1 },
                        };
                        Some(
                            Length::Definite(
                                DefiniteLength::Absolute(AbsoluteLength::Pixels(dh)),
                            ),
                        )
                    },
                    _ => None,
                };
                ResolvedSize { aspect_ratio: Some(ar), derived_width, derived_height }
            }
        },
    }
}

} // verus!
