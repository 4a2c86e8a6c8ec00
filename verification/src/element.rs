use crate::cache::{AssetCache, FetchDirective, FetchModel};
use crate::geometry::{Bounds, Length, center_x_rat, center_y_rat};
use crate::scalar::{Rat, Scalar, rat_add, rat_mul, rat_sub};
use crate::sizing::{IntrinsicSize, ResolvedSize, resolve, resolves_for};
use crate::transform::{Matrix, Transformation, lin_m11, lin_m12, lin_m21, lin_m22};
use vstd::prelude::*;

verus! {

/// The foreground color a style resolves to, as 8-bit channels. An element
/// whose style resolves no color draws nothing by design.
#[derive(Clone, Copy, Debug, PartialEq, Eq, Structural)]
pub struct Rgba {
    pub r: u8,
    pub g: u8,
    pub b: u8,
    pub a: u8,
}

/// The intrinsic size that parsing vector-graphics content yields, in whole
/// pixels, or nothing when the bytes are not valid content. A function of
/// the bytes alone.
pub uninterp spec fn svg_intrinsic_of(bytes: Seq<u8>) -> Option<(u32, u32)>;

/// Relies on usvg::Tree::from_data and usvg::Tree::size: parsing computes
/// the intrinsic size from the bytes alone, and fails on bytes that are not
/// valid vector-graphics content.
#[verifier::external_body]
fn parse_intrinsic(bytes: &Vec<u8>) -> (r: Option<(u32, u32)>)
    ensures
        r == svg_intrinsic_of(bytes@),
{
    match usvg::Tree::from_data(bytes, &usvg::Options::default()) {
        Ok(tree) => {
            let size = tree.size();
            Some((size.width() as u32, size.height() as u32))
        },
        Err(_) => None,
    }
}

/// The intrinsic size the layout probe stores for these bytes.
pub open spec fn probed(bytes: Seq<u8>) -> Option<IntrinsicSize> {
    match svg_intrinsic_of(bytes) {
        Some(wh) => Some(IntrinsicSize { width: wh.0, height: wh.1 }),
        None => None,
    }
}

/// An SVG element: a renderable node that resolves its intrinsic size
/// during layout and its image bytes at paint time.
pub struct Svg {
    pub transformation: Option<Transformation>,
    pub size: Option<IntrinsicSize>,
    pub path: Option<String>,
    pub external_path: Option<String>,
}

/// Create a new SVG element.
pub fn svg() -> (r: Svg)
    ensures
        r.transformation is None,
        r.size is None,
        r.path is None,
        r.external_path is None,
{
    Svg { transformation: None, size: None, path: None, external_path: None }
}

/// The horizontal translation of the transform this element paints with:
/// the composition around the bounds center, every translation pre-scaled
/// by the device scale.
pub open spec fn paint_trans_x(t: Transformation, b: Bounds, ds: Scalar) -> Rat {
    rat_mul(
        rat_sub(
            rat_add(center_x_rat(b), t.translate.x.rat()),
            rat_add(rat_mul(lin_m11(t), center_x_rat(b)), rat_mul(lin_m12(t), center_y_rat(b))),
        ),
        ds.rat(),
    )
}

/// The vertical counterpart of `paint_trans_x`.
pub open spec fn paint_trans_y(t: Transformation, b: Bounds, ds: Scalar) -> Rat {
    rat_mul(
        rat_sub(
            rat_add(center_y_rat(b), t.translate.y.rat()),
            rat_add(rat_mul(lin_m21(t), center_x_rat(b)), rat_mul(lin_m22(t), center_y_rat(b))),
        ),
        ds.rat(),
    )
}

/// Whether `m` is the transform this element paints with: the identity when
/// no descriptor is set, otherwise the descriptor composed around the
/// bounds center.
pub open spec fn composed_ok(tr: Option<Transformation>, b: Bounds, ds: Scalar, m: Matrix) -> bool {
    match tr {
        None => m == Matrix::spec_unit(),
        Some(t) => {
            &&& m.wf()
            &&& m.m11.rat() == lin_m11(t)
            &&& m.m12.rat() == lin_m12(t)
            &&& m.m21.rat() == lin_m21(t)
            &&& m.m22.rat() == lin_m22(t)
            &&& m.tx.rat() == paint_trans_x(t, b, ds)
            &&& m.ty.rat() == paint_trans_y(t, b, ds)
        },
    }
}

/// One draw call, ready for submission to the renderer. Raw bytes are
/// present only for the external path; their absence tells the renderer to
/// draw from the registered source named by the identifier.
pub struct DrawCall {
    pub bounds: Bounds,
    pub source_id: String,
    pub raw_bytes: Option<Vec<u8>>,
    pub transform: Matrix,
    pub color: Rgba,
}

/// What one paint pass does for this element.
pub enum PaintStep {
    /// Nothing to draw this pass.
    Skip,
    /// Draw nothing this pass, and perform the single external read for
    /// this location; its outcome goes to `AssetCache::complete`.
    Fetch(String),
    /// Submit exactly this draw call.
    Draw(DrawCall),
}

impl Svg {
    /// Set the identifier of the pre-registered content source for this
    /// element.
    pub fn path(self, path: String) -> (r: Svg)
        ensures
            r == (Svg { path: Some(path), ..self }),
    {
        Svg { path: Some(path), ..self }
    }

    /// Set the external location to load this element's content from.
    pub fn external_path(self, path: String) -> (r: Svg)
        ensures
            r == (Svg { external_path: Some(path), ..self }),
    {
        Svg { external_path: Some(path), ..self }
    }

    /// Transform the element with the given transformation. This affects
    /// only the rendering, never the layout bounds or hit-testing geometry.
    pub fn with_transformation(self, transformation: Transformation) -> (r: Svg)
        ensures
            r == (Svg { transformation: Some(transformation), ..self }),
    {
        Svg { transformation: Some(transformation), ..self }
    }

    /// The layout-phase computation: on the first pass with registered
    /// bytes at hand, probe the intrinsic size and cache it on this
    /// instance; then resolve the aspect ratio and the auto-sized axes.
    ///
    /// The per-instance size cache is write-once: once set it is never
    /// recomputed for this node instance.
    pub fn request_layout(
        &mut self,
        loaded: Option<&Vec<u8>>,
        style_width: Length,
        style_height: Length,
        rem: Scalar,
    ) -> (r: ResolvedSize)
        requires
            style_width.pix_bounded(),
            style_height.pix_bounded(),
            rem.pix_bounded(),
        ensures
            final(self).transformation == old(self).transformation,
            final(self).path == old(self).path,
            final(self).external_path == old(self).external_path,
            old(self).size is Some ==> final(self).size == old(self).size,
            old(self).size is None && (old(self).path is None || loaded is None)
                ==> final(self).size is None,
            old(self).size is None && old(self).path is Some ==> (loaded matches Some(b)
                ==> final(self).size == probed(b@)),
            final(self).size is None ==> r == ResolvedSize::spec_absent(),
            final(self).size matches Some(i) ==> (!i.positive() ==> r
                == ResolvedSize::spec_absent()),
            final(self).size matches Some(i) ==> (i.positive() ==> resolves_for(
                i,
                style_width,
                style_height,
                rem,
                r,
            )),
    {
        if self.size.is_none() && self.path.is_some() {
            if let Some(b) = loaded {
                if let Some((w, h)) = parse_intrinsic(b) {
                    self.size = Some(IntrinsicSize { width: w, height: h });
                }
            }
        }
        resolve(self.size, style_width, style_height, rem)
    }

    /// The paint-phase decision: which draw call, if any, this pass
    /// submits, and whether an external read must be started.
    ///
    /// No resolved color means nothing is drawn, whatever else is set. With
    /// a color, a registered identifier takes precedence: its draw call
    /// carries no raw bytes and the cache is not consulted. Otherwise an
    /// external identifier draws the cached bytes when its fetch has
    /// settled with bytes, and draws nothing when the fetch is still in
    /// flight or settled with a failure, without ever reading again.
    pub fn paint(
        &self,
        color: Option<Rgba>,
        bounds: Bounds,
        device_scale: Scalar,
        cache: &mut AssetCache,
    ) -> (r: PaintStep)
        requires
            old(cache).wf(),
            bounds.pix_bounded(),
            device_scale.fac_bounded(),
            self.transformation matches Some(t) ==> t.bounded(),
        ensures
            final(cache).wf(),
            color is None || self.path is Some || self.external_path is None ==> *final(cache)
                == *old(cache),
            color is None ==> r is Skip,
            self.path is None && self.external_path is None ==> r is Skip,
            self.path matches Some(p) ==> (color matches Some(c) ==> (r matches PaintStep::Draw(d)
                && d.source_id@ == p@ && d.raw_bytes is None && d.color == c && d.bounds == bounds
                && composed_ok(self.transformation, bounds, device_scale, d.transform))),
            self.path is None && color is Some ==> (self.external_path matches Some(e)
                ==> (!old(cache).has(e@) ==> (r matches PaintStep::Fetch(f) && f@ == e@
                && final(cache).has(e@) && final(cache).state_of(e@) == FetchModel::InFlight))),
            self.path is None && color is Some ==> (self.external_path matches Some(e)
                ==> (old(cache).has(e@) ==> *final(cache) == *old(cache))),
            self.path is None && color is Some ==> (self.external_path matches Some(e)
                ==> (old(cache).has(e@) && old(cache).state_of(e@) == FetchModel::InFlight
                ==> r is Skip)),
            self.path is None && color is Some ==> (self.external_path matches Some(e)
                ==> (old(cache).has(e@) && old(cache).state_of(e@) == FetchModel::Failed
                ==> r is Skip)),
            self.path is None && color is Some ==> (self.external_path matches Some(e) ==> (color
                matches Some(c) ==> (old(cache).state_of(e@) matches FetchModel::Loaded(bs) ==> (
            old(cache).has(e@) ==> (r matches PaintStep::Draw(d) && d.source_id@ == e@
                && (d.raw_bytes matches Some(rb) && rb@ == bs) && d.color == c && d.bounds
                == bounds && composed_ok(
                self.transformation,
                bounds,
                device_scale,
                d.transform,
            )))))),
            self.path is None && color is Some ==> (self.external_path matches Some(e) ==> forall|
                k2: Seq<char>,
            |
                k2 != e@ ==> final(cache).has(k2) == old(cache).has(k2) && (old(cache).has(k2)
                    ==> final(cache).state_of(k2) == old(cache).state_of(k2))),
    {
        let c = match color {
            Some(c) => c,
            None => {
                return PaintStep::Skip;
            },
        };
        if let Some(p) = &self.path {
            let m = self.compose(bounds, device_scale);
            return PaintStep::Draw(
                DrawCall {
                    bounds,
                    source_id: p.clone(),
                    raw_bytes: None,
                    transform: m,
                    color: c,
                },
            );
        }
        if let Some(e) = &self.external_path {
            match cache.request(e) {
                FetchDirective::StartRead => {
                    return PaintStep::Fetch(e.clone());
                },
                FetchDirective::Wait => {
                    return PaintStep::Skip;
                },
                FetchDirective::Ready(Ok(bytes)) => {
                    let m = self.compose(bounds, device_scale);
                    return PaintStep::Draw(
                        DrawCall {
                            bounds,
                            source_id: e.clone(),
                            raw_bytes: Some(bytes),
                            transform: m,
                            color: c,
                        },
                    );
                },
                FetchDirective::Ready(Err(_)) => {
                    return PaintStep::Skip;
                },
            }
        }
        PaintStep::Skip
    }

    /// The transform this element paints with.
    fn compose(&self, bounds: Bounds, device_scale: Scalar) -> (m: Matrix)
        requires
            bounds.pix_bounded(),
            device_scale.fac_bounded(),
            self.transformation matches Some(t) ==> t.bounded(),
        ensures
            composed_ok(self.transformation, bounds, device_scale, m),
    {
        match &self.transformation {
            Some(t) => {
                let center = bounds.center();
                (*t).into_matrix(center, device_scale)
            },
            None => Matrix::unit(),
        }
    }
}

} // verus!
