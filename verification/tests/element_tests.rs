use svg_element::cache::{AssetCache, LoadError};
use svg_element::element::{PaintStep, Rgba, svg};
use svg_element::geometry::{Bounds, Length, Point, Size};
use svg_element::scalar::Scalar;
use svg_element::sizing::IntrinsicSize;
use svg_element::transform::Transformation;

fn s(num: i128, den: i128) -> Scalar {
    Scalar { num, den }
}

fn bounds() -> Bounds {
    Bounds {
        origin: Point { x: s(0, 1), y: s(0, 1) },
        size: Size { width: s(100, 1), height: s(50, 1) },
    }
}

fn white() -> Rgba {
    Rgba { r: 255, g: 255, b: 255, a: 255 }
}

fn svg_bytes() -> Vec<u8> {
    b"<svg xmlns='http://www.w3.org/2000/svg' width='24' height='16'></svg>".to_vec()
}

#[test]
fn builders_set_the_configuration() {
    let el = svg()
        .path(String::from("icons/a"))
        .external_path(String::from("/tmp/a.svg"))
        .with_transformation(Transformation::default());
    assert_eq!(el.path, Some(String::from("icons/a")));
    assert_eq!(el.external_path, Some(String::from("/tmp/a.svg")));
    assert!(el.transformation.is_some());
    assert!(el.size.is_none());
}

#[test]
fn layout_probes_the_intrinsic_size_from_the_bytes() {
    let rem = s(16, 1);
    let mut el = svg().path(String::from("icons/a"));
    let bytes = svg_bytes();
    let r = el.request_layout(Some(&bytes), Length::Auto, Length::Auto, rem);
    assert_eq!(el.size, Some(IntrinsicSize { width: 24, height: 16 }));
    assert!(r.aspect_ratio.unwrap().same_value(s(3, 2)));
}

#[test]
fn the_size_cache_is_write_once() {
    let rem = s(16, 1);
    let mut el = svg().path(String::from("icons/a"));
    let bytes = svg_bytes();
    el.request_layout(Some(&bytes), Length::Auto, Length::Auto, rem);
    // a later pass without bytes still resolves from the cached size
    let r = el.request_layout(None, Length::Auto, Length::Auto, rem);
    assert_eq!(el.size, Some(IntrinsicSize { width: 24, height: 16 }));
    assert!(r.aspect_ratio.unwrap().same_value(s(3, 2)));
}

#[test]
fn unparseable_bytes_resolve_nothing() {
    let rem = s(16, 1);
    let mut el = svg().path(String::from("icons/a"));
    let bytes = b"not an svg at all".to_vec();
    let r = el.request_layout(Some(&bytes), Length::Auto, Length::Auto, rem);
    assert!(el.size.is_none());
    assert!(r.aspect_ratio.is_none());
}

#[test]
fn primary_path_takes_precedence_over_external() {
    let mut cache = AssetCache::new();
    let el = svg()
        .path(String::from("registered"))
        .external_path(String::from("/tmp/other.svg"));
    match el.paint(Some(white()), bounds(), s(1, 1), &mut cache) {
        PaintStep::Draw(d) => {
            assert_eq!(d.source_id, "registered");
            assert!(d.raw_bytes.is_none());
            assert_eq!(d.color, white());
        },
        other => panic!("expected a draw call, got {:?}", step_name(&other)),
    }
}

#[test]
fn no_color_means_no_draw_call() {
    let mut cache = AssetCache::new();
    let el = svg()
        .path(String::from("registered"))
        .external_path(String::from("/tmp/other.svg"));
    assert!(matches!(el.paint(None, bounds(), s(1, 1), &mut cache), PaintStep::Skip));
}

#[test]
fn external_path_fetches_once_and_draws_the_cached_bytes() {
    let mut cache = AssetCache::new();
    let el = svg().external_path(String::from("/tmp/a.svg"));
    // first pass: nothing drawn, the single read is started
    match el.paint(Some(white()), bounds(), s(1, 1), &mut cache) {
        PaintStep::Fetch(p) => assert_eq!(p, "/tmp/a.svg"),
        other => panic!("expected a fetch, got {:?}", step_name(&other)),
    }
    cache.complete(&String::from("/tmp/a.svg"), Ok(svg_bytes()));
    // a later pass draws the settled bytes
    match el.paint(Some(white()), bounds(), s(1, 1), &mut cache) {
        PaintStep::Draw(d) => {
            assert_eq!(d.source_id, "/tmp/a.svg");
            assert_eq!(d.raw_bytes, Some(svg_bytes()));
        },
        other => panic!("expected a draw call, got {:?}", step_name(&other)),
    }
}

#[test]
fn a_failed_fetch_is_not_retried_and_draws_nothing() {
    let mut cache = AssetCache::new();
    let el = svg().external_path(String::from("/tmp/gone.svg"));
    assert!(matches!(
        el.paint(Some(white()), bounds(), s(1, 1), &mut cache),
        PaintStep::Fetch(_)
    ));
    cache.complete(
        &String::from("/tmp/gone.svg"),
        Err(LoadError { message: String::from("no such file") }),
    );
    // every later pass skips: no new fetch, no draw
    for _ in 0..3 {
        assert!(matches!(
            el.paint(Some(white()), bounds(), s(1, 1), &mut cache),
            PaintStep::Skip
        ));
    }
}

#[test]
fn a_transformed_element_paints_with_the_composed_matrix() {
    let mut cache = AssetCache::new();
    let t = Transformation::translate(Point { x: s(3, 1), y: s(4, 1) });
    let el = svg().path(String::from("registered")).with_transformation(t);
    match el.paint(Some(white()), bounds(), s(2, 1), &mut cache) {
        PaintStep::Draw(d) => {
            // pure translation: exactly translate * device_scale
            assert!(d.transform.tx.same_value(s(6, 1)));
            assert!(d.transform.ty.same_value(s(8, 1)));
            assert!(d.transform.m11.same_value(s(1, 1)));
        },
        other => panic!("expected a draw call, got {:?}", step_name(&other)),
    }
}

#[test]
fn an_untransformed_element_paints_with_the_identity() {
    let mut cache = AssetCache::new();
    let el = svg().path(String::from("registered"));
    match el.paint(Some(white()), bounds(), s(2, 1), &mut cache) {
        PaintStep::Draw(d) => {
            assert_eq!(d.transform.tx, s(0, 1));
            assert_eq!(d.transform.m11, s(1, 1));
        },
        other => panic!("expected a draw call, got {:?}", step_name(&other)),
    }
}

fn step_name(s: &PaintStep) -> &'static str {
    match s {
        PaintStep::Skip => "skip",
        PaintStep::Fetch(_) => "fetch",
        PaintStep::Draw(_) => "draw",
    }
}
