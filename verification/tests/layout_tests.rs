use treeraster::assets::PreparedNode;
use treeraster::error::ErrorKind;
use treeraster::layout::resolve_extent;
use treeraster::layout::resolve_style;
use treeraster::node::Image;
use treeraster::node::RawImage;
use treeraster::paint::child_origin_of;
use treeraster::style::ComponentAlign;
use treeraster::style::Padding;
use treeraster::style::RawStyle;

fn rgba(w: u32, h: u32) -> Vec<u8> {
    vec![0u8; (4 * w * h) as usize]
}

fn leaf(width: u32, pad: u32, iw: u32, ih: u32) -> PreparedNode {
    PreparedNode::Leaf {
        style: Image::with_padding(String::new(), width, Padding::from_value(pad)).style(),
        image: RawImage { width: iw, height: ih, rgba: rgba(iw, ih) },
    }
}

fn row(pad: u32, children: Vec<PreparedNode>) -> PreparedNode {
    PreparedNode::Group {
        style: RawStyle {
            min_width: 0,
            min_height: 0,
            width: None,
            height: None,
            padding: Padding::from_value(pad),
            align: ComponentAlign::Row,
        },
        children,
    }
}

#[test]
fn resolved_dimensions_are_positive() {
    // Several shapes; every successful resolution yields strictly positive
    // dimensions (the library proves width >= 1 and height >= 1).
    let cases = vec![
        leaf(50, 0, 200, 100),
        leaf(7, 3, 31, 17),
        row(10, vec![]),
        row(0, vec![leaf(10, 0, 10, 10), leaf(20, 2, 5, 9)]),
        row(5, vec![row(1, vec![leaf(1, 0, 1, 1)])]),
    ];
    for p in &cases {
        let (w, h) = resolve_extent(p).expect("geometry should resolve");
        assert!(w >= 1 && h >= 1);
        let style = resolve_style(p).expect("geometry should resolve");
        assert_eq!((style.width, style.height), (w, h));
        assert!(style.width >= 1 && style.height >= 1);
    }
}

#[test]
fn leaf_keeps_aspect_ratio() {
    // Intrinsic 200x100 at resolved content width 50: height 100 * 50 / 200.
    let p = leaf(50, 0, 200, 100);
    assert_eq!(resolve_extent(&p), Ok((50, 25)));
    // Intrinsic 31x17 at width 7: height 17 * 7 / 31 = 3 (rounded down).
    let p = leaf(7, 0, 31, 17);
    assert_eq!(resolve_extent(&p), Ok((7, 3)));
}

#[test]
fn row_width_is_sum_of_children_and_origins_are_prefix_sums() {
    // Zero-padding row of children with resolved widths 10, 20, 30.
    let p = row(
        0,
        vec![leaf(10, 0, 10, 10), leaf(20, 0, 10, 10), leaf(30, 0, 10, 10)],
    );
    let (w, _h) = resolve_extent(&p).unwrap();
    assert_eq!(w, 10 + 20 + 30);
    assert_eq!(child_origin_of(&p, 0, 0, 0), Some((0, 0)));
    assert_eq!(child_origin_of(&p, 1, 0, 0), Some((10, 0)));
    assert_eq!(child_origin_of(&p, 2, 0, 0), Some((30, 0)));
}

#[test]
fn row_scenario_with_padding() {
    // Row with padding 10 and two leaves of resolved widths 80 and 40
    // (content 60 of intrinsic 200x100, content 20 of intrinsic 50x50,
    // each with its default inset of 10 on every side).
    let child1 = leaf(60, 10, 200, 100);
    let child2 = leaf(20, 10, 50, 50);
    assert_eq!(resolve_extent(&child1).unwrap().0, 80);
    assert_eq!(resolve_extent(&child2).unwrap().0, 40);
    let p = row(10, vec![child1, child2]);
    let (w, _h) = resolve_extent(&p).unwrap();
    assert_eq!(w, 10 + 80 + 40 + 10);
    assert_eq!(child_origin_of(&p, 0, 0, 0), Some((10, 10)));
    assert_eq!(child_origin_of(&p, 1, 0, 0), Some((90, 10)));
}

#[test]
fn zero_intrinsic_width_is_invalid_geometry() {
    // Min-width 0 and an intrinsic width of 0: invalid geometry, not a
    // silent division blow-up.
    let p = PreparedNode::Leaf {
        style: Image::with_padding(String::new(), 0, Padding::from_value(0)).style(),
        image: RawImage { width: 0, height: 0, rgba: vec![] },
    };
    let err = resolve_extent(&p).unwrap_err();
    assert_eq!(err.kind, ErrorKind::InvalidGeometry);
    assert_eq!(err.at, Vec::<usize>::new());
}

#[test]
fn failing_child_is_named_by_its_path() {
    let bad = PreparedNode::Leaf {
        style: Image::with_padding(String::new(), 5, Padding::from_value(0)).style(),
        image: RawImage { width: 0, height: 3, rgba: vec![] },
    };
    let p = row(0, vec![leaf(10, 0, 10, 10), row(0, vec![bad])]);
    let err = resolve_extent(&p).unwrap_err();
    assert_eq!(err.kind, ErrorKind::InvalidGeometry);
    assert_eq!(err.at, vec![1, 0]);
}

#[test]
fn zero_content_width_is_invalid_geometry() {
    // A leaf asking for width 0 of a healthy image is degenerate too.
    let p = leaf(0, 0, 10, 10);
    let err = resolve_extent(&p).unwrap_err();
    assert_eq!(err.kind, ErrorKind::InvalidGeometry);
}

#[test]
fn dimension_bound_matches_raster_limit() {
    // The largest accepted box: the last width at which every pixel column
    // is an exactly representable f32 integer; one more is invalid geometry.
    let p = leaf(16777215, 0, 1, 1);
    assert_eq!(resolve_extent(&p), Ok((16777215, 16777215)));
    let p = leaf(16777216, 0, 1, 1);
    assert_eq!(resolve_extent(&p).unwrap_err().kind, ErrorKind::InvalidGeometry);
}

#[test]
fn image_style_declares_width_and_default_inset() {
    let img = Image::new(String::from("a.png"), 42);
    let style = img.style();
    assert_eq!(style.min_width, 42);
    assert_eq!(style.padding, Padding::from_value(treeraster::node::IMAGE_PADDING));
    assert_eq!(style.align, ComponentAlign::Row);
    assert_eq!(style.width, None);
    assert_eq!(style.height, None);
}
