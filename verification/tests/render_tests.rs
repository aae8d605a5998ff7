use treeraster::assets::PreparedNode;
use treeraster::error::ErrorKind;
use treeraster::locator::expand_tilde;
use treeraster::node::Container;
use treeraster::node::Image;
use treeraster::node::Node;
use treeraster::node::RawImage;
use treeraster::render::render;
use treeraster::render::render_prepared;
use treeraster::style::ComponentAlign;
use treeraster::style::Padding;
use treeraster::style::RawStyle;
use treeraster::surface::surface_into_bytes;

fn raw(pad: u32, align: ComponentAlign) -> RawStyle {
    RawStyle {
        min_width: 0,
        min_height: 0,
        width: None,
        height: None,
        padding: Padding::from_value(pad),
        align,
    }
}

#[test]
fn missing_asset_aborts_render() {
    // A leaf whose locator points at a nonexistent file: the whole pass
    // fails with AssetUnavailable, no blank surface comes back.
    let root = Node::Image(Image::new(String::from("/none.png"), 100));
    let err = render(&root, 64, 64).unwrap_err();
    assert_eq!(err.kind, ErrorKind::AssetUnavailable);
    assert_eq!(err.at, Vec::<usize>::new());
}

#[test]
fn missing_asset_in_container_is_named() {
    let root = Node::Container(Container::new(
        raw(10, ComponentAlign::Row),
        vec![Node::Image(Image::new(String::from("/none.png"), 100))],
    ));
    let err = render(&root, 64, 64).unwrap_err();
    assert_eq!(err.kind, ErrorKind::AssetUnavailable);
    assert_eq!(err.at, vec![0]);
}

#[test]
fn unreadable_encoding_is_decode_failure() {
    // The file opens but holds no image encoding.
    let root = Node::Image(Image::new(String::from("/dev/null"), 100));
    let err = render(&root, 64, 64).unwrap_err();
    assert_eq!(err.kind, ErrorKind::DecodeFailure);
}

#[test]
fn rendering_twice_is_byte_identical() {
    // An immutable tree rendered twice onto equal-sized surfaces.
    let root = Node::Container(Container::new(
        raw(10, ComponentAlign::Row),
        vec![Node::Container(Container::new(raw(3, ComponentAlign::Column), vec![]))],
    ));
    let first = surface_into_bytes(render(&root, 32, 32).unwrap());
    let second = surface_into_bytes(render(&root, 32, 32).unwrap());
    assert_eq!(first, second);
    assert_eq!(first.len(), 4 * 32 * 32);
}

#[test]
fn prepared_rendering_twice_is_byte_identical() {
    let leaf = PreparedNode::Leaf {
        style: Image::with_padding(String::new(), 2, Padding::from_value(0)).style(),
        image: RawImage { width: 1, height: 1, rgba: vec![255, 0, 0, 255] },
    };
    let first = surface_into_bytes(render_prepared(&leaf, 4, 4).unwrap());
    let second = surface_into_bytes(render_prepared(&leaf, 4, 4).unwrap());
    assert_eq!(first, second);
}

#[test]
fn scaled_leaf_is_composited_at_its_origin() {
    // One opaque red source pixel, scaled to the 2x2 resolved content box
    // and composited onto a transparent 4x4 surface: the top-left 2x2
    // square is red, the rest stays transparent black.
    let leaf = PreparedNode::Leaf {
        style: Image::with_padding(String::new(), 2, Padding::from_value(0)).style(),
        image: RawImage { width: 1, height: 1, rgba: vec![255, 0, 0, 255] },
    };
    let bytes = surface_into_bytes(render_prepared(&leaf, 4, 4).unwrap());
    assert_eq!(bytes.len(), 4 * 4 * 4);
    for y in 0..4usize {
        for x in 0..4usize {
            let px = &bytes[4 * (y * 4 + x)..4 * (y * 4 + x) + 4];
            if x < 2 && y < 2 {
                assert_eq!(px, &[255, 0, 0, 255]);
            } else {
                assert_eq!(px, &[0, 0, 0, 0]);
            }
        }
    }
}

#[test]
fn decoded_leaf_renders_on_real_file() {
    // A real 2x2 transparent PNG on disk: the full pipeline decodes it,
    // scales it to the content box and composites it; everything stays
    // transparent black.
    let asset = "/tmp/treeraster_asset_2x2.png";
    tiny_skia::Pixmap::new(2, 2).unwrap().save_png(asset).unwrap();
    let root = Node::Image(Image::new(String::from(asset), 2));
    let surface = render(&root, 24, 24).unwrap();
    let bytes = surface_into_bytes(surface);
    assert_eq!(bytes.len(), 4 * 24 * 24);
    assert!(bytes.iter().all(|b| *b == 0));
}

#[test]
fn degenerate_surface_is_composition_failure() {
    let root = Node::Container(Container::new(raw(10, ComponentAlign::Row), vec![]));
    let err = render(&root, 0, 0).unwrap_err();
    assert_eq!(err.kind, ErrorKind::CompositionFailure);
}

#[test]
fn invalid_geometry_propagates_through_render() {
    // An empty zero-padding container resolves to a zero-sized box.
    let root = Node::Container(Container::new(raw(0, ComponentAlign::Row), vec![]));
    let err = render(&root, 16, 16).unwrap_err();
    assert_eq!(err.kind, ErrorKind::InvalidGeometry);
}

#[test]
fn tilde_expansion_uses_given_home() {
    assert_eq!(expand_tilde("~/shots/a.png", Some("/home/u")), "/home/u/shots/a.png");
    assert_eq!(expand_tilde("~/a.png", None), "~/a.png");
    assert_eq!(expand_tilde("plain.png", Some("/home/u")), "plain.png");
    assert_eq!(expand_tilde("~", Some("/home/u")), "~");
}
