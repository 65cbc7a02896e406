use svgear::error::SvgearError;
use svgear::raster::target_size;
use svgear::{GetBitmapRequest, RenderRequest, SharedSvgManager, SvgManager};

const SQUARE: &str = r#"<svg xmlns="http://www.w3.org/2000/svg" width="100" height="100">
        <rect width="100" height="100" fill="red" />
    </svg>"#;

const WIDE: &str = r#"<svg xmlns="http://www.w3.org/2000/svg" width="100" height="50">
        <rect width="100" height="50" fill="blue" />
    </svg>"#;

fn is_png(data: &[u8]) -> bool {
    data.len() >= 8 && data[..8] == [137, 80, 78, 71, 13, 10, 26, 10]
}

fn png_size(data: &[u8]) -> (u32, u32) {
    let w = u32::from_be_bytes([data[16], data[17], data[18], data[19]]);
    let h = u32::from_be_bytes([data[20], data[21], data[22], data[23]]);
    (w, h)
}

#[test]
fn test_svg_manager() -> Result<(), SvgearError> {
    // Simple SVG for testing
    let svg_data = SQUARE;

    // Create a manager
    let mut manager = SvgManager::new();

    // Store the SVG
    let id = manager.store_svg(svg_data, None);

    // Verify we can retrieve it
    let retrieved = manager.get_svg(&id).unwrap();
    assert_eq!(retrieved, svg_data);

    // Render it
    let (width, height) = manager.render_svg(&id, Some(200), None)?;

    // Verify dimensions
    assert_eq!(width, 200);
    assert_eq!(height, 200); // Should maintain aspect ratio (1:1)

    // Get the bitmap
    let b = manager.get_bitmap(&id).unwrap();
    let (bitmap, w, h) = (&b.data, b.width, b.height);

    // Verify bitmap exists and has correct dimensions
    assert!(!bitmap.is_empty());
    assert_eq!(w, 200);
    assert_eq!(h, 200);

    Ok(())
}

#[test]
fn content_id_is_sha256_prefix() {
    assert_eq!(SvgManager::generate_id("abc"), "ba7816bf8f01cfea");
    assert_eq!(SvgManager::generate_id(""), "e3b0c44298fc1c14");
}

#[test]
fn store_is_deterministic_and_first_writer_wins() {
    let mut m = SvgManager::new();
    let a = m.store_svg(SQUARE, None);
    let b = m.store_svg(&SQUARE.to_string(), None);
    assert_eq!(a, b);
    assert_eq!(a.len(), 16);
    assert!(a.chars().all(|c| c.is_ascii_hexdigit() && !c.is_ascii_uppercase()));
    let c = m.store_svg(WIDE, Some(a.clone()));
    assert_eq!(c, a);
    assert_eq!(m.get_svg(&a).unwrap(), SQUARE);
}

#[test]
fn custom_id_is_used() {
    let mut m = SvgManager::new();
    let id = m.store_svg(WIDE, Some("wide".to_string()));
    assert_eq!(id, "wide");
    assert_eq!(m.get_svg("wide").unwrap(), WIDE);
    assert!(m.get_svg(&SvgManager::generate_id(WIDE)).is_none());
}

#[test]
fn aspect_ratio_is_kept() {
    let mut m = SvgManager::new();
    let id = m.store_svg(WIDE, None);
    assert_eq!(m.render_svg(&id, Some(200), None), Ok((200, 100)));
    assert_eq!(m.render_svg(&id, None, Some(25)), Ok((50, 25)));
    assert_eq!(m.render_svg(&id, None, None), Ok((100, 50)));
    assert_eq!(m.render_svg(&id, Some(30), Some(70)), Ok((30, 70)));
    let b = m.get_bitmap(&id).unwrap();
    assert_eq!((b.width, b.height), (30, 70));
    assert_eq!(png_size(&b.data), (30, 70));
}

fn b(v: f32) -> u32 {
    v.to_bits()
}

#[test]
fn target_size_policy() {
    assert_eq!(target_size(Some(200), None, b(100.0), b(50.0)), (200, 100));
    assert_eq!(target_size(None, Some(25), b(100.0), b(50.0)), (50, 25));
    assert_eq!(target_size(Some(10), Some(20), b(100.0), b(50.0)), (10, 20));
    assert_eq!(target_size(None, None, b(100.0), b(50.0)), (100, 50));
    assert_eq!(target_size(Some(7), None, b(3.0), b(2.0)), (7, 4));
    assert_eq!(target_size(Some(3), None, b(0.5), b(1.0)), (3, 6));
    assert_eq!(target_size(None, None, b(100.75), b(0.25)), (100, 0));
    assert_eq!(target_size(Some(7), None, b(0.0), b(2.0)), (7, 0));
    assert_eq!(target_size(Some(u32::MAX), None, b(1.0), b(2.0)), (u32::MAX, u32::MAX));
    assert_eq!(target_size(None, Some(1), b(1.0e30), b(1.0e-30)), (u32::MAX, 1));
    assert_eq!(target_size(None, Some(1), b(1.0e-30), b(1.0e30)), (0, 1));
}

#[test]
fn fractional_native_size_keeps_exact_ratio() {
    let mut m = SvgManager::new();
    let svg = r#"<svg xmlns="http://www.w3.org/2000/svg" width="10.5" height="21"><rect width="10.5" height="21"/></svg>"#;
    let id = m.store_svg(svg, None);
    assert_eq!(m.render_svg(&id, None, Some(42)), Ok((21, 42)));
    assert_eq!(m.render_svg(&id, None, None), Ok((10, 21)));
}

#[test]
fn file_images_are_not_read() {
    let mut m = SvgManager::new();
    let svg = r#"<svg xmlns="http://www.w3.org/2000/svg"><image href="/nonexistent/picture.png"/></svg>"#;
    let id = m.store_svg(svg, None);
    assert_eq!(m.render_svg(&id, None, None), Ok((100, 100)));
}

#[test]
fn cached_flag_follows_svg_presence() {
    let mut m = SvgManager::new();
    let first = m
        .process_render_request(RenderRequest { svg_data: WIDE.to_string(), width: Some(20), height: None, id: None })
        .unwrap();
    assert!(!first.cached);
    assert_eq!((first.bitmap.width, first.bitmap.height), (20, 10));
    let second = m
        .process_render_request(RenderRequest { svg_data: WIDE.to_string(), width: None, height: Some(40), id: None })
        .unwrap();
    assert!(second.cached);
    assert_eq!(second.id, first.id);
    assert_eq!((second.bitmap.width, second.bitmap.height), (80, 40));
}

#[test]
fn bitmap_not_found_before_render() {
    let mut m = SvgManager::new();
    let id = m.store_svg(SQUARE, None);
    assert!(m.get_bitmap(&id).is_none());
    assert_eq!(
        m.process_get_bitmap_request(GetBitmapRequest { id: id.clone() }).unwrap_err(),
        SvgearError::BitmapNotFound
    );
    assert_eq!(
        m.process_get_bitmap_request(GetBitmapRequest { id: "nope".to_string() }).unwrap_err(),
        SvgearError::SvgNotFound
    );
    m.render_svg(&id, Some(10), None).unwrap();
    let got = m.process_get_bitmap_request(GetBitmapRequest { id: id.clone() }).unwrap();
    assert_eq!(got.id, id);
    assert_eq!((got.bitmap.width, got.bitmap.height), (10, 10));
}

#[test]
fn example_scenario() {
    let mut m = SvgManager::new();
    let svg = r#"<svg xmlns="http://www.w3.org/2000/svg" width="100" height="100"><circle cx="50" cy="50" r="40"/></svg>"#;
    let id = m.store_svg(svg, None);
    assert_eq!(id.len(), 16);
    assert!(id.chars().all(|c| c.is_ascii_hexdigit()));
    assert_eq!(m.render_svg(&id, Some(50), None), Ok((50, 50)));
    let b = m.get_bitmap(&id).unwrap();
    assert!(!b.data.is_empty());
    assert!(is_png(&b.data));
    assert_eq!((b.width, b.height), (50, 50));
    assert_eq!(png_size(&b.data), (50, 50));
}

#[test]
fn render_errors() {
    let mut m = SvgManager::new();
    assert_eq!(m.render_svg("missing", None, None), Err(SvgearError::SvgNotFound));
    let bad = m.store_svg("this is not svg", None);
    assert!(matches!(m.render_svg(&bad, None, None), Err(SvgearError::Rasterization(_))));
    assert!(m.get_bitmap(&bad).is_none());
    let id = m.store_svg(SQUARE, None);
    assert!(matches!(m.render_svg(&id, Some(0), None), Err(SvgearError::Rasterization(_))));
    assert!(matches!(
        m.render_svg(&id, Some(500_000_000), Some(1)),
        Err(SvgearError::Rasterization(_))
    ));
    assert!(m.get_bitmap(&id).is_none());
}

#[test]
fn failed_render_request_still_stores_svg() {
    let mut m = SvgManager::new();
    let r = m.process_render_request(RenderRequest {
        svg_data: "<oops".to_string(),
        width: None,
        height: None,
        id: Some("x".to_string()),
    });
    assert!(matches!(r, Err(SvgearError::Rasterization(_))));
    assert_eq!(m.get_svg("x").unwrap(), "<oops");
}

#[test]
fn later_render_replaces_bitmap() {
    let mut m = SvgManager::new();
    let id = m.store_svg(SQUARE, None);
    m.render_svg(&id, Some(10), None).unwrap();
    m.render_svg(&id, Some(20), None).unwrap();
    let b = m.get_bitmap(&id).unwrap();
    assert_eq!((b.width, b.height), (20, 20));
}

#[test]
fn shared_manager_serves_clones() {
    let shared = SharedSvgManager::new();
    let other = shared.clone();
    let resp = shared
        .process_render_request(RenderRequest { svg_data: SQUARE.to_string(), width: Some(8), height: None, id: None })
        .unwrap();
    assert!(!resp.cached);
    let got = other.process_get_bitmap_request(GetBitmapRequest { id: resp.id.clone() }).unwrap();
    assert_eq!(got.bitmap.data, resp.bitmap.data);
    let again = other
        .process_render_request(RenderRequest { svg_data: SQUARE.to_string(), width: Some(8), height: None, id: None })
        .unwrap();
    assert!(again.cached);
}
