use svgear::error::SvgearError;
use svgear::rpc::{
    get_bitmap_reply, invalid_parameters_reply, paint_reply, render_svg_reply, render_to_bitmap_reply,
    unknown_method_reply, ReplyError,
};
use svgear::{GetBitmapRequest, Method, RenderRequest, RpcResponse, SharedSvgManager, SvgManager};

const SVG: &str = r#"<svg xmlns="http://www.w3.org/2000/svg" width="40" height="20"><rect width="40" height="20" fill="green"/></svg>"#;

#[test]
fn method_names() {
    for m in [Method::RenderSvg, Method::GetBitmap, Method::Paint, Method::RenderToBitmap] {
        assert_eq!(Method::from_name(m.name()), Some(m));
    }
    assert_eq!(Method::RenderToBitmap.name(), "RenderToBitmap");
    assert_eq!(Method::from_name("renderSvg"), None);
    assert_eq!(Method::from_name(""), None);
}

#[test]
fn error_envelopes() {
    let r = unknown_method_reply(Some("7".to_string()));
    assert_eq!(r.error.as_deref(), Some("Unknown method"));
    assert_eq!(r.id.as_deref(), Some("7"));
    assert!(r.result.is_none());
    let r = invalid_parameters_reply("missing field `svg_data`".to_string(), None);
    assert_eq!(r.error.as_deref(), Some("Invalid parameters: missing field `svg_data`"));
    assert_eq!(r.id, None);
    let r = paint_reply(Err(SvgearError::NoConverter), Some("p".to_string()));
    assert_eq!(r.error.as_deref(), Some("Error painting: No Node server configured"));
    let r = get_bitmap_reply(Err(SvgearError::BitmapNotFound), None);
    assert_eq!(r.error.as_deref(), Some("Error getting bitmap: Bitmap not found"));
    let r = render_svg_reply(Err(SvgearError::Rasterization("bad".to_string())), None);
    assert_eq!(r.error.as_deref(), Some("Error rendering SVG: bad"));
}

#[test]
fn success_envelopes() {
    let r = paint_reply(Ok("<svg/>".to_string()), Some("q".to_string()));
    assert_eq!(r.result.unwrap().svg, "<svg/>");
    assert!(r.error.is_none());
    assert_eq!(r.id.as_deref(), Some("q"));
    let mut m = SvgManager::new();
    let out = m.process_render_request(RenderRequest { svg_data: SVG.to_string(), width: None, height: None, id: None });
    let r = render_svg_reply(out, None);
    let resp = r.result.unwrap();
    assert_eq!((resp.bitmap.width, resp.bitmap.height), (40, 20));
}

#[test]
fn pipeline_matches_manual_composition() {
    let mut composed = SvgManager::new();
    let r = render_to_bitmap_reply(&mut composed, Ok(SVG.to_string()), Some(10), None, Some("1".to_string()));
    let got = r.result.unwrap();
    assert_eq!(r.id.as_deref(), Some("1"));

    let mut manual = SvgManager::new();
    let painted = paint_reply(Ok(SVG.to_string()), None).result.unwrap().svg;
    let rendered = render_svg_reply(
        manual.process_render_request(RenderRequest { svg_data: painted, width: Some(10), height: None, id: None }),
        None,
    )
    .result
    .unwrap();
    let fetched = get_bitmap_reply(manual.process_get_bitmap_request(GetBitmapRequest { id: rendered.id }), None)
        .result
        .unwrap();
    assert_eq!(got.id, fetched.id);
    assert_eq!((got.bitmap.width, got.bitmap.height), (10, 5));
    assert_eq!(got.bitmap.data, fetched.bitmap.data);
}

#[test]
fn pipeline_reports_each_stage() {
    let mut m = SvgManager::new();
    let r = render_to_bitmap_reply(&mut m, Err(SvgearError::Io("gone".to_string())), None, None, None);
    assert_eq!(r.error.as_deref(), Some("Error painting: gone"));
    let r = render_to_bitmap_reply(&mut m, Ok("nonsense".to_string()), None, None, None);
    assert!(r.error.unwrap().starts_with("Error rendering SVG: "));
    let shared = SharedSvgManager::new();
    let r = shared.render_to_bitmap_reply(Ok(SVG.to_string()), None, Some(4), Some("s".to_string()));
    let got = r.result.unwrap();
    assert_eq!((got.bitmap.width, got.bitmap.height), (8, 4));
    assert_eq!(r.id.as_deref(), Some("s"));
}

#[test]
fn replies_into_results() {
    let ok: RpcResponse<u8> = RpcResponse { result: Some(3), error: None, id: None };
    assert_eq!(ok.into_result(), Ok(3));
    let err: RpcResponse<u8> = RpcResponse { result: Some(3), error: Some("boom".to_string()), id: None };
    assert_eq!(err.into_result(), Err(ReplyError::Rpc("boom".to_string())));
    let empty: RpcResponse<u8> = RpcResponse { result: None, error: None, id: None };
    assert_eq!(empty.into_result(), Err(ReplyError::NoResult));
}

#[test]
fn error_messages() {
    assert_eq!(SvgearError::SvgNotFound.message(), "SVG not found");
    assert_eq!(SvgearError::UnknownMethod.message(), "Unknown method");
    assert_eq!(SvgearError::InvalidParameters("x".to_string()).message(), "x");
}
