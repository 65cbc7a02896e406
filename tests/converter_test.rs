use svgear::error::SvgearError;
use svgear::mermaid::Mermaid;
use svgear::node_server::{decode_response, encode_request, frame_request, ConverterAction, ConverterEvent, NodeServer};
use svgear::plain_painter::{HttpPainter, MermaidPainter, Painter as _};
use svgear::text::{contains_text, text_eq};
use svgear::{PaintParams, PaintType, Painter};

fn params(ty: PaintType, content: &str) -> PaintParams {
    PaintParams { ty, content: content.to_string() }
}

fn expect_spawn(a: ConverterAction) -> String {
    match a {
        ConverterAction::Spawn(p) => p,
        other => panic!("expected Spawn, got {:?}", other),
    }
}

fn expect_exchange(a: ConverterAction) -> String {
    match a {
        ConverterAction::Exchange(l) => l,
        other => panic!("expected Exchange, got {:?}", other),
    }
}

fn expect_finish(a: ConverterAction) -> Result<String, SvgearError> {
    match a {
        ConverterAction::Finish(r) => r,
        other => panic!("expected Finish, got {:?}", other),
    }
}

fn started(server: &mut NodeServer, p: PaintParams) -> String {
    assert_eq!(expect_spawn(server.paint(p)), "/opt/helper");
    assert!(matches!(server.resume(ConverterEvent::Spawned), ConverterAction::ReadAck));
    expect_exchange(server.resume(ConverterEvent::AckLine("Server: Running in stdio mode\n".to_string())))
}

#[test]
fn request_lines_are_framed() {
    assert_eq!(
        encode_request(&params(PaintType::InlineTeX, "x^2")),
        "{\"method\":\"mathjax\",\"inline\":true,\"content\":\"x^2\"}\n"
    );
    assert_eq!(
        encode_request(&params(PaintType::Equation, "a\"b\\c\n")),
        "{\"method\":\"mathjax\",\"inline\":false,\"content\":\"a\\\"b\\\\c\\n\"}\n"
    );
    assert_eq!(
        encode_request(&params(PaintType::Mermaid, "graph TD")),
        "{\"method\":\"mermaid\",\"inline\":false,\"content\":\"graph TD\"}\n"
    );
}

#[test]
fn framing_takes_encoded_content() {
    assert_eq!(
        frame_request(PaintType::Equation, "\"e=mc^2\""),
        "{\"method\":\"mathjax\",\"inline\":false,\"content\":\"e=mc^2\"}\n"
    );
    assert_eq!(frame_request(PaintType::Mermaid, "null"), "{\"method\":\"mermaid\",\"inline\":false,\"content\":null}\n");
}

#[test]
fn content_escaping() {
    assert_eq!(
        encode_request(&params(PaintType::InlineTeX, "\u{1}\u{8}\t\u{c}\r\u{1f} é/")),
        "{\"method\":\"mathjax\",\"inline\":true,\"content\":\"\\u0001\\b\\t\\f\\r\\u001f é/\"}\n"
    );
}

#[test]
fn unicode_white_space_is_trimmed() {
    assert_eq!(
        decode_response("\u{a0}\u{3000}<svg> x </svg>\u{2028}\u{85}".as_bytes().to_vec()),
        Ok("<svg> x </svg>".to_string())
    );
    assert_eq!(decode_response(" \t\n".as_bytes().to_vec()), Ok(String::new()));
}

#[test]
fn responses_are_decoded_and_trimmed() {
    assert_eq!(decode_response(b"  <svg/>\n".to_vec()), Ok("<svg/>".to_string()));
    assert_eq!(decode_response(Vec::new()), Ok(String::new()));
    assert!(matches!(decode_response(vec![0xff, 0xfe]), Err(SvgearError::Protocol(_))));
}

#[test]
fn full_exchange_then_reuse() {
    let mut server = NodeServer::new("/opt/helper".to_string());
    let line = started(&mut server, params(PaintType::InlineTeX, "x"));
    assert_eq!(line, "{\"method\":\"mathjax\",\"inline\":true,\"content\":\"x\"}\n");
    assert!(server.is_busy());
    assert_eq!(expect_finish(server.resume(ConverterEvent::Received(b"<svg>1</svg>\n".to_vec()))), Ok("<svg>1</svg>".to_string()));
    assert!(server.is_running());
    assert!(!server.is_busy());
    let line2 = expect_exchange(server.paint(params(PaintType::Mermaid, "g")));
    assert_eq!(line2, "{\"method\":\"mermaid\",\"inline\":false,\"content\":\"g\"}\n");
    assert_eq!(expect_finish(server.resume(ConverterEvent::Received(b"<svg>2</svg>".to_vec()))), Ok("<svg>2</svg>".to_string()));
}

#[test]
fn single_flight() {
    let mut server = NodeServer::new("/opt/helper".to_string());
    let _ = started(&mut server, params(PaintType::Equation, "a"));
    assert!(matches!(server.paint(params(PaintType::Equation, "b")), ConverterAction::Refused));
    assert!(matches!(server.resume(ConverterEvent::Spawned), ConverterAction::Refused));
    assert_eq!(expect_finish(server.resume(ConverterEvent::Received(b"A".to_vec()))), Ok("A".to_string()));
    assert!(matches!(server.resume(ConverterEvent::Received(b"B".to_vec())), ConverterAction::Refused));
    let line = expect_exchange(server.paint(params(PaintType::Equation, "b")));
    assert!(line.contains("\"content\":\"b\""));
}

#[test]
fn startup_failures() {
    let mut server = NodeServer::new("/opt/helper".to_string());
    expect_spawn(server.paint(params(PaintType::InlineTeX, "x")));
    assert!(matches!(
        expect_finish(server.resume(ConverterEvent::SpawnFailed("no such file".to_string()))),
        Err(SvgearError::ProcessStartup(m)) if m == "no such file"
    ));
    assert!(!server.is_running());
    expect_spawn(server.paint(params(PaintType::InlineTeX, "x")));
    server.resume(ConverterEvent::Spawned);
    assert!(matches!(
        expect_finish(server.resume(ConverterEvent::AckLine("hello\n".to_string()))),
        Err(SvgearError::ProcessStartup(_))
    ));
    expect_spawn(server.paint(params(PaintType::InlineTeX, "x")));
    server.resume(ConverterEvent::Spawned);
    assert!(matches!(expect_finish(server.resume(ConverterEvent::AckMissing)), Err(SvgearError::ProcessStartup(_))));
    assert!(!server.is_running());
}

#[test]
fn broken_pipe_poisons_session() {
    let mut server = NodeServer::new("/opt/helper".to_string());
    let _ = started(&mut server, params(PaintType::InlineTeX, "x"));
    assert!(matches!(
        expect_finish(server.resume(ConverterEvent::PipeFailed("broken pipe".to_string()))),
        Err(SvgearError::Io(m)) if m == "broken pipe"
    ));
    assert!(matches!(expect_finish(server.paint(params(PaintType::InlineTeX, "y"))), Err(SvgearError::Io(_))));
}

#[test]
fn invalid_response_is_protocol_error() {
    let mut server = NodeServer::new("/opt/helper".to_string());
    let _ = started(&mut server, params(PaintType::InlineTeX, "x"));
    assert!(matches!(
        expect_finish(server.resume(ConverterEvent::Received(vec![0xc3]))),
        Err(SvgearError::Protocol(_))
    ));
    assert!(server.is_running());
}

#[test]
fn painter_without_converter() {
    let mut p = Painter::new();
    assert!(matches!(expect_finish(p.paint(params(PaintType::InlineTeX, "x"))), Err(SvgearError::NoConverter)));
    assert!(matches!(p.resume(ConverterEvent::Spawned), ConverterAction::Refused));
    let mut q = Painter::with_node_server("/opt/helper".to_string());
    assert_eq!(expect_spawn(q.paint(params(PaintType::InlineTeX, "x"))), "/opt/helper");
    assert!(matches!(q.resume(ConverterEvent::Spawned), ConverterAction::ReadAck));
    let mut r = Painter::new();
    r.set_node_server(NodeServer::new("/bin/other".to_string()));
    assert_eq!(expect_spawn(r.paint(params(PaintType::Mermaid, "g"))), "/bin/other");
}

#[test]
fn mermaid_and_plain_painters() {
    let m = Mermaid::new();
    assert_eq!(m.paint(params(PaintType::Mermaid, "graph")), Ok(String::new()));
    assert_eq!(m.paint(params(PaintType::InlineTeX, "x")), Err(SvgearError::UnsupportedPaintType));
    assert_eq!(HttpPainter.paint("x"), Ok(String::new()));
    assert_eq!(MermaidPainter.paint("x"), Ok(String::new()));
}

#[test]
fn text_helpers() {
    assert!(contains_text("xx Running in stdio mode", "Running in stdio mode"));
    assert!(!contains_text("Running in", "Running in stdio mode"));
    assert!(contains_text("abc", ""));
    assert!(text_eq("Paint", "Paint"));
    assert!(!text_eq("Paint", "paint"));
}
