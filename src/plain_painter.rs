//! Painters that take bare markup text; neither has a renderer behind it yet.
use crate::error::SvgearError;
use vstd::prelude::*;

verus! {

/// Turns markup text into SVG text.
pub trait Painter {
    fn paint(&self, content: &str) -> (r: Result<String, SvgearError>);
}

/// Paints TeX through an HTTP service; answers with empty text.
pub struct HttpPainter;

/// Paints Mermaid diagrams; answers with empty text.
pub struct MermaidPainter;

impl Painter for HttpPainter {
    fn paint(&self, content: &str) -> (r: Result<String, SvgearError>) {
        Ok(String::new())
    }
}

impl Painter for MermaidPainter {
    fn paint(&self, content: &str) -> (r: Result<String, SvgearError>) {
        Ok(String::new())
    }
}

} // verus!
