//! A painter for Mermaid diagrams that has no renderer behind it yet.
use crate::error::SvgearError;
use crate::painter::{PaintParams, PaintType};
use vstd::prelude::*;

verus! {

/// Accepts Mermaid diagrams only, and paints them as empty text.
pub struct Mermaid;

impl Mermaid {
    pub fn new() -> (r: Mermaid) {
        Mermaid
    }

    /// Fails on any kind of content but Mermaid; otherwise returns empty text.
    pub fn paint(&self, params: PaintParams) -> (r: Result<String, SvgearError>)
        ensures
            params.ty != PaintType::Mermaid ==> r == Err::<String, SvgearError>(
                SvgearError::UnsupportedPaintType,
            ),
            params.ty == PaintType::Mermaid ==> (r matches Ok(s) && s@.len() == 0),
    {
        if params.ty != PaintType::Mermaid {
            return Err(SvgearError::UnsupportedPaintType);
        }
        Ok(String::new())
    }
}

} // verus!
