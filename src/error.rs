use vstd::prelude::*;

verus! {

/// The failures that the library reports to its callers.
#[derive(Debug, Clone, PartialEq, Eq)]
pub enum SvgearError {
    /// No SVG is stored under the requested id.
    SvgNotFound,
    /// An SVG is stored under the requested id, but no bitmap was rendered for it.
    BitmapNotFound,
    /// The stored SVG could not be parsed or painted; the text describes why.
    Rasterization(String),
    /// The converter process did not signal readiness.
    ProcessStartup(String),
    /// A request or response on the converter channel was malformed.
    Protocol(String),
    /// The converter channel broke.
    Io(String),
    /// An RPC payload did not decode against the method's schema.
    InvalidParameters(String),
    /// An RPC method name that the router does not know.
    UnknownMethod,
    /// A painter was asked to paint without a converter configured.
    NoConverter,
    /// A converter was handed a kind of content that it does not paint.
    UnsupportedPaintType,
}

} // verus!

verus! {

/// The text that describes an error.
pub open spec fn message_spec(e: SvgearError) -> Seq<char> {
    match e {
        SvgearError::SvgNotFound => "SVG not found"@,
        SvgearError::BitmapNotFound => "Bitmap not found"@,
        SvgearError::Rasterization(m) => m@,
        SvgearError::ProcessStartup(m) => m@,
        SvgearError::Protocol(m) => m@,
        SvgearError::Io(m) => m@,
        SvgearError::InvalidParameters(m) => m@,
        SvgearError::UnknownMethod => "Unknown method"@,
        SvgearError::NoConverter => "No Node server configured"@,
        SvgearError::UnsupportedPaintType => "Unsupported paint type"@,
    }
}

impl SvgearError {
    /// The text that describes the error.
    pub fn message(&self) -> (r: String)
        ensures
            r@ == message_spec(*self),
    {
        match self {
            SvgearError::SvgNotFound => "SVG not found".to_owned(),
            SvgearError::BitmapNotFound => "Bitmap not found".to_owned(),
            SvgearError::Rasterization(m) => m.clone(),
            SvgearError::ProcessStartup(m) => m.clone(),
            SvgearError::Protocol(m) => m.clone(),
            SvgearError::Io(m) => m.clone(),
            SvgearError::InvalidParameters(m) => m.clone(),
            SvgearError::UnknownMethod => "Unknown method".to_owned(),
            SvgearError::NoConverter => "No Node server configured".to_owned(),
            SvgearError::UnsupportedPaintType => "Unsupported paint type".to_owned(),
        }
    }
}

} // verus!
