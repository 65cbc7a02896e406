//! Content-addressed SVG rendering: a cache keyed by content hash, a
//! converter session that turns markup into SVG through a helper process,
//! an RPC routing layer and a job queue for asynchronous callers.
pub mod content_id;
pub mod error;
pub mod text;
pub mod bitmap;
pub mod tables;
pub mod raster;
pub mod manager;
pub mod shared;
pub mod node_server;
pub mod painter;
pub mod mermaid;
pub mod plain_painter;
pub mod jobs;
pub mod rpc;
pub mod service;

pub use manager::{GetBitmapRequest, GetBitmapResponse, RenderRequest, RenderResponse, SvgManager};
pub use painter::{PaintParams, PaintType, Painter};
pub use rpc::{Method, PaintResult, RenderToBitmapParams, RpcRequest, RpcResponse};
pub use service::Svgear;
pub use shared::SharedSvgManager;
