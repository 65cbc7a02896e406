//! The RPC surface: method names, the reply envelope, and the replies for
//! each method, including the composed markup-to-bitmap pipeline.
//!
//! Decoding payloads and performing the converter exchange happen outside;
//! these functions take what came of them and build the reply.
use crate::error::{message_spec, SvgearError};
use crate::manager::{
    cache_wf, get_bitmap_effect, process_effect, CacheView, GetBitmapRequest, GetBitmapResponse,
    RenderRequest, RenderResponse, SvgManager,
};
use crate::painter::PaintParams;
use crate::shared::SharedSvgManager;
use crate::text::{join, text_eq};
use vstd::prelude::*;

verus! {

/// The methods that the router serves.
#[derive(Debug, Clone, Copy, PartialEq, Eq, Structural)]
pub enum Method {
    /// Store and render an SVG.
    RenderSvg,
    /// Fetch the last bitmap rendered for an id.
    GetBitmap,
    /// Convert markup into SVG.
    Paint,
    /// Convert markup into SVG, render it and fetch the bitmap.
    RenderToBitmap,
}

/// A call: the method, its parameters and the caller's correlation id.
#[derive(Debug, Clone)]
pub struct RpcRequest<T> {
    pub method: Method,
    pub params: T,
    pub id: Option<String>,
}

/// A reply: exactly one of `result` and `error`, and the caller's correlation
/// id, echoed unchanged.
#[derive(Debug, Clone)]
pub struct RpcResponse<T> {
    pub result: Option<T>,
    pub error: Option<String>,
    pub id: Option<String>,
}

/// The result of a paint call.
#[derive(Debug, Clone)]
pub struct PaintResult {
    pub svg: String,
}

/// The parameters of a markup-to-bitmap call.
#[derive(Debug, Clone)]
pub struct RenderToBitmapParams {
    pub paint_params: PaintParams,
    pub width: Option<u32>,
    pub height: Option<u32>,
}

/// Why a reply did not yield a result, as a caller sees it.
#[derive(Debug, Clone, PartialEq, Eq)]
pub enum ReplyError {
    /// The reply carried this error text.
    Rpc(String),
    /// The reply carried neither a result nor an error.
    NoResult,
}

impl<T> RpcResponse<T> {
    /// What a caller makes of a reply: its error if it carries one, else its
    /// result, else `NoResult`.
    pub fn into_result(self) -> (r: Result<T, ReplyError>)
        ensures
            match self.error {
                Some(e) => r == Err::<T, ReplyError>(ReplyError::Rpc(e)),
                None => match self.result {
                    Some(v) => r == Ok::<T, ReplyError>(v),
                    None => r == Err::<T, ReplyError>(ReplyError::NoResult),
                },
            },
    {
        match self.error {
            Some(e) => Err(ReplyError::Rpc(e)),
            None => match self.result {
                Some(v) => Ok(v),
                None => Err(ReplyError::NoResult),
            },
        }
    }
}

/// The name under which a method is called.
pub open spec fn method_name_spec(m: Method) -> Seq<char> {
    match m {
        Method::RenderSvg => "RenderSvg"@,
        Method::GetBitmap => "GetBitmap"@,
        Method::Paint => "Paint"@,
        Method::RenderToBitmap => "RenderToBitmap"@,
    }
}

impl Method {
    /// The name under which the method is called.
    pub fn name(&self) -> (r: &'static str)
        ensures
            r@ == method_name_spec(*self),
    {
        match self {
            Method::RenderSvg => "RenderSvg",
            Method::GetBitmap => "GetBitmap",
            Method::Paint => "Paint",
            Method::RenderToBitmap => "RenderToBitmap",
        }
    }

    /// The method called `name`, if any.
    pub fn from_name(name: &str) -> (r: Option<Method>)
        ensures
            r matches Some(m) ==> method_name_spec(m) == name@,
            r is None ==> forall|m: Method| method_name_spec(m) != name@,
    {
        if text_eq(name, "RenderSvg") {
            Some(Method::RenderSvg)
        } else if text_eq(name, "GetBitmap") {
            Some(Method::GetBitmap)
        } else if text_eq(name, "Paint") {
            Some(Method::Paint)
        } else if text_eq(name, "RenderToBitmap") {
            Some(Method::RenderToBitmap)
        } else {
            None
        }
    }
}

/// A reply that carries `detail` after `prefix` as its error.
pub open spec fn is_error_reply<T>(r: RpcResponse<T>, prefix: Seq<char>, detail: Seq<char>, id: Option<String>) -> bool {
    &&& r.result is None
    &&& r.error matches Some(e) && e@ == prefix + detail
    &&& r.id == id
}

/// A reply that carries `result`.
pub open spec fn is_result_reply<T>(r: RpcResponse<T>, result: T, id: Option<String>) -> bool {
    &&& r.result == Some(result)
    &&& r.error is None
    &&& r.id == id
}

/// A successful reply.
pub fn result_reply<T>(result: T, id: Option<String>) -> (r: RpcResponse<T>)
    ensures
        is_result_reply(r, result, id),
{
    RpcResponse { result: Some(result), error: None, id }
}

/// A failed reply whose error text is `prefix` followed by the error's message.
pub fn error_reply<T>(prefix: &str, e: &SvgearError, id: Option<String>) -> (r: RpcResponse<T>)
    ensures
        is_error_reply(r, prefix@, message_spec(*e), id),
{
    let msg = e.message();
    RpcResponse { result: None, error: Some(join(prefix, msg.as_str())), id }
}

/// The reply to a call of a method that the router does not know.
pub fn unknown_method_reply(id: Option<String>) -> (r: RpcResponse<()>)
    ensures
        r.result is None,
        r.error matches Some(e) && e@ == message_spec(SvgearError::UnknownMethod),
        r.id == id,
{
    RpcResponse { result: None, error: Some(SvgearError::UnknownMethod.message()), id }
}

/// The reply to a call whose parameters did not decode; `detail` is the
/// decoder's description.
pub fn invalid_parameters_reply(detail: String, id: Option<String>) -> (r: RpcResponse<()>)
    ensures
        is_error_reply(r, "Invalid parameters: "@, detail@, id),
{
    error_reply("Invalid parameters: ", &SvgearError::InvalidParameters(detail), id)
}

/// The reply to a `RenderSvg` call with the given outcome.
pub fn render_svg_reply(outcome: Result<RenderResponse, SvgearError>, id: Option<String>) -> (r:
    RpcResponse<RenderResponse>)
    ensures
        match outcome {
            Ok(resp) => is_result_reply(r, resp, id),
            Err(e) => is_error_reply(r, "Error rendering SVG: "@, message_spec(e), id),
        },
{
    match outcome {
        Ok(resp) => result_reply(resp, id),
        Err(e) => error_reply("Error rendering SVG: ", &e, id),
    }
}

/// The reply to a `GetBitmap` call with the given outcome.
pub fn get_bitmap_reply(outcome: Result<GetBitmapResponse, SvgearError>, id: Option<String>) -> (r:
    RpcResponse<GetBitmapResponse>)
    ensures
        match outcome {
            Ok(resp) => is_result_reply(r, resp, id),
            Err(e) => is_error_reply(r, "Error getting bitmap: "@, message_spec(e), id),
        },
{
    match outcome {
        Ok(resp) => result_reply(resp, id),
        Err(e) => error_reply("Error getting bitmap: ", &e, id),
    }
}

/// The reply to a `Paint` call with the given outcome of the conversion.
pub fn paint_reply(outcome: Result<String, SvgearError>, id: Option<String>) -> (r: RpcResponse<
    PaintResult,
>)
    ensures
        match outcome {
            Ok(svg) => is_result_reply(r, PaintResult { svg }, id),
            Err(e) => is_error_reply(r, "Error painting: "@, message_spec(e), id),
        },
{
    match outcome {
        Ok(svg) => result_reply(PaintResult { svg }, id),
        Err(e) => error_reply("Error painting: ", &e, id),
    }
}

/// The render request that the pipeline makes of painted SVG text.
pub open spec fn pipeline_request(svg: String, width: Option<u32>, height: Option<u32>) -> RenderRequest {
    RenderRequest { svg_data: svg, width, height, id: None }
}

/// The pipeline's reply `r`, given the outcome `rendered` of its render step
/// and the cache `after` that step: a render failure is reported as such;
/// otherwise the reply carries the bitmap that the cache now holds under the
/// rendered id.
pub open spec fn pipeline_reply(
    rendered: Result<RenderResponse, SvgearError>,
    after: CacheView,
    id: Option<String>,
    r: RpcResponse<GetBitmapResponse>,
) -> bool {
    match rendered {
        Err(e) => is_error_reply(r, "Error rendering SVG: "@, message_spec(e), id),
        Ok(resp) => {
            &&& r.error is None
            &&& r.id == id
            &&& r.result matches Some(g) && g.id@ == resp.id@ && g.bitmap@ == after.bitmaps[resp.id@]
        },
    }
}

/// The reply to a `RenderToBitmap` call, given the outcome of the conversion:
/// the SVG text is rendered as a `RenderSvg` call without an id would render
/// it, and the resulting bitmap is fetched as a `GetBitmap` call would fetch it.
pub fn render_to_bitmap_reply(
    manager: &mut SvgManager,
    painted: Result<String, SvgearError>,
    width: Option<u32>,
    height: Option<u32>,
    id: Option<String>,
) -> (r: RpcResponse<GetBitmapResponse>)
    requires
        old(manager).wf(),
    ensures
        final(manager).wf(),
        match painted {
            Err(e) => is_error_reply(r, "Error painting: "@, message_spec(e), id)
                && final(manager)@ == old(manager)@,
            Ok(svg) => exists|rendered: Result<RenderResponse, SvgearError>|
                process_effect(old(manager)@, pipeline_request(svg, width, height), rendered, final(manager)@)
                && pipeline_reply(rendered, final(manager)@, id, r),
        },
{
    let svg = match painted {
        Ok(svg) => svg,
        Err(e) => return error_reply("Error painting: ", &e, id),
    };
    let request = RenderRequest { svg_data: svg, width, height, id: None };
    let ghost req = request;
    let rendered = manager.process_render_request(request);
    let ghost after = manager@;
    proof {
        assert(req == pipeline_request(req.svg_data, width, height));
    }
    match rendered {
        Err(e) => {
            let r = error_reply("Error rendering SVG: ", &e, id);
            assert(pipeline_reply(rendered, after, id, r));
            r
        },
        Ok(resp) => {
            let fetched = manager.process_get_bitmap_request(GetBitmapRequest { id: resp.id });
            match fetched {
                Ok(g) => {
                    let r = result_reply(g, id);
                    assert(pipeline_reply(rendered, after, id, r));
                    r
                },
                Err(e) => {
                    proof {
                        assert(false);
                    }
                    error_reply("Error getting bitmap: ", &e, id)
                },
            }
        },
    }
}

/// Composing the pipeline by hand gives the same bitmap: after a `RenderSvg`
/// step that succeeds, a `GetBitmap` for the id it returned yields exactly the
/// bitmap that step rendered, and the `RenderToBitmap` reply built on that
/// step carries that same bitmap under that same id.
pub proof fn lemma_pipeline_composition(
    before: CacheView,
    svg: String,
    width: Option<u32>,
    height: Option<u32>,
    rendered: Result<RenderResponse, SvgearError>,
    after: CacheView,
    fetched: Result<GetBitmapResponse, SvgearError>,
    id: Option<String>,
    r: RpcResponse<GetBitmapResponse>,
)
    requires
        process_effect(before, pipeline_request(svg, width, height), rendered, after),
        rendered is Ok,
        get_bitmap_effect(after, rendered->Ok_0.id@, fetched),
        pipeline_reply(rendered, after, id, r),
    ensures
        ({
            &&& rendered matches Ok(resp)
            &&& fetched matches Ok(g)
            &&& g.bitmap@ == rendered->Ok_0.bitmap@
            &&& r.result matches Some(h)
            &&& h.bitmap@ == fetched->Ok_0.bitmap@
            &&& h.id@ == fetched->Ok_0.id@
        }),
{
}

/// The shared pipeline's reply `r`, given the outcome `rendered` of its
/// render step: a render failure is reported as such; otherwise the reply is
/// the `GetBitmap` reply for the rendered id against the cache as the lock
/// held it when the bitmap was fetched.
pub open spec fn shared_pipeline_reply(
    rendered: Result<RenderResponse, SvgearError>,
    id: Option<String>,
    r: RpcResponse<GetBitmapResponse>,
) -> bool {
    match rendered {
        Err(e) => is_error_reply(r, "Error rendering SVG: "@, message_spec(e), id),
        Ok(resp) => exists|v: CacheView, fetched: Result<GetBitmapResponse, SvgearError>|
            cache_wf(v) && get_bitmap_effect(v, resp.id@, fetched) && match fetched {
                Ok(g) => is_result_reply(r, g, id) && g.id == resp.id,
                Err(e) => is_error_reply(r, "Error getting bitmap: "@, message_spec(e), id),
            },
    }
}

impl SharedSvgManager {
    /// The reply to a `RenderToBitmap` call against the shared cache; the
    /// render and the fetch each take the lock, so other callers may act in
    /// between.
    pub fn render_to_bitmap_reply(
        &self,
        painted: Result<String, SvgearError>,
        width: Option<u32>,
        height: Option<u32>,
        id: Option<String>,
    ) -> (r: RpcResponse<GetBitmapResponse>)
        ensures
            r.result is Some <==> r.error is None,
            match painted {
                Err(e) => is_error_reply(r, "Error painting: "@, message_spec(e), id),
                Ok(svg) => exists|
                    before: CacheView,
                    rendered: Result<RenderResponse, SvgearError>,
                    after: CacheView,
                |
                    cache_wf(before) && process_effect(
                        before,
                        pipeline_request(svg, width, height),
                        rendered,
                        after,
                    ) && shared_pipeline_reply(rendered, id, r),
            },
    {
        let svg = match painted {
            Ok(svg) => svg,
            Err(e) => return error_reply("Error painting: ", &e, id),
        };
        let request = RenderRequest { svg_data: svg, width, height, id: None };
        let ghost req = request;
        proof {
            assert(req == pipeline_request(req.svg_data, width, height));
        }
        let rendered = self.process_render_request(request);
        match rendered {
            Err(e) => {
                let r = error_reply("Error rendering SVG: ", &e, id);
                assert(shared_pipeline_reply(rendered, id, r));
                r
            },
            Ok(resp) => {
                let ghost resp_id = resp.id;
                let fetched = self.process_get_bitmap_request(GetBitmapRequest { id: resp.id });
                let ghost f = fetched;
                let r = get_bitmap_reply(fetched, id);
                proof {
                    let v = choose|v: CacheView| cache_wf(v) && get_bitmap_effect(v, resp_id@, f);
                    assert(cache_wf(v) && get_bitmap_effect(v, resp_id@, f));
                }
                assert(shared_pipeline_reply(rendered, id, r));
                r
            },
        }
    }
}

} // verus!
