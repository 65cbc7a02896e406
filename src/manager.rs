//! The content-addressed render cache.
use crate::bitmap::{Bitmap, BitmapView};
use crate::content_id::{content_id, content_id_spec, is_hex_char, ID_LEN};
use crate::error::SvgearError;
use crate::raster::{
    encode_png, is_paintable, native_size_of, paintable, parse_svg, png_signature, render_tree,
    svg_parses, target_size, target_size_spec, Canvas,
};
use crate::tables::{
    bitmap_entries, bitmap_table_get, bitmap_table_insert, new_bitmap_table, new_svg_table,
    svg_entries, svg_table_get, svg_table_insert,
};
use fxhash::FxHashMap;
use vstd::prelude::*;

verus! {

/// A request to store and render an SVG.
#[derive(Debug, Clone)]
pub struct RenderRequest {
    /// The SVG text.
    pub svg_data: String,
    /// The requested width in pixels.
    pub width: Option<u32>,
    /// The requested height in pixels.
    pub height: Option<u32>,
    /// An id to store the SVG under in place of its content id.
    pub id: Option<String>,
}

/// The answer to a render request.
#[derive(Debug, Clone)]
pub struct RenderResponse {
    /// The id the SVG is stored under.
    pub id: String,
    /// Whether an SVG was already stored under the id before the request.
    pub cached: bool,
    /// The bitmap that the request rendered.
    pub bitmap: Bitmap,
}

/// A request for the bitmap last rendered for an id.
#[derive(Debug, Clone)]
pub struct GetBitmapRequest {
    pub id: String,
}

/// The answer to a bitmap request.
#[derive(Debug, Clone)]
pub struct GetBitmapResponse {
    pub id: String,
    pub bitmap: Bitmap,
}

/// The cache's contents: the SVG text and the last bitmap under each id.
pub struct CacheView {
    pub svgs: Map<Seq<char>, Seq<char>>,
    pub bitmaps: Map<Seq<char>, BitmapView>,
}

/// Every bitmap belongs to a stored SVG.
pub open spec fn cache_wf(v: CacheView) -> bool {
    v.bitmaps.dom().subset_of(v.svgs.dom())
}

/// Whether the bytes are the start of a PNG file.
pub open spec fn is_png(data: Seq<u8>) -> bool {
    data.len() >= 8 && data.take(8) == png_signature()
}

/// The text of an optional string.
pub open spec fn opt_view(o: Option<String>) -> Option<Seq<char>> {
    match o {
        Some(s) => Some(s@),
        None => None,
    }
}

/// The id under which an SVG is stored: the caller's id, else the content id.
pub open spec fn resolve_id_spec(svg: Seq<char>, custom_id: Option<Seq<char>>) -> Seq<char> {
    match custom_id {
        Some(id) => id,
        None => content_id_spec(svg),
    }
}

/// Stores `svg` under `id` unless something is stored there already: the
/// first writer wins.
pub open spec fn store_spec(v: CacheView, id: Seq<char>, svg: Seq<char>) -> CacheView {
    if v.svgs.contains_key(id) {
        v
    } else {
        CacheView { svgs: v.svgs.insert(id, svg), bitmaps: v.bitmaps }
    }
}

/// The outcome of rendering the SVG under `id` at the requested size,
/// relating the cache before (`old`), the result `r` and the cache after (`new`).
/// It succeeds exactly when the SVG parses and the resolved size is paintable;
/// success replaces the id's bitmap with a PNG of the resolved size.
pub open spec fn render_effect(
    old: CacheView,
    id: Seq<char>,
    width: Option<u32>,
    height: Option<u32>,
    r: Result<(u32, u32), SvgearError>,
    new: CacheView,
) -> bool {
    if !old.svgs.contains_key(id) {
        r == Err::<(u32, u32), SvgearError>(SvgearError::SvgNotFound) && new == old
    } else {
        let svg = old.svgs[id];
        match r {
            Ok(dims) => {
                &&& svg_parses(svg)
                &&& dims == target_size_spec(width, height, native_size_of(svg))
                &&& paintable(dims.0 as int, dims.1 as int)
                &&& new.svgs == old.svgs
                &&& new.bitmaps.contains_key(id)
                &&& new.bitmaps == old.bitmaps.insert(id, new.bitmaps[id])
                &&& new.bitmaps[id].width == dims.0
                &&& new.bitmaps[id].height == dims.1
                &&& is_png(new.bitmaps[id].data)
            },
            Err(e) => {
                &&& e is Rasterization
                &&& new == old
                &&& !(svg_parses(svg) && paintable(
                    target_size_spec(width, height, native_size_of(svg)).0 as int,
                    target_size_spec(width, height, native_size_of(svg)).1 as int,
                ))
            },
        }
    }
}

/// The outcome of a render request: the SVG is stored under the resolved id
/// unless that id is taken, then rendered; `cached` tells whether the id was
/// taken before the call.
pub open spec fn process_effect(
    old: CacheView,
    request: RenderRequest,
    r: Result<RenderResponse, SvgearError>,
    new: CacheView,
) -> bool {
    let id = resolve_id_spec(request.svg_data@, opt_view(request.id));
    let mid = store_spec(old, id, request.svg_data@);
    match r {
        Ok(resp) => {
            &&& resp.id@ == id
            &&& resp.cached == old.svgs.contains_key(id)
            &&& render_effect(
                mid,
                id,
                request.width,
                request.height,
                Ok((resp.bitmap.width, resp.bitmap.height)),
                new,
            )
            &&& resp.bitmap@ == new.bitmaps[id]
        },
        Err(e) => render_effect(mid, id, request.width, request.height, Err(e), new),
    }
}

/// Stores SVG documents and the bitmaps rendered from them.
pub struct SvgManager {
    svgs: FxHashMap<String, String>,
    bitmaps: FxHashMap<String, Bitmap>,
}

impl View for SvgManager {
    type V = CacheView;

    closed spec fn view(&self) -> CacheView {
        CacheView { svgs: svg_entries(self.svgs), bitmaps: bitmap_entries(self.bitmaps) }
    }
}

impl SvgManager {
    /// Every bitmap belongs to a stored SVG.
    pub open spec fn wf(&self) -> bool {
        cache_wf(self@)
    }

    /// An empty cache.
    pub fn new() -> (r: SvgManager)
        ensures
            r.wf(),
            r@.svgs == Map::<Seq<char>, Seq<char>>::empty(),
            r@.bitmaps == Map::<Seq<char>, BitmapView>::empty(),
    {
        let r = SvgManager { svgs: new_svg_table(), bitmaps: new_bitmap_table() };
        proof {
            assert(r@.svgs =~= Map::<Seq<char>, Seq<char>>::empty());
            assert(r@.bitmaps =~= Map::<Seq<char>, BitmapView>::empty());
        }
        r
    }

    /// The content id of an SVG text.
    pub fn generate_id(svg_data: &str) -> (r: String)
        ensures
            r@ == content_id_spec(svg_data@),
            r@.len() == ID_LEN,
            forall|i: int| 0 <= i < r@.len() ==> is_hex_char(#[trigger] r@[i]),
    {
        content_id(svg_data)
    }

    /// Stores an SVG under the caller's id, or under its content id, and
    /// returns that id. An id that is taken keeps its SVG.
    pub fn store_svg(&mut self, svg_data: &str, custom_id: Option<String>) -> (id: String)
        requires
            old(self).wf(),
        ensures
            final(self).wf(),
            id@ == resolve_id_spec(svg_data@, opt_view(custom_id)),
            final(self)@ == store_spec(old(self)@, id@, svg_data@),
    {
        let id = match custom_id {
            Some(c) => c,
            None => Self::generate_id(svg_data),
        };
        if svg_table_get(&self.svgs, id.as_str()).is_none() {
            svg_table_insert(&mut self.svgs, id.clone(), svg_data.to_owned());
        }
        id
    }

    /// The SVG stored under an id.
    pub fn get_svg(&self, id: &str) -> (r: Option<&str>)
        ensures
            r is Some <==> self@.svgs.contains_key(id@),
            r matches Some(s) ==> s@ == self@.svgs[id@],
    {
        match svg_table_get(&self.svgs, id) {
            Some(s) => Some(s.as_str()),
            None => None,
        }
    }

    /// Renders the SVG stored under `id` to a PNG bitmap, which replaces the
    /// id's previous bitmap, and returns the size it was rendered at.
    pub fn render_svg(&mut self, id: &str, width: Option<u32>, height: Option<u32>) -> (r: Result<
        (u32, u32),
        SvgearError,
    >)
        requires
            old(self).wf(),
        ensures
            final(self).wf(),
            render_effect(old(self)@, id@, width, height, r, final(self)@),
    {
        let svg_data = match svg_table_get(&self.svgs, id) {
            Some(s) => s,
            None => return Err(SvgearError::SvgNotFound),
        };
        let parsed = match parse_svg(svg_data.as_str()) {
            Ok(p) => p,
            Err(msg) => return Err(SvgearError::Rasterization(msg)),
        };
        let (target_width, target_height) = target_size(width, height, parsed.width, parsed.height);
        if !is_paintable(target_width, target_height) {
            return Err(SvgearError::Rasterization("Failed to create pixmap".to_owned()));
        }
        let mut canvas = Canvas::new(target_width, target_height);
        render_tree(&parsed, &mut canvas);
        let png_data = match encode_png(&canvas) {
            Some(d) => d,
            None => return Err(SvgearError::Rasterization("Failed to encode PNG".to_owned())),
        };
        let bitmap = Bitmap { data: png_data, width: target_width, height: target_height };
        bitmap_table_insert(&mut self.bitmaps, id.to_owned(), bitmap);
        Ok((target_width, target_height))
    }

    /// The bitmap last rendered under an id.
    pub fn get_bitmap(&self, id: &str) -> (r: Option<&Bitmap>)
        ensures
            r is Some <==> self@.bitmaps.contains_key(id@),
            r matches Some(b) ==> b@ == self@.bitmaps[id@],
    {
        bitmap_table_get(&self.bitmaps, id)
    }

    /// Stores the request's SVG under its resolved id (unless that id is
    /// taken), renders it at the requested size and returns the bitmap.
    pub fn process_render_request(&mut self, request: RenderRequest) -> (r: Result<
        RenderResponse,
        SvgearError,
    >)
        requires
            old(self).wf(),
        ensures
            final(self).wf(),
            process_effect(old(self)@, request, r, final(self)@),
    {
        let ghost req = request;
        let id = match request.id {
            Some(c) => c,
            None => Self::generate_id(request.svg_data.as_str()),
        };
        let cached = self.get_svg(id.as_str()).is_some();
        if !cached {
            self.store_svg(request.svg_data.as_str(), Some(id.clone()));
        }
        let (width, height) = self.render_svg(id.as_str(), request.width, request.height)?;
        let bitmap = match self.get_bitmap(id.as_str()) {
            Some(b) => b.duplicate(),
            None => {
                proof {
                    assert(false);
                }
                return Err(SvgearError::BitmapNotFound);
            },
        };
        proof {
            assert(id@ == resolve_id_spec(req.svg_data@, opt_view(req.id)));
        }
        Ok(RenderResponse { id, cached, bitmap })
    }

    /// The bitmap last rendered under the request's id.
    pub fn process_get_bitmap_request(&self, request: GetBitmapRequest) -> (r: Result<
        GetBitmapResponse,
        SvgearError,
    >)
        ensures
            get_bitmap_effect(self@, request.id@, r),
            r matches Ok(resp) ==> resp.id == request.id,
    {
        if self.get_svg(request.id.as_str()).is_none() {
            return Err(SvgearError::SvgNotFound);
        }
        match self.get_bitmap(request.id.as_str()) {
            Some(b) => {
                let bitmap = b.duplicate();
                Ok(GetBitmapResponse { id: request.id, bitmap })
            },
            None => Err(SvgearError::BitmapNotFound),
        }
    }
}

/// The answer to a bitmap request for `id`: the id's last bitmap; otherwise
/// `SvgNotFound` when no SVG is stored under it and `BitmapNotFound` when
/// nothing was rendered for it yet.
pub open spec fn get_bitmap_effect(
    v: CacheView,
    id: Seq<char>,
    r: Result<GetBitmapResponse, SvgearError>,
) -> bool {
    if !v.svgs.contains_key(id) {
        r == Err::<GetBitmapResponse, SvgearError>(SvgearError::SvgNotFound)
    } else if !v.bitmaps.contains_key(id) {
        r == Err::<GetBitmapResponse, SvgearError>(SvgearError::BitmapNotFound)
    } else {
        r matches Ok(resp) && resp.id@ == id && resp.bitmap@ == v.bitmaps[id]
    }
}

/// Storing byte-identical SVG text twice without an id yields the same id
/// both times, and the second store leaves the cache as the first left it.
pub proof fn lemma_store_deterministic(v: CacheView, svg1: Seq<char>, svg2: Seq<char>)
    requires
        svg1 == svg2,
    ensures
        ({
            let id1 = resolve_id_spec(svg1, None);
            let id2 = resolve_id_spec(svg2, None);
            let v1 = store_spec(v, id1, svg1);
            &&& id1 == id2
            &&& store_spec(v1, id2, svg2) == v1
            &&& v1.svgs.contains_key(id1)
        }),
{
}

/// Two render requests with the same SVG text and no id, against a cache
/// that does not hold that text's content id: whatever sizes they ask for,
/// the first reports `cached == false` and the second `cached == true`.
pub proof fn lemma_cached_flag(
    v0: CacheView,
    req1: RenderRequest,
    r1: Result<RenderResponse, SvgearError>,
    v1: CacheView,
    req2: RenderRequest,
    r2: Result<RenderResponse, SvgearError>,
    v2: CacheView,
)
    requires
        req1.svg_data@ == req2.svg_data@,
        req1.id is None,
        req2.id is None,
        !v0.svgs.contains_key(content_id_spec(req1.svg_data@)),
        process_effect(v0, req1, r1, v1),
        process_effect(v1, req2, r2, v2),
    ensures
        r1 matches Ok(resp) ==> !resp.cached,
        r2 matches Ok(resp) ==> resp.cached,
{
    let id = content_id_spec(req1.svg_data@);
    assert(store_spec(v0, id, req1.svg_data@).svgs.contains_key(id));
    assert(v1.svgs.contains_key(id));
}

/// Storing an SVG never renders it: right after a store, asking for the
/// id's bitmap fails with `BitmapNotFound` unless a bitmap was there before.
pub proof fn lemma_store_has_no_bitmap(
    v: CacheView,
    svg: Seq<char>,
    custom_id: Option<Seq<char>>,
    r: Result<GetBitmapResponse, SvgearError>,
)
    requires
        !v.bitmaps.contains_key(resolve_id_spec(svg, custom_id)),
        get_bitmap_effect(
            store_spec(v, resolve_id_spec(svg, custom_id), svg),
            resolve_id_spec(svg, custom_id),
            r,
        ),
    ensures
        r == Err::<GetBitmapResponse, SvgearError>(SvgearError::BitmapNotFound),
{
}

} // verus!
