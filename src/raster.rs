//! Rasterization: the size policy, and the calls into usvg, tiny-skia and
//! resvg that parse, paint and encode.
use resvg::tiny_skia::Pixmap;
use resvg::usvg::{ImageKind, Tree};
use vstd::arithmetic::div_mod::{lemma_basic_div, lemma_div_by_multiple, lemma_div_is_ordered};
use vstd::arithmetic::power2::{
    lemma2_to64, lemma_pow2_adds, lemma_pow2_pos, lemma_pow2_strictly_increases, lemma_pow2_unfold,
    pow2,
};
use vstd::prelude::*;

verus! {

/// A parsed SVG document; opaque here.
#[verifier::external_type_specification]
#[verifier::external_body]
pub struct ExTree(resvg::usvg::Tree);

/// A premultiplied RGBA pixel buffer; opaque here.
#[verifier::external_type_specification]
#[verifier::external_body]
pub struct ExPixmap(resvg::tiny_skia::Pixmap);

/// The options that parsing runs with; opaque here.
#[verifier::external_type_specification]
#[verifier::external_body]
pub struct ExOptions<'a>(resvg::usvg::Options<'a>);

/// The content of an `<image>` element; opaque here.
#[verifier::external_type_specification]
#[verifier::external_body]
pub struct ExImageKind(resvg::usvg::ImageKind);

/// Resolves no `<image>` reference that is not a data URL: a document's
/// size and content then depend on its text alone, never on files.
fn no_external_image(href: &str, opts: &resvg::usvg::Options) -> (r: Option<ImageKind>)
    ensures
        r is None,
{
    None
}

/// Whether usvg accepts the text as an SVG document.
pub uninterp spec fn svg_parses(text: Seq<char>) -> bool;

/// The native width and height of an SVG document that usvg accepts (with
/// the options of `parse_svg`), as the bits of their IEEE-754 single
/// precision values (see `native_value`).
pub uninterp spec fn native_size_of(text: Seq<char>) -> (u32, u32);

/// A parsed document together with its native size (as IEEE-754 bits).
pub(crate) struct ParsedSvg {
    pub(crate) tree: Tree,
    pub(crate) width: u32,
    pub(crate) height: u32,
}

/// Relies on `usvg::Tree::from_str`, which parses the text, and on
/// `Tree::size`, the document's size in user units, a positive finite
/// `f32` per side, handed on as its bits (`f32::to_bits`). The options are the defaults (no
/// resources directory, an empty font database) except that `<image>`
/// references other than data URLs resolve to nothing, so no file is read
/// and the result depends on the text alone.
#[verifier::external_body]
pub(crate) fn parse_svg(text: &str) -> (r: Result<ParsedSvg, String>)
    ensures
        r is Ok <==> svg_parses(text@),
        r matches Ok(p) ==> (p.width, p.height) == native_size_of(text@),
{
    let mut opt = resvg::usvg::Options::default();
    opt.image_href_resolver.resolve_string = Box::new(|href, opts| no_external_image(href, opts));
    match Tree::from_str(text, &opt) {
        Ok(tree) => {
            let size = tree.size();
            Ok(ParsedSvg { width: size.width().to_bits(), height: size.height().to_bits(), tree })
        },
        Err(e) => Err(e.to_string()),
    }
}

/// Whether a pixel size can be painted: both sides positive, small enough
/// for the renderer's working area, and the pixel buffer addressable.
pub open spec fn paintable(width: int, height: int) -> bool {
    &&& 0 < width
    &&& 0 < height
    &&& 5 * width <= i32::MAX
    &&& 5 * height <= i32::MAX
    &&& 4 * width * height <= usize::MAX
}

/// The significand of a positive IEEE-754 single given by its bits: the
/// fraction field, with the implicit leading one unless the number is subnormal.
pub open spec fn f32_mantissa(bits: u32) -> nat {
    let e = (bits as nat / 0x80_0000) % 256;
    let f = bits as nat % 0x80_0000;
    if e == 0 {
        f
    } else {
        f + 0x80_0000
    }
}

/// The binary exponent that scales `f32_mantissa` to the number's value.
pub open spec fn f32_exponent(bits: u32) -> int {
    let e = (bits as nat / 0x80_0000) % 256;
    if e == 0 {
        -149
    } else {
        e - 150
    }
}

/// `a * 2^x / b`, rounded toward zero.
pub open spec fn floor_scaled(a: nat, x: int, b: nat) -> nat {
    if x >= 0 {
        a * pow2(x as nat) / b
    } else {
        a / (b * pow2((-x) as nat))
    }
}

/// A count capped at `u32::MAX`.
pub open spec fn saturate(v: nat) -> u32 {
    if v > u32::MAX {
        u32::MAX
    } else {
        v as u32
    }
}

/// A native side, given by its bits, rounded toward zero to whole pixels
/// (at most `u32::MAX`).
pub open spec fn whole_pixels(bits: u32) -> u32 {
    saturate(floor_scaled(f32_mantissa(bits), f32_exponent(bits), 1))
}

/// `given * other / this` for native sides given by their bits, rounded
/// toward zero, at most `u32::MAX`; zero when `this` is zero.
pub open spec fn scale_spec(given: u32, other: u32, this: u32) -> u32 {
    if f32_mantissa(this) == 0 {
        0
    } else {
        saturate(
            floor_scaled(
                (given * f32_mantissa(other)) as nat,
                f32_exponent(other) - f32_exponent(this),
                f32_mantissa(this),
            ),
        )
    }
}

/// The size at which a document of native size `native` (the bits of each
/// side) is rendered when the caller asks for `width` and `height`: a given
/// side is kept; a missing side follows the native aspect ratio,
/// `given * other_native / given_native` rounded toward zero; with neither
/// given, the native size rounded toward zero.
pub open spec fn target_size_spec(width: Option<u32>, height: Option<u32>, native: (u32, u32)) -> (
    u32,
    u32,
) {
    match (width, height) {
        (Some(w), Some(h)) => (w, h),
        (Some(w), None) => (w, scale_spec(w, native.1, native.0)),
        (None, Some(h)) => (scale_spec(h, native.0, native.1), h),
        (None, None) => (whole_pixels(native.0), whole_pixels(native.1)),
    }
}

fn pow2_u128(k: u32) -> (r: u128)
    requires
        k <= 96,
    ensures
        r == pow2(k as nat),
{
    proof {
        lemma2_to64();
        lemma_pow2_adds(64, 32);
    }
    let mut r: u128 = 1;
    let mut i: u32 = 0;
    while i < k
        invariant
            i <= k <= 96,
            r == pow2(i as nat),
            pow2(96) == 0x1_0000_0000_0000_0000_0000_0000u128,
        decreases k - i,
    {
        proof {
            lemma_pow2_unfold((i + 1) as nat);
            if i + 1 < 96 {
                lemma_pow2_strictly_increases((i + 1) as nat, 96);
            }
        }
        r = r * 2;
        i = i + 1;
    }
    r
}

/// Computes `saturate(floor_scaled(a, x, b))`.
fn floor_scaled_sat(a: u64, x: i32, b: u64) -> (r: u32)
    requires
        a < 0x200_0000_0000_0000,
        0 < b < 0x100_0000,
        -400 < x < 400,
    ensures
        r == saturate(floor_scaled(a as nat, x as int, b as nat)),
{
    proof {
        lemma2_to64();
    }
    if a == 0 {
        proof {
            if x >= 0 {
                assert(0 * pow2(x as nat) == 0);
            } else {
                lemma_pow2_pos((-x) as nat);
                assert(b * pow2((-x) as nat) > 0) by (nonlinear_arith)
                    requires
                        b > 0,
                        pow2((-x) as nat) > 0,
                ;
            }
        }
        return 0;
    }
    if x >= 0 {
        if x > 56 {
            proof {
                let p = pow2(x as nat);
                lemma_pow2_adds(33, 24);
                lemma_pow2_unfold(33);
                if (x as nat) > 57 {
                    lemma_pow2_strictly_increases(57, x as nat);
                }
                assert(a * p >= p) by (nonlinear_arith)
                    requires
                        a >= 1,
                        p >= 0,
                ;
                assert(b * pow2(33) <= pow2(57)) by (nonlinear_arith)
                    requires
                        b < pow2(24),
                        pow2(57) == pow2(33) * pow2(24),
                        pow2(33) > 0,
                ;
                lemma_div_is_ordered(b * pow2(33), a * p, b as int);
                lemma_div_by_multiple(pow2(33) as int, b as int);
                assert(pow2(33) as int * b == b * pow2(33)) by (nonlinear_arith);
            }
            return u32::MAX;
        }
        let p = pow2_u128(x as u32);
        proof {
            lemma_pow2_adds(32, 24);
            if (x as nat) < 56 {
                lemma_pow2_strictly_increases(x as nat, 56);
            }
            assert((a as u128) * p < 0x200_0000_0000_0000u128 * 0x100_0000_0000_0000u128) by (nonlinear_arith)
                requires
                    a < 0x200_0000_0000_0000u64,
                    p <= 0x100_0000_0000_0000u128,
            ;
        }
        let num: u128 = a as u128 * p;
        let q: u128 = num / (b as u128);
        if q > u32::MAX as u128 {
            u32::MAX
        } else {
            q as u32
        }
    } else {
        let k: u32 = (0 - x) as u32;
        if k > 57 {
            proof {
                let p = pow2(k as nat);
                lemma_pow2_adds(32, 24);
                lemma_pow2_unfold(57);
                lemma_pow2_unfold(58);
                if k > 58 {
                    lemma_pow2_strictly_increases(58, k as nat);
                }
                assert(b * p >= p) by (nonlinear_arith)
                    requires
                        b >= 1,
                        p >= 0,
                ;
                lemma_basic_div(a as int, (b * p) as int);
            }
            return 0;
        }
        let p = pow2_u128(k);
        proof {
            lemma_pow2_adds(32, 24);
            lemma_pow2_unfold(57);
            if (k as nat) < 57 {
                lemma_pow2_strictly_increases(k as nat, 57);
            }
            lemma_pow2_pos(k as nat);
            assert((b as u128) * p <= 0x100_0000u128 * 0x200_0000_0000_0000u128) by (nonlinear_arith)
                requires
                    b < 0x100_0000u64,
                    p <= 0x200_0000_0000_0000u128,
            ;
            assert((b as u128) * p > 0) by (nonlinear_arith)
                requires
                    b > 0,
                    p > 0,
            ;
        }
        let den: u128 = b as u128 * p;
        let q: u128 = a as u128 / den;
        if q > u32::MAX as u128 {
            u32::MAX
        } else {
            q as u32
        }
    }
}

fn mantissa(bits: u32) -> (r: u64)
    ensures
        r == f32_mantissa(bits),
        r < 0x100_0000,
{
    let e = bits / 0x80_0000 % 256;
    let f = bits % 0x80_0000;
    if e == 0 {
        f as u64
    } else {
        f as u64 + 0x80_0000
    }
}

fn exponent(bits: u32) -> (r: i32)
    ensures
        r == f32_exponent(bits),
        -150 <= r <= 105,
{
    let e = bits / 0x80_0000 % 256;
    if e == 0 {
        -149
    } else {
        e as i32 - 150
    }
}

fn scale(given: u32, other: u32, this: u32) -> (r: u32)
    ensures
        r == scale_spec(given, other, this),
{
    let m_this = mantissa(this);
    if m_this == 0 {
        return 0;
    }
    let m_other = mantissa(other);
    proof {
        assert((given as u64) * m_other < 0x1_0000_0000u64 * 0x100_0000u64) by (nonlinear_arith)
            requires
                given <= 0xffff_ffffu32,
                m_other < 0x100_0000u64,
        ;
    }
    let a: u64 = given as u64 * m_other;
    floor_scaled_sat(a, exponent(other) - exponent(this), m_this)
}

/// Resolves the rendering size from the requested sides and the native size
/// (the bits of each side's IEEE-754 single precision value).
pub fn target_size(width: Option<u32>, height: Option<u32>, native_width: u32, native_height: u32) -> (r: (u32, u32))
    ensures
        r == target_size_spec(width, height, (native_width, native_height)),
{
    match (width, height) {
        (Some(w), Some(h)) => (w, h),
        (Some(w), None) => (w, scale(w, native_height, native_width)),
        (None, Some(h)) => (scale(h, native_width, native_height), h),
        (None, None) => (
            floor_scaled_sat(mantissa(native_width), exponent(native_width), 1),
            floor_scaled_sat(mantissa(native_height), exponent(native_height), 1),
        ),
    }
}

/// Decides `paintable` for a pixel size.
pub fn is_paintable(width: u32, height: u32) -> (r: bool)
    ensures
        r == paintable(width as int, height as int),
{
    if width == 0 || height == 0 {
        return false;
    }
    if width as u64 * 5 > i32::MAX as u64 || height as u64 * 5 > i32::MAX as u64 {
        return false;
    }
    proof {
        assert((width as int) * (height as int) <= 429496729int * 429496729int) by (nonlinear_arith)
            requires
                width <= 429496729,
                height <= 429496729,
        ;
    }
    let area: u64 = width as u64 * height as u64;
    proof {
        assert(4 * width * height == 4 * area) by (nonlinear_arith)
            requires
                area == (width as int) * (height as int),
        ;
    }
    4 * area <= usize::MAX as u64
}

/// A pixel buffer of a known size.
pub(crate) struct Canvas {
    pub(crate) pixmap: Pixmap,
    pub(crate) width: u32,
    pub(crate) height: u32,
}

/// Relies on `tiny_skia::Pixmap::new`, which gives a transparent buffer of
/// `width` by `height` pixels, and `None` exactly when a side is zero, the row
/// (`4 * width` bytes) exceeds `i32::MAX`, or the buffer size overflows `usize`.
#[verifier::external_body]
fn new_pixmap(width: u32, height: u32) -> (r: Option<Pixmap>)
    ensures
        r is Some <==> (0 < width && 0 < height && 4 * width <= i32::MAX && 4 * width * height
            <= usize::MAX),
{
    Pixmap::new(width, height)
}

impl Canvas {
    /// A blank canvas of a paintable size.
    pub(crate) fn new(width: u32, height: u32) -> (r: Canvas)
        requires
            paintable(width as int, height as int),
        ensures
            r.width == width,
            r.height == height,
    {
        let pixmap = new_pixmap(width, height).unwrap();
        Canvas { pixmap, width, height }
    }
}

/// Relies on `resvg::render` with the identity transform, which paints the
/// tree onto the canvas's pixmap; it unwraps a working rectangle five times
/// the pixmap's size, hence the bounds on the sides.
#[verifier::external_body]
pub(crate) fn render_tree(svg: &ParsedSvg, canvas: &mut Canvas)
    requires
        paintable(old(canvas).width as int, old(canvas).height as int),
    ensures
        final(canvas).width == old(canvas).width,
        final(canvas).height == old(canvas).height,
{
    resvg::render(&svg.tree, resvg::usvg::Transform::identity(), &mut canvas.pixmap.as_mut())
}

/// The eight bytes that open every PNG file.
pub open spec fn png_signature() -> Seq<u8> {
    seq![137u8, 80u8, 78u8, 71u8, 13u8, 10u8, 26u8, 10u8]
}

/// Relies on `tiny_skia::Pixmap::encode_png`, whose encoder writes the PNG
/// signature before anything else. It encodes 8-bit RGBA, a valid pair, of a
/// pixmap whose sides are positive and whose buffer has exactly the expected
/// length; the header step fails only on a zero side or an invalid
/// colour/depth pair, the image data is split into chunks short enough to
/// pass the chunk-length check, and all writing goes into a `Vec<u8>`, which
/// does not fail. So a result always comes back.
#[verifier::external_body]
pub(crate) fn encode_png(canvas: &Canvas) -> (r: Option<Vec<u8>>)
    ensures
        r is Some,
        r matches Some(d) ==> d@.len() >= 8 && d@.take(8) == png_signature(),
{
    canvas.pixmap.encode_png().ok()
}

} // verus!
