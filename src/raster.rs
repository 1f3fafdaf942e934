use vstd::prelude::*;
use vstd::string::StringExecFns;

use crate::error::Error;
use crate::text::{decimal, has_prefix, push_decimal};

verus! {

#[verifier::external_type_specification]
#[verifier::external_body]
pub struct ExTree(usvg::Tree);

#[verifier::external_type_specification]
#[verifier::external_body]
pub struct ExPixmap(tiny_skia::Pixmap);

/// A rasterized image: its size in pixels and its PNG encoding.
#[derive(Debug, Clone)]
pub struct RasterImage {
    pub width: u32,
    pub height: u32,
    pub png: Vec<u8>,
}

/// Whether tiny-skia can make an RGBA pixel buffer of this size: both sides
/// positive, a row's bytes within `i32`, and all bytes within `usize`.
pub open spec fn pixmap_fits(width: u32, height: u32) -> bool {
    &&& width > 0
    &&& height > 0
    &&& 4 * width <= i32::MAX
    &&& height * 4 * width <= usize::MAX
}

/// Whether usvg (default options, empty font database) parses a text as an
/// SVG document.
pub uninterp spec fn svg_parses(text: Seq<char>) -> bool;

/// Width and height of a tiny-skia pixmap.
pub uninterp spec fn pixmap_dimensions(p: tiny_skia::Pixmap) -> (nat, nat);

/// Relies on usvg's `Tree::from_data` with default options, whose font
/// database is empty; the parse error is returned as its message. Whether it
/// parses depends on the text alone.
#[verifier::external_body]
fn usvg_parse(text: &str) -> (r: Result<usvg::Tree, String>)
    ensures
        r is Ok <==> svg_parses(text@),
{
    usvg::Tree::from_data(text.as_bytes(), &usvg::Options::default()).map_err(|e| e.to_string())
}

/// Relies on tiny-skia's `Pixmap::new`: `None` when a side is zero or the
/// buffer's length does not fit (`min_row_bytes`, `compute_data_len`),
/// otherwise a pixmap of the requested size.
#[verifier::external_body]
fn pixmap_new(width: u32, height: u32) -> (r: Option<tiny_skia::Pixmap>)
    ensures
        r is Some <==> pixmap_fits(width, height),
        r matches Some(p) ==> pixmap_dimensions(p) == (width as nat, height as nat),
{
    tiny_skia::Pixmap::new(width, height)
}

/// Relies on resvg's `render`: draws the tree onto the pixmap with the
/// identity transform, leaving its size as it is. It unwraps a clip rectangle
/// four times the pixmap's size, hence the bound on both sides.
#[verifier::external_body]
fn resvg_render(tree: &usvg::Tree, pixmap: &mut tiny_skia::Pixmap)
    requires
        4 * pixmap_dimensions(*old(pixmap)).0 <= i32::MAX,
        4 * pixmap_dimensions(*old(pixmap)).1 <= i32::MAX,
    ensures
        pixmap_dimensions(*final(pixmap)) == pixmap_dimensions(*old(pixmap)),
{
    resvg::render(tree, tiny_skia::Transform::default(), &mut pixmap.as_mut())
}

/// Relies on tiny-skia's `Pixmap::encode_png`. It writes into a `Vec`, and a
/// pixmap never has a zero side, so png's encoder has no reason to fail.
#[verifier::external_body]
fn pixmap_encode_png(pixmap: &tiny_skia::Pixmap) -> (r: Result<Vec<u8>, String>)
    ensures
        r is Ok,
{
    pixmap.encode_png().map_err(|e| e.to_string())
}

/// Start of the message when the SVG does not parse.
pub open spec fn parse_failure_prefix(size: nat) -> Seq<char> {
    "Failed to create SVG tree from data of size "@ + decimal(size) + "x"@ + decimal(size) + ": "@
}

/// Message when the pixel buffer cannot be made.
pub open spec fn pixmap_failure_message() -> Seq<char> {
    "Failed to create a new Pixmap"@
}

/// Whether rasterizing `svg` at `size` succeeds: the text parses and the
/// buffer can be made.
pub open spec fn raster_succeeds(svg: Seq<char>, size: u32) -> bool {
    svg_parses(svg) && pixmap_fits(size, size)
}

/// The error of a failed rasterization: a parse failure first, with usvg's
/// message after the prefix, else the buffer failure.
pub open spec fn raster_error(svg: Seq<char>, size: u32, e: Error) -> bool {
    if !svg_parses(svg) {
        e matches Error::Image(m) && has_prefix(m@, parse_failure_prefix(size as nat))
    } else {
        e matches Error::Image(m) && m@ == pixmap_failure_message()
    }
}

fn parse_failure(size: u32, detail: String) -> (r: Error)
    ensures
        r matches Error::Image(m) && has_prefix(m@, parse_failure_prefix(size as nat)),
{
    let mut m = String::from_str("Failed to create SVG tree from data of size ");
    push_decimal(&mut m, size);
    m.append("x");
    push_decimal(&mut m, size);
    m.append(": ");
    let ghost prefix = m@;
    m.append(detail.as_str());
    proof {
        reveal_strlit("Failed to create SVG tree from data of size ");
        reveal_strlit("x");
        reveal_strlit(": ");
        assert(prefix =~= parse_failure_prefix(size as nat));
        assert(m@.subrange(0, prefix.len() as int) =~= prefix);
    }
    Error::Image(m)
}

/// Rasterizes an SVG document onto a `size` by `size` RGBA buffer, without
/// scaling, and encodes it as PNG. It succeeds exactly when the document
/// parses and the buffer can be made.
pub fn rasterize(svg: &str, size: u32) -> (r: Result<RasterImage, Error>)
    ensures
        r is Ok <==> raster_succeeds(svg@, size),
        r matches Ok(img) ==> img.width == size && img.height == size,
        r matches Err(e) ==> raster_error(svg@, size, e),
{
    let tree = match usvg_parse(svg) {
        Ok(t) => t,
        Err(msg) => return Err(parse_failure(size, msg)),
    };
    let mut pixmap = match pixmap_new(size, size) {
        Some(p) => p,
        None => {
            proof {
                reveal_strlit("Failed to create a new Pixmap");
            }
            return Err(Error::Image(String::from_str("Failed to create a new Pixmap")));
        },
    };
    resvg_render(&tree, &mut pixmap);
    match pixmap_encode_png(&pixmap) {
        Ok(png) => Ok(RasterImage { width: size, height: size, png }),
        Err(msg) => Err(Error::Image(msg)),
    }
}

} // verus!
