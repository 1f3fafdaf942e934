use vstd::prelude::*;

use crate::matrix::QrMatrix;
use crate::text::{decimal, has_prefix};

verus! {

/// Blank modules kept around the symbol on every side.
pub const QUIET_ZONE: u32 = 4;

/// Modules across the image: the symbol and the quiet zone on both sides.
pub open spec fn modules_across(side: nat) -> nat {
    side + 2 * (QUIET_ZONE as nat)
}

/// Pixels per module for a requested minimum size: the smallest whole number
/// of pixels, at least one, that makes the image at least `size` wide.
pub open spec fn module_pixels(side: nat, size: nat) -> nat {
    let w = modules_across(side);
    if size == 0 {
        1
    } else {
        ((size + w - 1) / w as int) as nat
    }
}

/// Width and height in pixels of the rendered image.
pub open spec fn rendered_dimension(side: nat, size: nat) -> nat {
    modules_across(side) * module_pixels(side, size)
}

/// The SVG text that the `qrcode` crate's renderer builds for a grid of
/// modules, a quiet zone, a module size in pixels and two colors.
pub uninterp spec fn qr_svg_text(
    modules: Seq<bool>,
    side: nat,
    quiet_zone: nat,
    unit: nat,
    dark: Seq<char>,
    light: Seq<char>,
) -> Seq<char>;

/// The opening of the SVG documents that qrcode's renderer writes for an
/// image `d` pixels wide and high: the XML declaration and the `svg` element
/// with its `width`, `height` and `viewBox`.
pub open spec fn svg_header(d: nat) -> Seq<char> {
    "<?xml version=\"1.0\" standalone=\"yes\"?><svg xmlns=\"http://www.w3.org/2000/svg\" version=\"1.1\" width=\""@
        + decimal(d) + "\" height=\""@ + decimal(d) + "\" viewBox=\"0 0 "@ + decimal(d) + " "@
        + decimal(d) + "\" shape-rendering=\"crispEdges\">"@
}

/// A rendered QR code: an SVG document and its square dimension in pixels.
#[derive(Debug, Clone)]
pub struct VectorImage {
    pub svg: String,
    pub dimension: u32,
}

/// Relies on qrcode's `Renderer::<svg::Color>` (`new`, `module_dimensions`,
/// `dark_color`, `light_color`, `build`): the SVG of the grid, drawn
/// `(side + 2 * quiet_zone) * unit` pixels wide with every module `unit` pixels
/// across; the document opens with `svg_header` of that width (`svg::Canvas::new`).
/// `new` panics unless the grid is square and the product fits `u32`.
#[verifier::external_body]
fn qrcode_svg(modules: &Vec<bool>, side: usize, quiet_zone: u32, unit: u32, dark: &str, light: &str) -> (r: String)
    requires
        modules@.len() == side * side,
        side <= u32::MAX,
        1 <= unit,
        (side + 2 * quiet_zone) * unit <= u32::MAX,
    ensures
        r@ == qr_svg_text(modules@, side as nat, quiet_zone as nat, unit as nat, dark@, light@),
        has_prefix(r@, svg_header(((side + 2 * quiet_zone) * unit) as nat)),
{
    let colors: Vec<qrcode::Color> = modules.iter().map(|d| if *d { qrcode::Color::Dark } else { qrcode::Color::Light }).collect();
    qrcode::render::Renderer::<qrcode::render::svg::Color>::new(&colors, side, quiet_zone)
        .module_dimensions(unit, unit)
        .dark_color(qrcode::render::svg::Color(dark))
        .light_color(qrcode::render::svg::Color(light))
        .build()
}

/// Pixels per module for a grid of `side` modules and a requested minimum
/// size, rounded up.
pub fn module_size(side: u32, size: u32) -> (r: u32)
    requires
        side + 2 * QUIET_ZONE <= u32::MAX,
    ensures
        r == module_pixels(side as nat, size as nat),
{
    let w: u32 = side + 2 * QUIET_ZONE;
    if size == 0 {
        1
    } else {
        let q: u32 = size / w;
        let extra: u32 = if size % w == 0 { 0 } else { 1 };
        proof {
            let s = size as int;
            let wi = w as int;
            assert((s + wi - 1) / wi == s / wi + (if s % wi == 0 { 0int } else { 1int })) by {
                vstd::arithmetic::div_mod::lemma_fundamental_div_mod(s, wi);
                vstd::arithmetic::div_mod::lemma_fundamental_div_mod(s + wi - 1, wi);
                vstd::arithmetic::div_mod::lemma_mod_bound(s, wi);
                vstd::arithmetic::div_mod::lemma_mod_bound(s + wi - 1, wi);
                if s % wi == 0 {
                    vstd::arithmetic::div_mod::lemma_div_pos_is_pos(s, wi);
                    assert((s + wi - 1) / wi == s / wi) by (nonlinear_arith)
                        requires
                            s == wi * (s / wi) + s % wi,
                            s + wi - 1 == wi * ((s + wi - 1) / wi) + (s + wi - 1) % wi,
                            0 <= (s + wi - 1) % wi < wi,
                            s % wi == 0,
                            wi > 0,
                    ;
                } else {
                    assert((s + wi - 1) / wi == s / wi + 1) by (nonlinear_arith)
                        requires
                            s == wi * (s / wi) + s % wi,
                            s + wi - 1 == wi * ((s + wi - 1) / wi) + (s + wi - 1) % wi,
                            0 <= (s + wi - 1) % wi < wi,
                            0 < s % wi < wi,
                            wi > 0,
                    ;
                }
            }
            vstd::arithmetic::div_mod::lemma_fundamental_div_mod(s, wi);
            vstd::arithmetic::div_mod::lemma_mod_bound(s, wi);
            assert(q as int + 1 <= u32::MAX) by (nonlinear_arith)
                requires
                    s == wi * (s / wi) + s % wi,
                    s % wi >= 0,
                    wi >= 2,
                    q == s / wi,
                    s <= u32::MAX,
            ;
        }
        q + extra
    }
}

/// Renders a QR grid as SVG, at least `size` pixels wide and high, with the
/// given colors for dark and light modules.
pub fn render_svg(matrix: &QrMatrix, size: u32, dark: &str, light: &str) -> (r: VectorImage)
    requires
        matrix.wf(),
        rendered_dimension(matrix.side_spec(), size as nat) <= u32::MAX,
    ensures
        r.dimension == rendered_dimension(matrix.side_spec(), size as nat),
        has_prefix(r.svg@, svg_header(r.dimension as nat)),
        r.svg@ == qr_svg_text(
            matrix.modules_spec(),
            matrix.side_spec(),
            QUIET_ZONE as nat,
            module_pixels(matrix.side_spec(), size as nat),
            dark@,
            light@,
        ),
{
    let side = matrix.side();
    let unit = module_size(side as u32, size);
    proof {
        assert(unit >= 1) by {
            if size > 0 {
                let w = modules_across(side as nat) as int;
                vstd::arithmetic::div_mod::lemma_div_is_ordered(w, size + w - 1, w);
                vstd::arithmetic::div_mod::lemma_div_by_self(w);
            }
        }
    }
    let svg = qrcode_svg(matrix.modules(), side, QUIET_ZONE, unit, dark, light);
    VectorImage { svg, dimension: (side as u32 + 2 * QUIET_ZONE) * unit }
}

/// The rendered dimension is the smallest multiple of the modules across the
/// image that is at least the requested size (and at least one module per
/// pixel), so every module has the same whole number of pixels.
pub proof fn lemma_dimension_rounds_up(side: nat, size: nat)
    ensures
        rendered_dimension(side, size) >= size,
        rendered_dimension(side, size) % modules_across(side) == 0,
        forall|k: nat|
            #![trigger k * modules_across(side)]
            k >= 1 && k * modules_across(side) >= size ==> k * modules_across(side)
                >= rendered_dimension(side, size),
{
    let w = modules_across(side) as int;
    let u = module_pixels(side, size) as int;
    vstd::arithmetic::div_mod::lemma_mod_multiples_basic(u, w);
    assert(u * w == w * u) by (nonlinear_arith);
    if size > 0 {
        let s = size as int;
        vstd::arithmetic::div_mod::lemma_fundamental_div_mod(s + w - 1, w);
        vstd::arithmetic::div_mod::lemma_mod_bound(s + w - 1, w);
        assert(w * u >= s) by (nonlinear_arith)
            requires
                s + w - 1 == w * u + (s + w - 1) % w,
                (s + w - 1) % w < w,
        ;
        assert forall|k: nat|
            #![trigger k * modules_across(side)]
            k >= 1 && k * modules_across(side) >= size implies k * modules_across(side)
                >= rendered_dimension(side, size) by {
            let ki = k as int;
            assert(ki * w >= w * u) by (nonlinear_arith)
                requires
                    ki * w >= s,
                    s + w - 1 == w * u + (s + w - 1) % w,
                    0 <= (s + w - 1) % w,
                    w > 0,
            ;
        }
    } else {
        assert forall|k: nat|
            #![trigger k * modules_across(side)]
            k >= 1 && k * modules_across(side) >= size implies k * modules_across(side)
                >= rendered_dimension(side, size) by {
            assert(k * w >= w) by (nonlinear_arith)
                requires
                    k >= 1,
                    w > 0,
            ;
        }
    }
}

} // verus!
