use vstd::prelude::*;

use crate::error::Error;
use crate::kitty::{base64_standard, kitty_frames, kitty_png_sequence};
use crate::matrix::{encode_level_h, is_standard_side, level_h_symbol, qr_failure_prefix, QrMatrix};
use crate::payload::{wifi_payload, wifi_payload_spec};
use crate::raster::{rasterize, raster_error, raster_succeeds, RasterImage};
use crate::text::has_prefix;
use crate::vector::{
    modules_across, module_pixels, qr_svg_text, render_svg, rendered_dimension, svg_header, VectorImage,
    QUIET_ZONE,
};

verus! {

/// Everything one QR export needs.
#[derive(Debug, Clone)]
pub struct QrCodeOptions {
    pub ssid: String,
    /// The `T:` field as it is written into the payload (`WPA`, `WEP`, `nopass`).
    pub encryption: String,
    pub password: String,
    /// Where to write the image; `None` writes it to standard output.
    pub output_path: Option<String>,
    pub dark_color: String,
    pub light_color: String,
    /// Minimum width and height in pixels.
    pub size: u32,
    pub format: String,
    pub overwrite: bool,
}

/// Largest requested size for which every rendered dimension fits `u32`.
pub const MAX_REQUESTED_SIZE: u32 = 4294967110;

/// The payload that a set of options encodes.
pub open spec fn options_payload(o: QrCodeOptions) -> Seq<char> {
    wifi_payload_spec(o.ssid@, o.encryption@, o.password@)
}

/// The error of a payload that does not fit: a QR error with the fixed prefix.
pub open spec fn qr_error(e: Error) -> bool {
    e matches Error::QrCode(m) && has_prefix(m@, qr_failure_prefix())
}

/// The SVG text rendered for the options from a symbol of `side` modules.
pub open spec fn options_svg(o: QrCodeOptions, side: nat, modules: Seq<bool>) -> Seq<char> {
    qr_svg_text(
        modules,
        side,
        QUIET_ZONE as nat,
        module_pixels(side, o.size as nat),
        o.dark_color@,
        o.light_color@,
    )
}

/// Builds the Wi-Fi payload and encodes it at error-correction level H.
pub fn encode_wifi(ssid: &str, mode: &str, password: &str) -> (r: Result<QrMatrix, Error>)
    ensures
        r is Ok <==> level_h_symbol(wifi_payload_spec(ssid@, mode@, password@)) is Some,
        r matches Ok(m) ==> m.wf() && level_h_symbol(wifi_payload_spec(ssid@, mode@, password@))
            == Some((m.side_spec(), m.modules_spec())),
        r matches Err(e) ==> qr_error(e),
{
    let payload = wifi_payload(ssid, mode, password);
    encode_level_h(payload.as_str())
}

/// A rendered image never exceeds the requested size by a whole module row.
pub proof fn lemma_dimension_bound(side: nat, size: nat)
    ensures
        rendered_dimension(side, size) <= size + modules_across(side),
{
    let w = modules_across(side) as int;
    let u = module_pixels(side, size) as int;
    if size > 0 {
        let s = size as int;
        vstd::arithmetic::div_mod::lemma_fundamental_div_mod(s + w - 1, w);
        vstd::arithmetic::div_mod::lemma_mod_bound(s + w - 1, w);
        assert(w * u <= s + w) by (nonlinear_arith)
            requires
                s + w - 1 == w * u + (s + w - 1) % w,
                (s + w - 1) % w >= 0,
        ;
    }
}

/// Encodes the options' payload and renders it as SVG in their colors, at
/// least `size` pixels wide.
pub fn generate_svg(options: &QrCodeOptions) -> (r: Result<VectorImage, Error>)
    requires
        options.size <= MAX_REQUESTED_SIZE,
    ensures
        r is Ok <==> level_h_symbol(options_payload(*options)) is Some,
        r matches Err(e) ==> qr_error(e),
        level_h_symbol(options_payload(*options)) matches Some((side, modules)) ==> (r matches Ok(v) && {
            &&& is_standard_side(side)
            &&& v.dimension == rendered_dimension(side, options.size as nat)
            &&& v.svg@ == options_svg(*options, side, modules)
            &&& has_prefix(v.svg@, svg_header(v.dimension as nat))
        }),
{
    let m = match encode_wifi(options.ssid.as_str(), options.encryption.as_str(), options.password.as_str()) {
        Ok(m) => m,
        Err(e) => return Err(e),
    };
    proof {
        lemma_dimension_bound(m.side_spec(), options.size as nat);
    }
    Ok(render_svg(&m, options.size, options.dark_color.as_str(), options.light_color.as_str()))
}

/// Encodes and renders the options' payload, then rasterizes the SVG at the
/// dimension the renderer reports, so that modules map to whole pixels.
pub fn generate_png(options: &QrCodeOptions) -> (r: Result<RasterImage, Error>)
    requires
        options.size <= MAX_REQUESTED_SIZE,
    ensures
        level_h_symbol(options_payload(*options)) is None ==> (r matches Err(e) && qr_error(e)),
        level_h_symbol(options_payload(*options)) matches Some((side, modules)) ==> {
            let svg = options_svg(*options, side, modules);
            let d = rendered_dimension(side, options.size as nat) as u32;
            &&& r is Ok <==> raster_succeeds(svg, d)
            &&& r matches Ok(img) ==> img.width == d && img.height == d
            &&& r matches Err(e) ==> raster_error(svg, d, e)
        },
{
    let v = match generate_svg(options) {
        Ok(v) => v,
        Err(e) => return Err(e),
    };
    rasterize(v.svg.as_str(), v.dimension)
}

/// The bytes that show the options' QR code inline in a terminal speaking the
/// kitty graphics protocol: the PNG of `generate_png`, base64-encoded and
/// framed.
pub fn generate_kitty(options: &QrCodeOptions) -> (r: Result<Vec<u8>, Error>)
    requires
        options.size <= MAX_REQUESTED_SIZE,
    ensures
        level_h_symbol(options_payload(*options)) is None ==> (r matches Err(e) && qr_error(e)),
        level_h_symbol(options_payload(*options)) matches Some((side, modules)) ==> {
            let svg = options_svg(*options, side, modules);
            let d = rendered_dimension(side, options.size as nat) as u32;
            &&& r is Ok <==> raster_succeeds(svg, d)
            &&& r matches Ok(bytes) ==> exists|img: RasterImage|
                img.width == d && img.height == d && bytes@ == #[trigger] kitty_frames(
                    base64_standard(img.png@),
                    true,
                )
            &&& r matches Err(e) ==> raster_error(svg, d, e)
        },
{
    let img = match generate_png(options) {
        Ok(img) => img,
        Err(e) => return Err(e),
    };
    let bytes = kitty_png_sequence(img.png.as_slice());
    assert(bytes@ == kitty_frames(base64_standard(img.png@), true));
    Ok(bytes)
}

} // verus!
