//! Trusted view of `qrcode`: QR codes rendered as SVG.
use vstd::prelude::*;
use qrcode::render::svg;
use qrcode::QrCode;

verus! {

#[verifier::external_type_specification]
#[verifier::external_body]
pub struct ExQrError(qrcode::types::QrError);

/// The SVG of the QR code of `data`, drawn at least `min_size` pixels wide
/// and high with the given dark and light colours, or `None` when `data`
/// does not fit in any QR version at error-correction level M.
pub uninterp spec fn qr_svg_of(data: Seq<u8>, min_size: u32, dark: Seq<char>, light: Seq<char>) -> Option<Seq<char>>;

/// Largest `min_size` the renderer takes. It rounds the size up to a whole
/// number of modules, adding up to the grid's width (at most 185 modules:
/// version 40 with its quiet zone) in `u32` arithmetic, which would overflow
/// above this bound.
pub const QR_MAX_MIN_SIZE: u32 = 4294967039;

/// `QrCode::new(data)` rendered with `min_dimensions(min_size, min_size)`,
/// `dark_color` and `light_color`: a function of its arguments, named
/// [`qr_svg_of`]. Encoding fails exactly when the data does not fit in any
/// QR version at level M, which is a function of `data` alone; the capacity
/// tables that decide it are not written out here.
#[verifier::external_body]
pub(crate) fn render_qr_svg(data: &[u8], min_size: u32, dark: &str, light: &str) -> (r: Result<String, qrcode::types::QrError>)
    requires
        min_size <= QR_MAX_MIN_SIZE,
    ensures
        (r is Ok) == qr_svg_of(data@, min_size, dark@, light@) is Some,
        r is Ok ==> r->Ok_0@ == qr_svg_of(data@, min_size, dark@, light@)->Some_0,
{
    QrCode::new(data).map(|code| {
        code.render().min_dimensions(min_size, min_size).dark_color(svg::Color(dark)).light_color(
            svg::Color(light),
        ).build()
    })
}

} // verus!
