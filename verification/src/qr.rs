//! The code-matrix builder and the format encoders' rendering calls.
//!
//! The module matrix itself is computed by the `qrcode` crate at the fixed
//! low-recovery/high-capacity error-correction strength (payloads are short
//! URLs); rasterisation uses the `image` crate and the print document the
//! `svg2pdf` crate.  Each outside call sits behind one trusted wrapper whose
//! contract names its result; everything around the calls is verified.

use vstd::prelude::*;

verus! {

#[verifier::external_type_specification]
#[verifier::external_body]
/// The `qrcode` crate's encoded symbol, opaque to the verifier.
pub struct ExQrCode(qrcode::QrCode);

/// The module grid a [`qrcode::QrCode`] value holds: one row per line of the
/// symbol, `true` for a dark module.  The accessors and renderers below all
/// speak about this one abstraction of the value's contents.
pub uninterp spec fn qr_grid(code: qrcode::QrCode) -> Seq<Seq<bool>>;

/// What encoding a payload at the fixed error-correction strength yields:
/// `None` when the payload exceeds the capacity of the code format at that
/// strength, otherwise the module grid.  The outside encoder is
/// deterministic, so this is a function of the payload bytes alone.
pub uninterp spec fn qr_grid_of(payload: Seq<u8>) -> Option<Seq<Seq<bool>>>;

/// The vector markup the `qrcode` renderer produces from a module grid, at
/// a 1000 x 1000 minimum bounding box with transparent light modules.
pub uninterp spec fn svg_of(grid: Seq<Seq<bool>>) -> Seq<u8>;

/// The luminance+alpha bitmap the `qrcode` renderer produces from a module
/// grid at a 2480 x 2480 minimum bounding box (raw bytes, width, height),
/// light modules fully transparent.
pub uninterp spec fn luma_of(grid: Seq<Seq<bool>>) -> (Seq<u8>, u32, u32);

/// The raster container the `image` crate's encoder produces from a raw
/// two-channel bitmap with fast compression and up-filtering, or `None` if
/// the encoder rejects it.  The encoder is deterministic.
pub uninterp spec fn png_of(data: Seq<u8>, width: u32, height: u32) -> Option<Seq<u8>>;

/// The print-ready document `svg2pdf` produces at 300 DPI from vector
/// markup that this library's renderer emitted, or `None` if the markup is
/// rejected.  The name is meaningful only over renderer output (see
/// [`svg_to_pdf`]): such markup holds one rect and one path and references
/// nothing outside itself, and on that domain the conversion is a
/// deterministic function of the bytes.
pub uninterp spec fn pdf_of(svg_text: Seq<u8>) -> Option<Seq<u8>>;

/// Relies on `qrcode::QrCode::with_error_correction_level` at the `L`
/// strength: deterministic in the payload; fails exactly when the payload
/// does not fit the format's capacity; a produced symbol is square, between
/// 21 and 177 modules a side.
#[verifier::external_body]
fn qr_encode(payload: &[u8]) -> (r: Option<qrcode::QrCode>)
    ensures
        r is Some <==> qr_grid_of(payload@) is Some,
        r is Some ==> qr_grid(r.unwrap()) == qr_grid_of(payload@).unwrap(),
        r is Some ==> 21 <= qr_grid(r.unwrap()).len() <= 177,
        r is Some ==> forall|i: int|
            0 <= i < qr_grid(r.unwrap()).len() ==> (#[trigger] qr_grid(r.unwrap())[i]).len()
                == qr_grid(r.unwrap()).len(),
{
    qrcode::QrCode::with_error_correction_level(payload, qrcode::EcLevel::L).ok()
}

/// Relies on `qrcode::QrCode::width`: the number of modules per side.
#[verifier::external_body]
fn qr_width(code: &qrcode::QrCode) -> (w: usize)
    ensures
        w == qr_grid(*code).len(),
{
    code.width()
}

/// Relies on `qrcode::QrCode::to_colors`: the modules in row-major order,
/// width * width of them.
#[verifier::external_body]
fn qr_modules(code: &qrcode::QrCode) -> (m: Vec<bool>)
    ensures
        m@.len() == qr_grid(*code).len() * qr_grid(*code).len(),
        forall|y: int, x: int|
            0 <= y < qr_grid(*code).len() && 0 <= x < qr_grid(*code).len()
                ==> #[trigger] m@[y * qr_grid(*code).len() + x] == qr_grid(*code)[y][x],
{
    code.to_colors().into_iter().map(|c| c == qrcode::Color::Dark).collect()
}

/// A square grid of dark/light modules: the single source of truth all
/// three format encoders consume.  It is produced once per request from a
/// payload at the fixed error-correction strength and never mutated.
pub struct CodeMatrix {
    code: qrcode::QrCode,
    width: usize,
    modules: Vec<bool>,
}

impl View for CodeMatrix {
    type V = Seq<Seq<bool>>;

    /// The module grid, one row per line, `true` for dark.
    closed spec fn view(&self) -> Seq<Seq<bool>> {
        qr_grid(self.code)
    }
}

impl CodeMatrix {
    /// The mirror fields agree with the grid: the side length is the number
    /// of rows, every row has that length, and the flat module vector lists
    /// the grid in row-major order.
    pub closed spec fn wf(&self) -> bool {
        &&& 21 <= self@.len() <= 177
        &&& self.width == self@.len()
        &&& forall|i: int| 0 <= i < self@.len() ==> (#[trigger] self@[i]).len() == self@.len()
        &&& self.modules@.len() == self@.len() * self@.len()
        &&& forall|y: int, x: int|
            0 <= y < self@.len() && 0 <= x < self@.len()
                ==> #[trigger] self.modules@[y * self@.len() + x] == self@[y][x]
    }

    /// Builds the matrix for a payload, or reports that the payload exceeds
    /// the capacity of the code format at the fixed error-correction
    /// strength.
    pub fn new(payload: &[u8]) -> (r: Option<CodeMatrix>)
        ensures
            r is Some <==> qr_grid_of(payload@) is Some,
            r is Some ==> r.unwrap().wf() && r.unwrap()@ == qr_grid_of(payload@).unwrap(),
    {
        match qr_encode(payload) {
            None => None,
            Some(code) => {
                let width = qr_width(&code);
                let modules = qr_modules(&code);
                Some(CodeMatrix { code, width, modules })
            },
        }
    }

    /// The number of modules per side.
    pub fn width(&self) -> (w: usize)
        requires
            self.wf(),
        ensures
            w == self@.len(),
    {
        self.width
    }

    /// The module at column `x` of row `y`, `true` if dark.
    pub fn module(&self, x: usize, y: usize) -> (b: bool)
        requires
            self.wf(),
            x < self@.len(),
            y < self@.len(),
        ensures
            b == self@[y as int][x as int],
    {
        proof {
            assert((y as int) * (self.width as int) + (x as int) < (self.width as int) * (
            self.width as int) && (self.width as int) * (self.width as int) <= 31329)
                by (nonlinear_arith)
                requires
                    (y as int) < (self.width as int),
                    (x as int) < (self.width as int),
                    0 <= (x as int),
                    0 <= (y as int),
                    (self.width as int) <= 177,
            ;
        }
        self.modules[y * self.width + x]
    }

    /// The modules in row-major order.
    pub fn modules(&self) -> (m: &Vec<bool>)
        requires
            self.wf(),
        ensures
            m@.len() == self@.len() * self@.len(),
            forall|y: int, x: int|
                0 <= y < self@.len() && 0 <= x < self@.len()
                    ==> #[trigger] m@[y * self@.len() + x] == self@[y][x],
    {
        &self.modules
    }
}

/// Relies on the `qrcode` renderer for SVG: deterministic markup from the
/// module grid, 1000 x 1000 minimum dimensions, light modules drawn in the
/// fully transparent color.
#[verifier::external_body]
pub(crate) fn render_svg(cm: &CodeMatrix) -> (r: Vec<u8>)
    ensures
        r@ == svg_of(cm@),
{
    let markup = cm
        .code
        .render::<qrcode::render::svg::Color>()
        .min_dimensions(1000, 1000)
        .light_color(qrcode::render::svg::Color("#ffffff00"))
        .build();
    markup.into_bytes()
}

/// Relies on the `qrcode` renderer for `image` pixels: a deterministic
/// luminance+alpha bitmap from the module grid, 2480 x 2480 minimum
/// dimensions, light modules fully transparent.
#[verifier::external_body]
pub(crate) fn render_luma(cm: &CodeMatrix) -> (r: (Vec<u8>, u32, u32))
    ensures
        (r.0@, r.1, r.2) == luma_of(cm@),
{
    let bitmap = cm
        .code
        .render::<image::LumaA<u8>>()
        .min_dimensions(2480, 2480)
        .light_color(image::LumaA([255u8, 0u8]))
        .build();
    let (width, height) = bitmap.dimensions();
    (bitmap.into_raw(), width, height)
}

/// Relies on `image`'s `PngEncoder` with fast compression, up-filtering and
/// the two-channel luminance+alpha color type: deterministic in the raw
/// bytes and dimensions.
#[verifier::external_body]
pub(crate) fn encode_png(data: &Vec<u8>, width: u32, height: u32) -> (r: Option<Vec<u8>>)
    ensures
        r is Some <==> png_of(data@, width, height) is Some,
        r is Some ==> r.unwrap()@ == png_of(data@, width, height).unwrap(),
{
    let mut out: Vec<u8> = Vec::new();
    let encoder = image::codecs::png::PngEncoder::new_with_quality(
        &mut out,
        image::codecs::png::CompressionType::Fast,
        image::codecs::png::FilterType::Up,
    );
    match encoder.encode(data, width, height, image::ColorType::La8) {
        Ok(()) => Some(out),
        Err(_) => None,
    }
}

/// Relies on `svg2pdf::convert_str` at 300 DPI: fails exactly when the
/// markup is rejected.  The domain is restricted to markup this library's
/// renderer produced: on arbitrary markup the converter's default options
/// resolve an image reference against the filesystem, so its result would
/// not be a function of the bytes alone.  Renderer output embeds no such
/// reference, and on it the conversion is deterministic.
#[verifier::external_body]
pub(crate) fn svg_to_pdf(svg_text: &Vec<u8>) -> (r: Option<Vec<u8>>)
    requires
        exists|grid: Seq<Seq<bool>>| svg_text@ == svg_of(grid),
    ensures
        r is Some <==> pdf_of(svg_text@) is Some,
        r is Some ==> r.unwrap()@ == pdf_of(svg_text@).unwrap(),
{
    let src = match core::str::from_utf8(svg_text) {
        Ok(src) => src,
        Err(_) => return None,
    };
    let options = svg2pdf::Options { dpi: (300u16).into(), ..svg2pdf::Options::default() };
    svg2pdf::convert_str(src, options).ok()
}

} // verus!
