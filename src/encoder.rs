//! The QR code of a text, drawn as a grayscale bitmap and packed into PNG.
use vstd::prelude::*;

verus! {

/// The `image` crate's error, `image::ImageError`, carried through as it is.
#[verifier::external_type_specification]
#[verifier::external_body]
pub struct ExImageError(image::ImageError);

/// Why the QR encoder refused a text; the first is the one a text that is
/// too long for the largest code gets.
#[derive(Clone, Copy, Debug, PartialEq, Eq, Structural)]
pub enum QrFailure {
    DataTooLong,
    InvalidVersion,
    UnsupportedCharacterSet,
    InvalidEciDesignator,
    InvalidCharacter,
}

/// Why a text could not be turned into a PNG image of its code.
#[derive(Debug)]
pub enum EncodeError {
    /// The QR encoder refused the text.
    Qr(QrFailure),
    /// The PNG encoder refused the bitmap.
    Image(image::ImageError),
}

/// The modules of a QR code, row by row, `true` for a dark one.
#[derive(Clone, Debug, PartialEq, Eq)]
pub struct QrMatrix {
    /// The number of modules on a side.
    pub width: usize,
    pub modules: Vec<bool>,
}

/// A square grayscale bitmap, row by row, one byte a pixel.
#[derive(Clone, Debug, PartialEq, Eq)]
pub struct Raster {
    pub side: u32,
    pub pixels: Vec<u8>,
}

/// What the encoding of a text gives: the code's modules and its PNG image.
#[derive(Clone, Debug, PartialEq, Eq)]
pub struct EncodedQr {
    pub matrix: QrMatrix,
    pub png: Vec<u8>,
}

/// The blank modules kept around a code of a normal (not micro) version.
pub const QUIET_ZONE: u32 = 4;

/// The pixels on a side of one module in the bitmap.
pub const MODULE_PIXELS: u32 = 8;

/// The gray of a dark module.
pub const DARK: u8 = 0;

/// The gray of a light module and of the quiet zone.
pub const LIGHT: u8 = 255;

/// The code that the QR encoder makes of a text, at the medium error
/// correction level in the smallest version that holds it: its width and its
/// modules, or the reason it refused.
pub uninterp spec fn qr_code_of(text: Seq<char>) -> Result<(nat, Seq<bool>), QrFailure>;

/// The PNG file that the image encoder makes of a grayscale bitmap of the
/// given size, or `None` where it refuses it.
pub uninterp spec fn png_gray_of(width: nat, height: nat, pixels: Seq<u8>) -> Option<Seq<u8>>;

/// The eight bytes that every PNG file starts with.
pub open spec fn png_signature() -> Seq<u8> {
    seq![137u8, 80u8, 78u8, 71u8, 13u8, 10u8, 26u8, 10u8]
}

impl QrMatrix {
    /// A code of a normal version: 17 modules plus 4 a version, from 1 to 40,
    /// on a side, and a module for each place of the square.
    pub open spec fn wf(self) -> bool {
        &&& 21 <= self.width <= 177
        &&& self.width % 4 == 1
        &&& self.modules@.len() == self.width * self.width
    }
}

/// The modules on a side of the bitmap of a code of the given width,
/// quiet zone included.
pub open spec fn modules_across(width: int) -> int {
    width + 2 * QUIET_ZONE
}

/// The pixels on a side of the bitmap of a code of the given width.
pub open spec fn raster_side(width: int) -> int {
    modules_across(width) * MODULE_PIXELS
}

/// Whether the module of the code at column `mx`, row `my` is dark; the
/// quiet zone and what lies outside the code is light.
pub open spec fn module_dark(modules: Seq<bool>, width: int, mx: int, my: int) -> bool {
    0 <= mx < width && 0 <= my < width && modules[my * width + mx]
}

/// The gray of the bitmap's pixel at column `x`, row `y`: each module is a
/// square of pixels, with the quiet zone around the code.
pub open spec fn raster_pixel(modules: Seq<bool>, width: int, x: int, y: int) -> u8 {
    if module_dark(
        modules,
        width,
        x / MODULE_PIXELS as int - QUIET_ZONE,
        y / MODULE_PIXELS as int - QUIET_ZONE,
    ) {
        DARK
    } else {
        LIGHT
    }
}

/// The bitmap of a code, row by row.
pub open spec fn raster_pixels(modules: Seq<bool>, width: int) -> Seq<u8> {
    let side = raster_side(width);
    Seq::new((side * side) as nat, |i: int| raster_pixel(modules, width, i % side, i / side))
}

/// What the encoding of a text gives where it succeeds: the width and modules
/// of its code and the PNG file of its bitmap; `None` where either encoder
/// refuses.
pub open spec fn encoding_of(text: Seq<char>) -> Option<(nat, Seq<bool>, Seq<u8>)> {
    match qr_code_of(text) {
        Err(_) => None,
        Ok((width, modules)) => {
            let side = raster_side(width as int) as nat;
            match png_gray_of(side, side, raster_pixels(modules, width as int)) {
                Some(png) => Some((width, modules, png)),
                None => None,
            }
        },
    }
}

/// What a call of `encode` on a text gave: the values of `encoding_of` where
/// it succeeded; the QR encoder's reason where that encoder refused; a PNG
/// error only where the QR encoder accepted the text and the PNG encoder
/// refused its bitmap.
pub open spec fn encode_gave(text: Seq<char>, r: Result<EncodedQr, EncodeError>) -> bool {
    match r {
        Ok(e) => encoding_of(text) == Some((e.matrix.width as nat, e.matrix.modules@, e.png@))
            && e.matrix.wf(),
        Err(EncodeError::Qr(q)) => qr_code_of(text) == Err::<(nat, Seq<bool>), QrFailure>(q),
        Err(EncodeError::Image(_)) => qr_code_of(text) is Ok && encoding_of(text) is None,
    }
}

/// Relies on `qrcode::QrCode::new` (medium error correction, smallest
/// version), `QrCode::width` and `QrCode::to_colors`: the code depends on the
/// text alone, is of a normal version, and has `width * width` modules.
#[verifier::external_body]
fn qr_encode(text: &str) -> (r: Result<QrMatrix, QrFailure>)
    ensures
        match r {
            Ok(m) => qr_code_of(text@) == Ok::<(nat, Seq<bool>), QrFailure>(
                (m.width as nat, m.modules@),
            ) && m.wf(),
            Err(e) => qr_code_of(text@) == Err::<(nat, Seq<bool>), QrFailure>(e),
        },
{
    match qrcode::QrCode::new(text) {
        Ok(code) => Ok(QrMatrix {
            width: code.width(),
            modules: code.to_colors().into_iter().map(|c| c == qrcode::Color::Dark).collect(),
        }),
        Err(qrcode::types::QrError::DataTooLong) => Err(QrFailure::DataTooLong),
        Err(qrcode::types::QrError::InvalidVersion) => Err(QrFailure::InvalidVersion),
        Err(qrcode::types::QrError::UnsupportedCharacterSet) => Err(QrFailure::UnsupportedCharacterSet),
        Err(qrcode::types::QrError::InvalidEciDesignator) => Err(QrFailure::InvalidEciDesignator),
        Err(qrcode::types::QrError::InvalidCharacter) => Err(QrFailure::InvalidCharacter),
    }
}

/// Relies on `qrcode::render::Renderer::<image::Luma<u8>>` with its defaults
/// (`new` and `build`): each module an 8 by 8 square of pixels, black (0) for
/// a dark one and white (255) for a light one, `quiet_zone` light modules
/// around the code, and the image buffer laid out row by row.
#[verifier::external_body]
fn render_luma(modules: &Vec<bool>, width: usize, quiet_zone: u32) -> (r: Raster)
    requires
        modules@.len() == width * width,
        width <= 177,
        quiet_zone == QUIET_ZONE,
    ensures
        r.side == raster_side(width as int),
        r.pixels@ == raster_pixels(modules@, width as int),
{
    let colors: Vec<qrcode::Color> = modules
        .iter()
        .map(|&d| if d { qrcode::Color::Dark } else { qrcode::Color::Light })
        .collect();
    let image = qrcode::render::Renderer::<image::Luma<u8>>::new(&colors, width, quiet_zone).build();
    Raster { side: image.width(), pixels: image.into_raw() }
}

/// Relies on `image::DynamicImage::write_to` with the PNG format, on an 8-bit
/// grayscale image built by `image::GrayImage::from_raw`: the file depends on
/// the bitmap alone, and starts with the PNG signature.
#[verifier::external_body]
fn write_png_gray(width: u32, height: u32, pixels: &Vec<u8>) -> (r: Result<Vec<u8>, image::ImageError>)
    requires
        pixels@.len() == width * height,
    ensures
        match r {
            Ok(b) => png_gray_of(width as nat, height as nat, pixels@) == Some(b@)
                && b@.len() >= 8 && b@.subrange(0, 8) == png_signature(),
            Err(_) => png_gray_of(width as nat, height as nat, pixels@) is None,
        },
{
    let image = image::GrayImage::from_raw(width, height, pixels.clone()).unwrap();
    let mut bytes: Vec<u8> = Vec::new();
    let mut cursor = std::io::Cursor::new(&mut bytes);
    image::DynamicImage::ImageLuma8(image).write_to(&mut cursor, image::ImageOutputFormat::Png)?;
    Ok(bytes)
}

/// The QR code of a text: its width and modules, or why the encoder refused.
pub fn encode_matrix(text: &str) -> (r: Result<QrMatrix, QrFailure>)
    ensures
        match r {
            Ok(m) => qr_code_of(text@) == Ok::<(nat, Seq<bool>), QrFailure>(
                (m.width as nat, m.modules@),
            ) && m.wf(),
            Err(e) => qr_code_of(text@) == Err::<(nat, Seq<bool>), QrFailure>(e),
        },
{
    qr_encode(text)
}

/// The grayscale bitmap of a code: 8 by 8 pixels a module, black for a dark
/// one, with a light quiet zone of four modules around it.
pub fn rasterize(matrix: &QrMatrix) -> (r: Raster)
    requires
        matrix.wf(),
    ensures
        r.side == raster_side(matrix.width as int),
        r.pixels@ == raster_pixels(matrix.modules@, matrix.width as int),
        r.pixels@.len() == r.side * r.side,
{
    render_luma(&matrix.modules, matrix.width, QUIET_ZONE)
}

/// The PNG file of a square grayscale bitmap, or the image encoder's error.
pub fn raster_to_png(raster: &Raster) -> (r: Result<Vec<u8>, image::ImageError>)
    requires
        raster.pixels@.len() == raster.side * raster.side,
    ensures
        match r {
            Ok(b) => png_gray_of(raster.side as nat, raster.side as nat, raster.pixels@) == Some(
                b@,
            ) && b@.len() >= 8 && b@.subrange(0, 8) == png_signature(),
            Err(_) => png_gray_of(raster.side as nat, raster.side as nat, raster.pixels@) is None,
        },
{
    write_png_gray(raster.side, raster.side, &raster.pixels)
}

/// Encodes a text as a QR code, draws the code as a grayscale bitmap and packs
/// that into an in-memory PNG file. Fails only where the QR encoder refuses
/// the text (a text too long for the largest code) or the PNG encoder
/// refuses the bitmap; never cuts the text short.
pub fn encode(text: &str) -> (r: Result<EncodedQr, EncodeError>)
    ensures
        encode_gave(text@, r),
        r matches Ok(e) ==> e.png@.len() >= 8 && e.png@.subrange(0, 8) == png_signature(),
{
    let matrix = match encode_matrix(text) {
        Ok(m) => m,
        Err(e) => {
            return Err(EncodeError::Qr(e));
        },
    };
    let raster = rasterize(&matrix);
    match raster_to_png(&raster) {
        Ok(png) => Ok(EncodedQr { matrix, png }),
        Err(e) => Err(EncodeError::Image(e)),
    }
}

/// Encoding is a function of the text: two encodings of one text have the
/// same outcome, and where they succeed, the same modules and byte for byte
/// the same PNG file.
pub proof fn lemma_encoding_deterministic(
    text: Seq<char>,
    first: Result<EncodedQr, EncodeError>,
    second: Result<EncodedQr, EncodeError>,
)
    requires
        encode_gave(text, first),
        encode_gave(text, second),
    ensures
        first is Ok <==> second is Ok,
        first matches Ok(a) ==> second matches Ok(b) && a.matrix.width == b.matrix.width
            && a.matrix.modules@ == b.matrix.modules@ && a.png@ == b.png@,
{
}

/// Encoding never shortens a text to make it fit: where it succeeds, the
/// modules are those of the QR code of the whole text; where the text does
/// not fit, the refusal is the QR encoder's own reason, and no image comes.
pub proof fn lemma_whole_text_or_refusal(text: Seq<char>, r: Result<EncodedQr, EncodeError>)
    requires
        encode_gave(text, r),
    ensures
        r matches Ok(e) ==> qr_code_of(text) == Ok::<(nat, Seq<bool>), QrFailure>(
            (e.matrix.width as nat, e.matrix.modules@),
        ),
        qr_code_of(text) matches Err(q) ==> r matches Err(EncodeError::Qr(p)) && p == q,
{
}

} // verus!
