//! QR codes of a text, as PNG, base64 PNG or SVG.
use vstd::prelude::*;
use crate::convert_handler::text_or;
use crate::convert_handler::bytes_view;
use crate::encoding::{base64_encode, base64_text, png_header};
use crate::text::{data_uri, data_uri_text, str_eq};
use image::ImageEncoder;
use qrcode::QrCode;

verus! {

/// A QR code request: the text to encode, the error correction level (`L`,
/// `M`, `Q` or `H`; `M` otherwise), the least picture size in pixels (256
/// when absent) and the output (`png`, `svg` or `base64_png`; `png` when
/// absent).
pub struct QrRequest {
    pub text: String,
    pub ec_level: Option<String>,
    pub size: Option<u32>,
    pub format: Option<String>,
}

/// Error correction levels of a QR code.
#[derive(PartialEq, Eq, Structural, Clone, Copy, Debug)]
pub enum EcLevel {
    /// Recovers about 7% of the symbol.
    L,
    /// Recovers about 15% of the symbol.
    M,
    /// Recovers about 25% of the symbol.
    Q,
    /// Recovers about 30% of the symbol.
    H,
}

/// A generated QR code.
pub enum QrOutput {
    /// PNG bytes.
    Png(Vec<u8>),
    /// The PNG as a base64 data URI.
    Base64Png(String),
    /// An SVG document.
    Svg(String),
}

/// Why a QR code request was refused.
#[derive(PartialEq, Eq, Structural, Clone, Copy, Debug)]
pub enum QrError {
    /// The text is empty.
    EmptyText,
    /// The text does not fit in a QR code at the asked level.
    GenerateFailed,
    /// The PNG encoder failed.
    EncodeFailed,
    /// The output format is not `png`, `svg` or `base64_png`.
    UnsupportedFormat,
}

/// The least picture size used when a request gives none.
pub const DEFAULT_QR_SIZE: u32 = 256;

/// The least picture size of an SVG rendering, whatever the request says.
pub const SVG_SIZE: u32 = 256;

/// The largest PNG size the renderer is asked for: beyond about three
/// thousand million pixels a side its pixel buffer no longer fits in memory
/// addresses.
pub const QR_MAX_SIZE: u32 = 3_000_000_000;

/// The level that an optional level name selects.
pub open spec fn ec_level_of(level: Option<String>) -> EcLevel {
    match level {
        Some(s) => if s@ == "L"@ {
            EcLevel::L
        } else if s@ == "Q"@ {
            EcLevel::Q
        } else if s@ == "H"@ {
            EcLevel::H
        } else {
            EcLevel::M
        },
        None => EcLevel::M,
    }
}

/// The least picture size a request asks for.
pub open spec fn qr_size(params: &QrRequest) -> u32 {
    match params.size {
        Some(s) => s,
        None => DEFAULT_QR_SIZE,
    }
}

/// The output format a request asks for (`png` when absent).
pub open spec fn qr_format(params: &QrRequest) -> Seq<char> {
    text_or(params.format, "png"@)
}

/// The format is rendered as a PNG picture.
pub open spec fn renders_png(format: Seq<char>) -> bool {
    format == "png"@ || format == "base64_png"@
}

/// The code of an error correction level: 0 `L`, 1 `M`, 2 `Q`, 3 `H`.
pub open spec fn level_code(level: EcLevel) -> u8 {
    match level {
        EcLevel::L => 0,
        EcLevel::M => 1,
        EcLevel::Q => 2,
        EcLevel::H => 3,
    }
}

/// Whether `qrcode` can encode `data` in a QR code at the level with code
/// `level` (false when the data is too long for the largest version).
pub uninterp spec fn qr_encodable(data: Seq<u8>, level: u8) -> bool;

/// The PNG that `qrcode` and `image` make of the QR code of `data` at the
/// level with code `level`, at least `size` pixels wide, or `None` when the
/// encoder fails.
pub uninterp spec fn qr_png(data: Seq<u8>, level: u8, size: u32) -> Option<Seq<u8>>;

/// The SVG document that `qrcode` makes of the QR code of `data` at the
/// level with code `level`, at least `size` pixels wide, in the given dark
/// and light colours.
pub uninterp spec fn qr_svg(data: Seq<u8>, level: u8, size: u32, dark: Seq<char>, light: Seq<char>) -> Seq<char>;

/// Whether `QrCode::with_error_correction_level` of `qrcode` succeeds.
/// Claimed: exactly on the inputs `qr_encodable` names.
#[verifier::external_body]
fn qr_fits(data: &[u8], level: EcLevel) -> (r: bool)
    ensures
        r == qr_encodable(data@, level_code(level)),
{
    let level = match level {
        EcLevel::L => qrcode::EcLevel::L,
        EcLevel::M => qrcode::EcLevel::M,
        EcLevel::Q => qrcode::EcLevel::Q,
        EcLevel::H => qrcode::EcLevel::H,
    };
    QrCode::with_error_correction_level(data, level).is_ok()
}

/// Makes the QR code of `data` (`QrCode::with_error_correction_level`),
/// renders it in grey levels at least `size` pixels wide
/// (`render::<Luma<u8>>().min_dimensions(size, size).build()`) and encodes
/// it with `image`'s `PngEncoder`. Claimed: the result is `qr_png` of the
/// arguments, a function of them alone; the encoding does not fail (the
/// picture is grey, 8 bits, at least one pixel wide, written to memory,
/// and the PNG encoder refuses only empty sizes, invalid colour/depth pairs,
/// a buffer of the wrong length or a failing writer); the PNG starts with
/// the signature and an IHDR chunk of a square picture at least `size` (and
/// at least one) pixels wide, depth 8, colour type grey. Sizes over `QR_MAX_SIZE` make the renderer overflow and are left
/// out, as is data that does not fit in a QR code.
#[verifier::external_body]
fn qr_png_bytes(data: &[u8], level: EcLevel, size: u32) -> (r: Option<Vec<u8>>)
    requires
        size <= QR_MAX_SIZE,
        qr_encodable(data@, level_code(level)),
    ensures
        bytes_view(r) == qr_png(data@, level_code(level), size),
        r is Some,
        r matches Some(b) ==> exists|w: int| w >= size && w > 0 && #[trigger] png_header(b@, w, w, 8, 0),
{
    let level = match level {
        EcLevel::L => qrcode::EcLevel::L,
        EcLevel::M => qrcode::EcLevel::M,
        EcLevel::Q => qrcode::EcLevel::Q,
        EcLevel::H => qrcode::EcLevel::H,
    };
    let code = QrCode::with_error_correction_level(data, level).ok()?;
    let img = code.render::<image::Luma<u8>>().min_dimensions(size, size).build();
    let mut buf: Vec<u8> = Vec::new();
    let encoder = image::codecs::png::PngEncoder::new(&mut buf);
    match encoder.write_image(img.as_raw(), img.width(), img.height(), image::ExtendedColorType::L8) {
        Ok(()) => Some(buf),
        Err(_) => None,
    }
}

/// Makes the QR code of `data` (`QrCode::with_error_correction_level`) and
/// renders it as SVG at least `size` pixels wide with the given dark and
/// light colours (`render::<svg::Color>()` of `qrcode`). Claimed: the
/// document is `qr_svg` of the arguments, a function of them alone. Data
/// that does not fit in a QR code is left out.
#[verifier::external_body]
fn qr_svg_text(data: &[u8], level: EcLevel, size: u32, dark: &str, light: &str) -> (r: String)
    requires
        qr_encodable(data@, level_code(level)),
    ensures
        r@ == qr_svg(data@, level_code(level), size, dark@, light@),
{
    let level = match level {
        EcLevel::L => qrcode::EcLevel::L,
        EcLevel::M => qrcode::EcLevel::M,
        EcLevel::Q => qrcode::EcLevel::Q,
        EcLevel::H => qrcode::EcLevel::H,
    };
    match QrCode::with_error_correction_level(data, level) {
        Ok(code) => code.render::<qrcode::render::svg::Color>()
            .min_dimensions(size, size)
            .dark_color(qrcode::render::svg::Color(dark))
            .light_color(qrcode::render::svg::Color(light))
            .build(),
        Err(_) => String::new(),
    }
}

/// The error correction level a level name selects: `L`, `Q` and `H`
/// select themselves; `M`, anything else, or no name select `M`.
pub fn parse_ec_level(level: &Option<String>) -> (l: EcLevel)
    ensures
        l == ec_level_of(*level),
{
    match level {
        Some(s) => {
            if str_eq(s.as_str(), "L") {
                EcLevel::L
            } else if str_eq(s.as_str(), "Q") {
                EcLevel::Q
            } else if str_eq(s.as_str(), "H") {
                EcLevel::H
            } else {
                EcLevel::M
            }
        },
        None => EcLevel::M,
    }
}

impl QrError {
    /// The HTTP status of the refusal: 500 for a failed PNG encoding, 400
    /// for the others.
    pub fn status(&self) -> (s: u16)
        ensures
            s == (if *self == QrError::EncodeFailed { 500u16 } else { 400u16 }),
    {
        match self {
            QrError::EncodeFailed => 500,
            _ => 400,
        }
    }

    /// The text of the refusal.
    pub fn message(&self) -> (m: &'static str)
        ensures
            m@ == match self {
                QrError::EmptyText => "Query param `text` cannot be empty"@,
                QrError::GenerateFailed => "Failed to generate QR code"@,
                QrError::EncodeFailed => "Failed to encode PNG"@,
                QrError::UnsupportedFormat => "Unsupported format: use png, svg, or base64_png"@,
            },
    {
        match self {
            QrError::EmptyText => "Query param `text` cannot be empty",
            QrError::GenerateFailed => "Failed to generate QR code",
            QrError::EncodeFailed => "Failed to encode PNG",
            QrError::UnsupportedFormat => "Unsupported format: use png, svg, or base64_png",
        }
    }
}

impl QrOutput {
    /// The MIME type of the reply: `image/png`, `text/plain` for the base64
    /// form, `image/svg+xml`.
    pub fn content_type(&self) -> (m: &'static str)
        ensures
            m@ == match self {
                QrOutput::Png(_) => "image/png"@,
                QrOutput::Base64Png(_) => "text/plain"@,
                QrOutput::Svg(_) => "image/svg+xml"@,
            },
    {
        match self {
            QrOutput::Png(_) => "image/png",
            QrOutput::Base64Png(_) => "text/plain",
            QrOutput::Svg(_) => "image/svg+xml",
        }
    }
}

/// The text of the request, as the bytes handed to the encoder.
pub open spec fn qr_data(params: &QrRequest) -> Seq<u8> {
    vstd::utf8::encode_utf8(params.text@)
}

/// The request would have the renderer draw a PNG wider than
/// `QR_MAX_SIZE`: its text is not empty and fits a QR code, its format is
/// rendered as PNG, and its size is over the limit.
pub open spec fn qr_beyond_limit(params: &QrRequest) -> bool {
    &&& params.text@.len() > 0
    &&& qr_encodable(qr_data(params), level_code(ec_level_of(params.ec_level)))
    &&& renders_png(qr_format(params))
    &&& qr_size(params) > QR_MAX_SIZE
}

/// What generating the QR code of `params` replies.
///
/// Refuses, in this order: an empty text (`EmptyText`); a text that does
/// not fit at the asked level (`GenerateFailed`); then, for `png` and
/// `base64_png`, a failed PNG encoding (`EncodeFailed`); and a format other
/// than `png`, `svg`, `base64_png` (`UnsupportedFormat`).
pub open spec fn qr_outcome(params: &QrRequest, r: Result<QrOutput, QrError>) -> bool {
    let data = qr_data(params);
    let level = level_code(ec_level_of(params.ec_level));
    let png = qr_png(data, level, qr_size(params));
    &&& (r == Err::<QrOutput, QrError>(QrError::EmptyText) <==> params.text@.len() == 0)
    &&& (r == Err::<QrOutput, QrError>(QrError::GenerateFailed) <==> (params.text@.len() > 0
        && !qr_encodable(data, level)))
    &&& (r == Err::<QrOutput, QrError>(QrError::UnsupportedFormat) <==> (params.text@.len() > 0
        && qr_encodable(data, level) && !renders_png(qr_format(params)) && qr_format(params) != "svg"@))
    &&& (r == Err::<QrOutput, QrError>(QrError::EncodeFailed) <==> (params.text@.len() > 0
        && qr_encodable(data, level) && renders_png(qr_format(params)) && png is None))
    &&& (r matches Ok(o) ==> {
        &&& params.text@.len() > 0
        &&& qr_encodable(data, level)
        &&& (o is Png <==> qr_format(params) == "png"@)
        &&& (o is Svg <==> qr_format(params) == "svg"@)
        &&& (o matches QrOutput::Png(b) ==> png == Some(b@))
        &&& (o matches QrOutput::Base64Png(s) ==> (qr_format(params) == "base64_png"@
            && (png matches Some(p) && s@ == data_uri_text("image/png"@, base64_text(p)))))
        &&& (o matches QrOutput::Svg(s) ==> s@ == qr_svg(data, level, SVG_SIZE, "#000000"@, "#ffffff"@))
    })
}

/// The PNG of the QR code of `data`, as raw bytes (`raw`) or as a base64
/// data URI; `EncodeFailed` when the encoder fails.
fn png_reply(data: &[u8], level: EcLevel, size: u32, raw: bool) -> (r: Result<QrOutput, QrError>)
    requires
        size <= QR_MAX_SIZE,
        qr_encodable(data@, level_code(level)),
    ensures
        r is Ok,
        r is Err <==> qr_png(data@, level_code(level), size) is None,
        r is Err ==> r == Err::<QrOutput, QrError>(QrError::EncodeFailed),
        r matches Ok(o) ==> (o is Png <==> raw) && !(o is Svg),
        r matches Ok(QrOutput::Png(b)) ==> qr_png(data@, level_code(level), size) == Some(b@)
            && exists|w: int| w >= size && w > 0 && #[trigger] png_header(b@, w, w, 8, 0),
        r matches Ok(QrOutput::Base64Png(s)) ==> (qr_png(data@, level_code(level), size) matches Some(p)
            && s@ == data_uri_text("image/png"@, base64_text(p))),
{
    let opt = qr_png_bytes(data, level, size);
    let png = match opt {
        Some(b) => b,
        None => return Err(QrError::EncodeFailed),
    };
    assert(qr_png(data@, level_code(level), size) == Some(png@));
    if raw {
        let ghost w = choose|w: int| w >= size && w > 0 && #[trigger] png_header(png@, w, w, 8, 0);
        assert(png_header(png@, w, w, 8, 0));
        Ok(QrOutput::Png(png))
    } else {
        let payload = base64_encode(png.as_slice());
        Ok(QrOutput::Base64Png(data_uri("image/png", payload.as_str())))
    }
}

/// A PNG generated for `params` shows a square picture at least the asked
/// size (and at least one pixel) wide, in grey levels.
pub open spec fn qr_png_shape(params: &QrRequest, r: Result<QrOutput, QrError>) -> bool {
    match r {
        Ok(QrOutput::Png(b)) => exists|w: int| w >= qr_size(params) && w > 0 && #[trigger] png_header(b@, w, w, 8, 0),
        _ => true,
    }
}

/// Generates the QR code of `params.text` (see `qr_outcome`). The PNG
/// encoding never fails, so `EncodeFailed` never comes. A PNG wider than
/// `QR_MAX_SIZE` would overflow the renderer, so such requests are left out.
pub fn generate_qr(params: &QrRequest) -> (r: Result<QrOutput, QrError>)
    requires
        !qr_beyond_limit(params),
    ensures
        qr_outcome(params, r),
        qr_png_shape(params, r),
        r != Err::<QrOutput, QrError>(QrError::EncodeFailed),
{
    if params.text.as_str().is_empty() {
        return Err(QrError::EmptyText);
    }
    let level = parse_ec_level(&params.ec_level);
    let size = match params.size {
        Some(s) => s,
        None => DEFAULT_QR_SIZE,
    };
    let format = match &params.format {
        Some(f) => f.clone(),
        None => String::from_str("png"),
    };
    let data = params.text.as_str().as_bytes();
    if !qr_fits(data, level) {
        return Err(QrError::GenerateFailed);
    }
    assert(format@ == qr_format(params));
    proof {
        reveal_strlit("png");
        reveal_strlit("svg");
        reveal_strlit("base64_png");
    }
    let is_png = str_eq(format.as_str(), "png");
    if is_png || str_eq(format.as_str(), "base64_png") {
        let r = png_reply(data, level, size, is_png);
        assert(!is_png ==> format@.len() != "svg"@.len());
        assert(is_png ==> format@[0] != "svg"@[0]);
        r
    } else if str_eq(format.as_str(), "svg") {
        Ok(QrOutput::Svg(qr_svg_text(data, level, SVG_SIZE, "#000000", "#ffffff")))
    } else {
        Err(QrError::UnsupportedFormat)
    }
}

/// Generates the QR code of `params.text` unless that would have the
/// renderer draw a PNG wider than `QR_MAX_SIZE`; in that case returns `None`
/// and generates nothing.
pub fn generate_qr_checked(params: &QrRequest) -> (r: Option<Result<QrOutput, QrError>>)
    ensures
        r is None <==> qr_beyond_limit(params),
        r matches Some(out) ==> qr_outcome(params, out) && qr_png_shape(params, out)
            && out != Err::<QrOutput, QrError>(QrError::EncodeFailed),
{
    proof {
        reveal_strlit("png");
        reveal_strlit("base64_png");
    }
    let size = match params.size {
        Some(s) => s,
        None => DEFAULT_QR_SIZE,
    };
    let png_format = match &params.format {
        Some(f) => str_eq(f.as_str(), "png") || str_eq(f.as_str(), "base64_png"),
        None => true,
    };
    if !params.text.as_str().is_empty() && png_format && size > QR_MAX_SIZE {
        let level = parse_ec_level(&params.ec_level);
        if qr_fits(params.text.as_str().as_bytes(), level) {
            return None;
        }
    }
    Some(generate_qr(params))
}

} // verus!
