//! Converting an uploaded picture to another image format.
use vstd::prelude::*;
use crate::encoding::{base64_encode, base64_text};
use crate::text::{data_uri, data_uri_text, str_eq};

verus! {

/// Query parameters of a conversion: the target format (`png`, `jpg`,
/// `jpeg` or `webp`; `png` when absent) and the output form (`base64` for a
/// JSON reply, anything else or nothing for raw bytes).
pub struct ConvertParams {
    pub target: Option<String>,
    pub output: Option<String>,
}

/// The JSON reply of a conversion to base64: the target format as asked,
/// its MIME type, and the converted picture as a data URI.
pub struct ConvertResponse {
    pub format: String,
    pub content_type: String,
    pub data: String,
}

/// An uploaded picture.
pub struct MultipartUpload {
    pub file: Vec<u8>,
}

/// The image formats a picture can be converted to.
#[derive(PartialEq, Eq, Structural, Clone, Copy)]
pub enum ImageKind {
    Png,
    Jpeg,
    WebP,
}

/// What a conversion replies.
pub enum ConvertOutput {
    /// The converted picture in a JSON object.
    Json(ConvertResponse),
    /// The converted picture as raw bytes of the given MIME type.
    Binary { content_type: String, bytes: Vec<u8> },
}

/// Why a conversion was refused.
#[derive(PartialEq, Eq, Structural, Clone, Copy, Debug)]
pub enum ConvertError {
    /// The upload held no `file` field.
    MissingFile,
    /// The upload is not a picture that can be decoded.
    InvalidImage,
    /// The target format is not one of `png`, `jpg`, `jpeg`, `webp`.
    UnsupportedFormat,
    /// The encoder could not write the picture in the target format.
    ConvertFailed,
}

impl ConvertError {
    /// The HTTP status of the refusal: 500 for a failed encoding, 400 for
    /// the others.
    pub fn status(&self) -> (s: u16)
        ensures
            s == (if *self == ConvertError::ConvertFailed { 500u16 } else { 400u16 }),
    {
        match self {
            ConvertError::ConvertFailed => 500,
            _ => 400,
        }
    }

    /// The text of the refusal.
    pub fn message(&self) -> (m: &'static str)
        ensures
            m@ == match self {
                ConvertError::MissingFile => "Missing file field"@,
                ConvertError::InvalidImage => "Invalid image"@,
                ConvertError::UnsupportedFormat => "Unsupported format"@,
                ConvertError::ConvertFailed => "Convert failed"@,
            },
    {
        match self {
            ConvertError::MissingFile => "Missing file field",
            ConvertError::InvalidImage => "Invalid image",
            ConvertError::UnsupportedFormat => "Unsupported format",
            ConvertError::ConvertFailed => "Convert failed",
        }
    }
}

/// Whether the `image` crate decodes `bytes` as a picture (of a format it
/// guesses from the bytes).
pub uninterp spec fn image_decodable(bytes: Seq<u8>) -> bool;

/// What converting `input` to the format with code `format` gives (0 PNG,
/// 1 JPEG, 2 WebP): the bytes that `image` writes for the picture it decodes
/// from `input`, or `None` when decoding or encoding fails.
pub uninterp spec fn converted_image(input: Seq<u8>, format: u8) -> Option<Seq<u8>>;

/// The code of an image format in `converted_image`.
pub open spec fn kind_code(kind: ImageKind) -> u8 {
    match kind {
        ImageKind::Png => 0,
        ImageKind::Jpeg => 1,
        ImageKind::WebP => 2,
    }
}

/// The bytes an optional buffer holds.
pub open spec fn bytes_view(o: Option<Vec<u8>>) -> Option<Seq<u8>> {
    match o {
        Some(v) => Some(v@),
        None => None,
    }
}

/// Whether `image::load_from_memory` accepts `bytes`. Claimed: exactly the
/// inputs that `image_decodable` names.
#[verifier::external_body]
fn image_decodes(bytes: &[u8]) -> (r: bool)
    ensures
        r == image_decodable(bytes@),
{
    image::load_from_memory(bytes).is_ok()
}

/// Decodes `bytes` with `image::load_from_memory` and writes the picture in
/// the given format with `DynamicImage::write_to`, into memory. Claimed: the
/// result is `converted_image` of the input and the format, a function of
/// the two alone; undecodable input gives `None`.
#[verifier::external_body]
fn convert_bytes(bytes: &[u8], kind: ImageKind) -> (r: Option<Vec<u8>>)
    ensures
        bytes_view(r) == converted_image(bytes@, kind_code(kind)),
        !image_decodable(bytes@) ==> r is None,
{
    let format = match kind {
        ImageKind::Png => image::ImageFormat::Png,
        ImageKind::Jpeg => image::ImageFormat::Jpeg,
        ImageKind::WebP => image::ImageFormat::WebP,
    };
    let img = image::load_from_memory(bytes).ok()?;
    let mut out = std::io::Cursor::new(Vec::new());
    match img.write_to(&mut out, format) {
        Ok(()) => Some(out.into_inner()),
        Err(_) => None,
    }
}

/// The format a target name selects.
pub open spec fn target_kind(target: Seq<char>) -> Option<ImageKind> {
    if target == "png"@ {
        Some(ImageKind::Png)
    } else if target == "jpg"@ || target == "jpeg"@ {
        Some(ImageKind::Jpeg)
    } else if target == "webp"@ {
        Some(ImageKind::WebP)
    } else {
        None
    }
}

/// The MIME type of an image format.
pub open spec fn kind_mime(kind: ImageKind) -> Seq<char> {
    match kind {
        ImageKind::Png => "image/png"@,
        ImageKind::Jpeg => "image/jpeg"@,
        ImageKind::WebP => "image/webp"@,
    }
}

/// The text of an optional parameter, or `default` when it is absent.
pub open spec fn text_or(o: Option<String>, default: Seq<char>) -> Seq<char> {
    match o {
        Some(s) => s@,
        None => default,
    }
}

/// The target format a request names (`png` when absent).
pub open spec fn target_of(params: &ConvertParams) -> Seq<char> {
    text_or(params.target, "png"@)
}

/// The output form a request names (`binary` when absent).
pub open spec fn output_of(params: &ConvertParams) -> Seq<char> {
    text_or(params.output, "binary"@)
}

/// Selects the format that a target name stands for.
pub fn parse_target(target: &str) -> (k: Option<ImageKind>)
    ensures
        k == target_kind(target@),
{
    if str_eq(target, "png") {
        Some(ImageKind::Png)
    } else if str_eq(target, "jpg") || str_eq(target, "jpeg") {
        Some(ImageKind::Jpeg)
    } else if str_eq(target, "webp") {
        Some(ImageKind::WebP)
    } else {
        None
    }
}

/// The MIME type of an image format.
pub fn mime_type(kind: ImageKind) -> (m: &'static str)
    ensures
        m@ == kind_mime(kind),
{
    match kind {
        ImageKind::Png => "image/png",
        ImageKind::Jpeg => "image/jpeg",
        ImageKind::WebP => "image/webp",
    }
}

/// What converting the upload `file` with `params` replies.
///
/// Refuses, in this order: no upload (`MissingFile`); bytes that do not
/// decode (`InvalidImage`); a target other than `png`, `jpg`, `jpeg`,
/// `webp` (`UnsupportedFormat`); a picture the encoder cannot write
/// (`ConvertFailed`). Otherwise replies with the converted bytes: as a
/// base64 data URI in JSON, with the target as given and its MIME type,
/// when the output form is `base64`; raw with the MIME type otherwise.
pub open spec fn convert_outcome(
    params: &ConvertParams,
    file: Option<Seq<u8>>,
    r: Result<ConvertOutput, ConvertError>,
) -> bool {
    match file {
        None => r == Err::<ConvertOutput, ConvertError>(ConvertError::MissingFile),
        Some(b) => if !image_decodable(b) {
            r == Err::<ConvertOutput, ConvertError>(ConvertError::InvalidImage)
        } else {
            match target_kind(target_of(params)) {
                None => r == Err::<ConvertOutput, ConvertError>(ConvertError::UnsupportedFormat),
                Some(kind) => match converted_image(b, kind_code(kind)) {
                    None => r == Err::<ConvertOutput, ConvertError>(ConvertError::ConvertFailed),
                    Some(out) => if output_of(params) == "base64"@ {
                        r matches Ok(ConvertOutput::Json(resp)) && {
                            &&& resp.format@ == target_of(params)
                            &&& resp.content_type@ == kind_mime(kind)
                            &&& resp.data@ == data_uri_text(kind_mime(kind), base64_text(out))
                        }
                    } else {
                        r matches Ok(ConvertOutput::Binary { content_type, bytes }) && content_type@
                            == kind_mime(kind) && bytes@ == out
                    },
                },
            }
        },
    }
}

/// Converts an uploaded picture to the target format of `params` (see
/// `convert_outcome`).
pub fn convert_image(params: &ConvertParams, file: Option<Vec<u8>>) -> (r: Result<ConvertOutput, ConvertError>)
    ensures
        convert_outcome(params, bytes_view(file), r),
{
    let bytes = match file {
        Some(b) => b,
        None => return Err(ConvertError::MissingFile),
    };
    if !image_decodes(bytes.as_slice()) {
        return Err(ConvertError::InvalidImage);
    }
    let target = match &params.target {
        Some(t) => t.clone(),
        None => String::from_str("png"),
    };
    let output = match &params.output {
        Some(o) => o.clone(),
        None => String::from_str("binary"),
    };
    let kind = match parse_target(target.as_str()) {
        Some(k) => k,
        None => return Err(ConvertError::UnsupportedFormat),
    };
    let out = match convert_bytes(bytes.as_slice(), kind) {
        Some(out) => out,
        None => return Err(ConvertError::ConvertFailed),
    };
    let mime = mime_type(kind);
    if str_eq(output.as_str(), "base64") {
        let payload = base64_encode(out.as_slice());
        let data = data_uri(mime, payload.as_str());
        Ok(ConvertOutput::Json(ConvertResponse { format: target, content_type: String::from_str(mime), data }))
    } else {
        Ok(ConvertOutput::Binary { content_type: String::from_str(mime), bytes: out })
    }
}

} // verus!
