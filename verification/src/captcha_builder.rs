//! Captcha images from request parameters, drawn by `captcha_rs`.
use vstd::prelude::*;
use crate::encoding::png_header;
use crate::text::is_ascii_alphanumeric;
use captcha_rs::CaptchaBuilder;

verus! {

/// Optional captcha parameters of a request; an absent one takes its default.
pub struct CaptchaParameter {
    pub length: Option<usize>,
    pub width: Option<u32>,
    pub height: Option<u32>,
    pub complexity: Option<u32>,
    pub compression: Option<u8>,
}

/// The captcha parameters once every default is filled in.
pub struct CaptchaSettings {
    pub length: usize,
    pub width: u32,
    pub height: u32,
    pub complexity: u32,
    pub compression: u8,
}

/// The answer length used when a request gives none.
pub const DEFAULT_LENGTH: usize = 5;
/// The image width used when a request gives none.
pub const DEFAULT_WIDTH: u32 = 130;
/// The image height used when a request gives none.
pub const DEFAULT_HEIGHT: u32 = 40;
/// The noise level used when a request gives none.
pub const DEFAULT_COMPLEXITY: u32 = 1;
/// The JPEG quality used when a request gives none.
pub const DEFAULT_COMPRESSION: u8 = 99;

/// The value of an optional parameter, or `default` when it is absent.
pub open spec fn or_default<T>(o: Option<T>, default: T) -> T {
    match o {
        Some(v) => v,
        None => default,
    }
}

/// The most characters `captcha_rs` draws.
pub const MAX_SHOWN: usize = 32;

/// `x` clamped to `lo..=hi`.
pub open spec fn clamp(x: int, lo: int, hi: int) -> int {
    if x < lo {
        lo
    } else if x > hi {
        hi
    } else {
        x
    }
}

/// The text that a captcha drawn for `text` shows, when `text` is not empty:
/// its first `MAX_SHOWN` characters.
pub open spec fn shown_text(text: Seq<char>) -> Seq<char> {
    if text.len() <= MAX_SHOWN {
        text
    } else {
        text.subrange(0, MAX_SHOWN as int)
    }
}

/// The least and largest picture width `captcha_rs` draws.
pub const MIN_WIDTH: u32 = 30;
pub const MAX_WIDTH: u32 = 2000;
/// The least and largest picture height `captcha_rs` draws.
pub const MIN_HEIGHT: u32 = 20;
pub const MAX_HEIGHT: u32 = 2000;

/// A drawn captcha: the text its picture shows, the picture's size in
/// pixels, and the picture as PNG bytes.
pub struct BuiltCaptcha {
    pub text: String,
    pub width: u32,
    pub height: u32,
    pub png: Vec<u8>,
}

/// The least and largest noise level `captcha_rs` draws with.
pub const MIN_COMPLEXITY: u32 = 1;
pub const MAX_COMPLEXITY: u32 = 10;

/// `png` is a PNG picture that `captcha_rs` drew showing every character of
/// `text`, with noise level `noise`; where the characters sit and the noise
/// itself are random.
pub uninterp spec fn captcha_shows(png: Seq<u8>, text: Seq<char>, noise: int) -> bool;

/// Draws a captcha with `captcha_rs` (`CaptchaBuilder::new().text(..)
/// .length(..).width(..).height(..).complexity(..).compression(..).build()`)
/// and encodes its picture as PNG (`DynamicImage::write_to` of `image`, into
/// memory). Claimed, from the sources of `captcha_rs`, `image` and `png`:
/// a non-empty `text` is shown cut to its first 32 characters; for an empty
/// one the crate draws its own text of `length` (clamped to `1..=32`)
/// characters from an alphabet of ASCII letters and digits; the picture is
/// RGB, 8 bits a channel, `width` clamped to `30..=2000` by `height` clamped
/// to `20..=2000` pixels; its PNG encoding does not fail (the encoder
/// refuses only empty sizes, invalid colour/depth pairs, a buffer of the
/// wrong length or a failing writer) and starts with the PNG signature and
/// an IHDR chunk that records that size, depth 8 and colour type RGB; the
/// picture shows every character of the result's text (the crate writes
/// each of them) with the noise level `complexity` clamped to `1..=10`. The
/// rest of the picture (placement, noise, lines) is random and not stated.
#[verifier::external_body]
fn render_captcha(settings: &CaptchaSettings, text: String) -> (r: BuiltCaptcha)
    ensures
        text@.len() > 0 ==> r.text@ == shown_text(text@),
        text@.len() == 0 ==> r.text@.len() == clamp(settings.length as int, 1, MAX_SHOWN as int),
        text@.len() == 0 ==> forall|i: int| 0 <= i < r.text@.len() ==> #[trigger] is_ascii_alphanumeric(r.text@[i]),
        r.width == clamp(settings.width as int, MIN_WIDTH as int, MAX_WIDTH as int),
        r.height == clamp(settings.height as int, MIN_HEIGHT as int, MAX_HEIGHT as int),
        png_header(r.png@, r.width as int, r.height as int, 8, 2),
        captcha_shows(r.png@, r.text@, clamp(settings.complexity as int, MIN_COMPLEXITY as int, MAX_COMPLEXITY as int)),
{
    let captcha = CaptchaBuilder::new()
        .text(text)
        .length(settings.length)
        .width(settings.width)
        .height(settings.height)
        .complexity(settings.complexity)
        .compression(settings.compression)
        .build();
    let mut png: Vec<u8> = Vec::new();
    captcha.image.write_to(&mut std::io::Cursor::new(&mut png), image::ImageFormat::Png).expect("PNG encoding");
    BuiltCaptcha { text: captcha.text.clone(), width: captcha.image.width(), height: captcha.image.height(), png }
}

/// What `CaptchaParameter::build` of `value` with `params` gives: the shown
/// text, the picture's size and noise level, and its PNG header.
pub open spec fn build_outcome(params: &CaptchaParameter, value: Seq<char>, c: BuiltCaptcha) -> bool {
    &&& (value.len() > 0 ==> c.text@ == shown_text(value))
    &&& (0 < value.len() <= MAX_SHOWN ==> c.text@ == value)
    &&& c.width == clamp(params.spec_settings().width as int, MIN_WIDTH as int, MAX_WIDTH as int)
    &&& c.height == clamp(params.spec_settings().height as int, MIN_HEIGHT as int, MAX_HEIGHT as int)
    &&& png_header(c.png@, c.width as int, c.height as int, 8, 2)
    &&& captcha_shows(c.png@, c.text@, params.noise_level())
    &&& (value.len() == 0 ==> c.text@.len() == clamp(params.spec_settings().length as int, 1, MAX_SHOWN as int))
}

impl CaptchaParameter {
    /// The settings these parameters ask for, with defaults filled in.
    pub open spec fn spec_settings(&self) -> CaptchaSettings {
        CaptchaSettings {
            length: or_default(self.length, DEFAULT_LENGTH),
            width: or_default(self.width, DEFAULT_WIDTH),
            height: or_default(self.height, DEFAULT_HEIGHT),
            complexity: or_default(self.complexity, DEFAULT_COMPLEXITY),
            compression: or_default(self.compression, DEFAULT_COMPRESSION),
        }
    }

    /// The noise level a captcha for these parameters is drawn with: the
    /// asked complexity (1 when absent), clamped to `1..=10`.
    pub open spec fn noise_level(&self) -> int {
        clamp(self.spec_settings().complexity as int, MIN_COMPLEXITY as int, MAX_COMPLEXITY as int)
    }

    /// Fills in the defaults: length 5, width 130, height 40, complexity 1,
    /// compression 99.
    pub fn settings(&self) -> (s: CaptchaSettings)
        ensures
            s == self.spec_settings(),
    {
        CaptchaSettings {
            length: match self.length {
                Some(v) => v,
                None => DEFAULT_LENGTH,
            },
            width: match self.width {
                Some(v) => v,
                None => DEFAULT_WIDTH,
            },
            height: match self.height {
                Some(v) => v,
                None => DEFAULT_HEIGHT,
            },
            complexity: match self.complexity {
                Some(v) => v,
                None => DEFAULT_COMPLEXITY,
            },
            compression: match self.compression {
                Some(v) => v,
                None => DEFAULT_COMPRESSION,
            },
        }
    }

    /// Draws a captcha showing `value` with these parameters. A captcha
    /// drawn for an answer of 1 to 32 characters shows exactly that answer.
    /// The picture has the requested size, clamped to `30..=2000` by
    /// `20..=2000` pixels (130 by 40 by default), and the requested noise
    /// level, clamped to `1..=10` (1 by default); it comes as a PNG.
    pub fn build(&self, value: String) -> (c: BuiltCaptcha)
        ensures
            value@.len() > 0 ==> c.text@ == shown_text(value@),
            0 < value@.len() <= MAX_SHOWN ==> c.text@ == value@,
            c.width == clamp(self.spec_settings().width as int, MIN_WIDTH as int, MAX_WIDTH as int),
            c.height == clamp(self.spec_settings().height as int, MIN_HEIGHT as int, MAX_HEIGHT as int),
            png_header(c.png@, c.width as int, c.height as int, 8, 2),
            captcha_shows(c.png@, c.text@, self.noise_level()),
            value@.len() == 0 ==> c.text@.len() == clamp(
                self.spec_settings().length as int,
                1,
                MAX_SHOWN as int,
            ),
            build_outcome(self, value@, c),
    {
        let settings = self.settings();
        render_captcha(&settings, value)
    }
}

} // verus!
