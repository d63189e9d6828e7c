//! Properties of the service that span several operations.
use vstd::prelude::*;
use crate::base64_handler::{issued, picture_height, picture_width};
use crate::captcha_builder::CaptchaParameter;
use crate::text::{ascii_lower_code, eq_ignoring_ascii_case, is_ascii_letter};
use crate::verify_handler::{answer_accepted, may_pass};
use crate::convert_handler::{
    convert_outcome, output_of, target_kind, target_of, ConvertError, ConvertOutput, ConvertParams, ImageKind,
};
use crate::qr_handler::{qr_encodable, qr_outcome, qr_png, qr_svg, QrError, QrOutput, QrRequest};
use crate::captcha_builder::{build_outcome, captcha_shows, BuiltCaptcha};
use crate::encoding::base64_text;
use crate::text::data_uri_text;

verus! {

/// A token can be checked once: `verify_captcha_handler` forgets the answer
/// of the token it checks, and succeeds only when the store it finds holds a
/// matching answer, so any later check of the same token fails, whatever
/// the value and the comparison mode.
pub proof fn token_is_single_use(
    answers: Map<Seq<char>, Seq<char>>,
    token: Seq<char>,
    value: Seq<char>,
    ignore_case: bool,
)
    ensures
        !may_pass(answers.remove(token), token, value, ignore_case),
{
}

/// The answer recorded when a captcha is issued is accepted for its token,
/// in either comparison mode, until it is checked or it expires.
pub proof fn issued_answer_passes(
    before: Map<Seq<char>, Seq<char>>,
    after: Map<Seq<char>, Seq<char>>,
    token: Seq<char>,
    answer: Seq<char>,
)
    requires
        issued(before, after, token, answer),
    ensures
        may_pass(after, token, answer, false),
        may_pass(after, token, answer, true),
{
    ignoring_case_is_reflexive(answer);
}

/// Issuing a captcha leaves the answers of every other token as they were.
pub proof fn issuing_keeps_other_answers(
    before: Map<Seq<char>, Seq<char>>,
    after: Map<Seq<char>, Seq<char>>,
    token: Seq<char>,
    answer: Seq<char>,
    other: Seq<char>,
)
    requires
        issued(before, after, token, answer),
        other != token,
    ensures
        after.contains_key(other) == before.contains_key(other),
        before.contains_key(other) ==> after[other] == before[other],
{
}

/// Checking a token leaves the answers of every other token as they were.
pub proof fn checking_keeps_other_answers(
    answers: Map<Seq<char>, Seq<char>>,
    token: Seq<char>,
    other: Seq<char>,
)
    requires
        other != token,
    ensures
        answers.remove(token).contains_key(other) == answers.contains_key(other),
        answers.contains_key(other) ==> answers.remove(token)[other] == answers[other],
{
}

/// A value that passes the exact comparison also passes the one that
/// ignores ASCII case.
pub proof fn exact_answer_passes_ignoring_case(stored: Seq<char>, value: Seq<char>)
    requires
        answer_accepted(stored, value, false),
    ensures
        answer_accepted(stored, value, true),
{
}

/// Comparison ignoring ASCII case accepts every string for itself.
pub proof fn ignoring_case_is_reflexive(a: Seq<char>)
    ensures
        eq_ignoring_ascii_case(a, a),
{
}

/// Comparison ignoring ASCII case does not depend on the order of its
/// arguments.
pub proof fn ignoring_case_is_symmetric(a: Seq<char>, b: Seq<char>)
    ensures
        eq_ignoring_ascii_case(a, b) == eq_ignoring_ascii_case(b, a),
{
}

/// Comparison ignoring ASCII case is transitive.
pub proof fn ignoring_case_is_transitive(a: Seq<char>, b: Seq<char>, c: Seq<char>)
    requires
        eq_ignoring_ascii_case(a, b),
        eq_ignoring_ascii_case(b, c),
    ensures
        eq_ignoring_ascii_case(a, c),
{
    assert forall|i: int| 0 <= i < a.len() implies #[trigger] ascii_lower_code(a[i]) == ascii_lower_code(c[i]) by {
        assert(ascii_lower_code(a[i]) == ascii_lower_code(b[i]));
        assert(ascii_lower_code(b[i]) == ascii_lower_code(c[i]));
    }
}

/// Two strings that differ in a character other than an ASCII letter (or in
/// length) never match, even ignoring case: case folding touches letters
/// only.
pub proof fn ignoring_case_keeps_non_letters(a: Seq<char>, b: Seq<char>, i: int)
    requires
        eq_ignoring_ascii_case(a, b),
        0 <= i < a.len(),
        !is_ascii_letter(a[i]),
    ensures
        a[i] == b[i],
{
    assert(ascii_lower_code(a[i]) == ascii_lower_code(b[i]));
    assert((a[i] as u32) == (b[i] as u32));
    vstd::utf8::char_u32_cast(a[i], a[i] as u32);
    vstd::utf8::char_u32_cast(b[i], b[i] as u32);
}

/// One store operation: `(true, k, v)` sets the answer of `k` to `v`,
/// `(false, k, _)` removes the answer of `k`.
pub open spec fn apply_op(
    answers: Map<Seq<char>, Seq<char>>,
    op: (bool, Seq<char>, Seq<char>),
) -> Map<Seq<char>, Seq<char>> {
    if op.0 {
        answers.insert(op.1, op.2)
    } else {
        answers.remove(op.1)
    }
}

/// The answers after the operations `ops`, in order.
pub open spec fn apply_ops(
    answers: Map<Seq<char>, Seq<char>>,
    ops: Seq<(bool, Seq<char>, Seq<char>)>,
) -> Map<Seq<char>, Seq<char>>
    decreases ops.len(),
{
    if ops.len() == 0 {
        answers
    } else {
        apply_op(apply_ops(answers, ops.drop_last()), ops.last())
    }
}

/// None of the operations sets an answer for `token`.
pub open spec fn never_sets(ops: Seq<(bool, Seq<char>, Seq<char>)>, token: Seq<char>) -> bool {
    forall|i: int| 0 <= i < ops.len() && (#[trigger] ops[i]).0 ==> ops[i].1 != token
}

/// A checked token stays used: after `verify_captcha_handler` forgets a
/// token's answer, any number of issues and checks of other tokens (and
/// further checks of the same one) leave it without an answer, so no later
/// check of it passes.
pub proof fn token_stays_used(
    answers: Map<Seq<char>, Seq<char>>,
    token: Seq<char>,
    ops: Seq<(bool, Seq<char>, Seq<char>)>,
    value: Seq<char>,
    ignore_case: bool,
)
    requires
        never_sets(ops, token),
    ensures
        !apply_ops(answers.remove(token), ops).contains_key(token),
        !may_pass(apply_ops(answers.remove(token), ops), token, value, ignore_case),
    decreases ops.len(),
{
    if ops.len() > 0 {
        let front = ops.drop_last();
        assert(never_sets(front, token)) by {
            assert forall|i: int| 0 <= i < front.len() && (#[trigger] front[i]).0 implies front[i].1 != token by {
                assert(front[i] == ops[i]);
            }
        }
        token_stays_used(answers, token, front, value, ignore_case);
        assert(ops[ops.len() - 1] == ops.last());
    }
}

/// Two QR replies are the same: the same refusal, or the same kind of
/// output with the same bytes or text.
pub open spec fn same_qr_reply(a: Result<QrOutput, QrError>, b: Result<QrOutput, QrError>) -> bool {
    match (a, b) {
        (Err(x), Err(y)) => x == y,
        (Ok(QrOutput::Png(x)), Ok(QrOutput::Png(y))) => x@ == y@,
        (Ok(QrOutput::Base64Png(x)), Ok(QrOutput::Base64Png(y))) => x@ == y@,
        (Ok(QrOutput::Svg(x)), Ok(QrOutput::Svg(y))) => x@ == y@,
        _ => false,
    }
}

/// Equal QR requests get the same reply.
pub proof fn qr_reply_is_determined(params: &QrRequest, a: Result<QrOutput, QrError>, b: Result<QrOutput, QrError>)
    requires
        qr_outcome(params, a),
        qr_outcome(params, b),
    ensures
        same_qr_reply(a, b),
{
}

/// Two conversion replies are the same: the same refusal, the same JSON
/// object, or the same bytes of the same MIME type.
pub open spec fn same_convert_reply(
    a: Result<ConvertOutput, ConvertError>,
    b: Result<ConvertOutput, ConvertError>,
) -> bool {
    match (a, b) {
        (Err(x), Err(y)) => x == y,
        (Ok(ConvertOutput::Json(x)), Ok(ConvertOutput::Json(y))) => x.format@ == y.format@
            && x.content_type@ == y.content_type@ && x.data@ == y.data@,
        (Ok(ConvertOutput::Binary { content_type: c, bytes: x }), Ok(
            ConvertOutput::Binary { content_type: d, bytes: y },
        )) => c@ == d@ && x@ == y@,
        _ => false,
    }
}

/// Equal uploads with equal parameters get the same conversion reply.
pub proof fn conversion_is_determined(
    params: &ConvertParams,
    file: Option<Seq<u8>>,
    a: Result<ConvertOutput, ConvertError>,
    b: Result<ConvertOutput, ConvertError>,
)
    requires
        convert_outcome(params, file, a),
        convert_outcome(params, file, b),
    ensures
        same_convert_reply(a, b),
{
}

/// `jpg` and `jpeg` select the same conversion: the replies differ at most
/// in the `format` field, which echoes the target as given.
pub proof fn jpg_and_jpeg_agree(
    p: &ConvertParams,
    q: &ConvertParams,
    file: Option<Seq<u8>>,
    a: Result<ConvertOutput, ConvertError>,
    b: Result<ConvertOutput, ConvertError>,
)
    requires
        p.target matches Some(t) && t@ == "jpg"@,
        q.target matches Some(t) && t@ == "jpeg"@,
        output_of(p) == output_of(q),
        convert_outcome(p, file, a),
        convert_outcome(q, file, b),
    ensures
        match (a, b) {
            (Err(x), Err(y)) => x == y,
            (Ok(ConvertOutput::Json(x)), Ok(ConvertOutput::Json(y))) => x.content_type@ == y.content_type@
                && x.data@ == y.data@,
            (Ok(ConvertOutput::Binary { content_type: c, bytes: x }), Ok(
                ConvertOutput::Binary { content_type: d, bytes: y },
            )) => c@ == d@ && x@ == y@,
            _ => false,
        },
{
    reveal_strlit("jpg");
    reveal_strlit("jpeg");
    reveal_strlit("png");
    assert(target_of(p) == "jpg"@);
    assert(target_of(q) == "jpeg"@);
    assert("jpg"@[0] != "png"@[0]);
    assert(target_kind(target_of(p)) == Some(ImageKind::Jpeg));
    assert(target_kind(target_of(q)) == Some(ImageKind::Jpeg));
}

/// A request that names no width or height gets a 130 by 40 picture.
pub proof fn default_picture_is_130_by_40(params: &CaptchaParameter)
    requires
        params.width is None,
        params.height is None,
    ensures
        picture_width(params) == 130,
        picture_height(params) == 40,
{
}

/// A QR code encodes the request's text itself, as UTF-8 bytes, at the
/// error correction level the request names (`L`, `Q`, `H`; `M` for any
/// other name or none) and at least the asked size (256 when none is
/// asked): the PNG is `qr_png` of exactly those, the base64 form is that
/// PNG's data URI, and the SVG is `qr_svg` of the same text and level at
/// 256 pixels in black on white. The text is refused as too long exactly
/// when those bytes do not fit at that level.
pub proof fn qr_encodes_the_request_text(params: &QrRequest, r: Result<QrOutput, QrError>)
    requires
        qr_outcome(params, r),
    ensures
        ({
            let data = vstd::utf8::encode_utf8(params.text@);
            let level: u8 = match params.ec_level {
                Some(name) => if name@ == "L"@ {
                    0u8
                } else if name@ == "Q"@ {
                    2u8
                } else if name@ == "H"@ {
                    3u8
                } else {
                    1u8
                },
                None => 1u8,
            };
            let size: u32 = match params.size {
                Some(n) => n,
                None => 256u32,
            };
            &&& (r == Err::<QrOutput, QrError>(QrError::GenerateFailed) <==> (params.text@.len() > 0
                && !qr_encodable(data, level)))
            &&& (r matches Ok(QrOutput::Png(b)) ==> qr_png(data, level, size) == Some(b@))
            &&& (r matches Ok(QrOutput::Base64Png(t)) ==> (qr_png(data, level, size) matches Some(png)
                && t@ == data_uri_text("image/png"@, base64_text(png))))
            &&& (r matches Ok(QrOutput::Svg(t)) ==> t@ == qr_svg(data, level, 256, "#000000"@, "#ffffff"@))
        }),
{
}

/// A built captcha uses the requested settings: its noise level is the
/// asked complexity (1 when none is asked) clamped to `1..=10`; its picture
/// is the asked width (130 when none) clamped to `30..=2000` by the asked
/// height (40 when none) clamped to `20..=2000`; and it shows an answer of
/// 1 to 32 characters exactly, a longer one cut to its first 32.
pub proof fn build_uses_requested_settings(params: &CaptchaParameter, value: Seq<char>, c: BuiltCaptcha)
    requires
        build_outcome(params, value, c),
    ensures
        ({
            let n: int = match params.complexity {
                Some(x) => x as int,
                None => 1,
            };
            captcha_shows(c.png@, c.text@, if n < 1 { 1 } else if n > 10 { 10 } else { n })
        }),
        ({
            let w: int = match params.width {
                Some(x) => x as int,
                None => 130,
            };
            c.width == if w < 30 { 30 } else if w > 2000 { 2000 } else { w }
        }),
        ({
            let h: int = match params.height {
                Some(x) => x as int,
                None => 40,
            };
            c.height == if h < 20 { 20 } else if h > 2000 { 2000 } else { h }
        }),
        0 < value.len() <= 32 ==> c.text@ == value,
        value.len() > 32 ==> c.text@ == value.subrange(0, 32),
{
}

} // verus!
