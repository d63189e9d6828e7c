//! Issuing a text captcha: a token and the answer text.
use vstd::prelude::*;
use crate::app_state::AppState;
use crate::captcha_builder::{
    captcha_shows, clamp, or_default, shown_text, BuiltCaptcha, CaptchaParameter, DEFAULT_LENGTH, MAX_HEIGHT, MAX_SHOWN,
    MAX_WIDTH, MIN_HEIGHT, MIN_WIDTH,
};
use crate::encoding::png_header;
use crate::random::random_string;
use crate::store::CaptchaStore;
use crate::text::is_ascii_alphanumeric;
use crate::token::{is_uuid_v7_text, text_before, TokenIssuer};

verus! {

/// The reply to a text captcha request: the token to answer under, and the
/// captcha text (the answer).
pub struct CaptchaResponse {
    pub token: String,
    pub captcha: String,
}

/// A captcha ready to be issued: its token, its answer, and its picture.
pub struct PreparedCaptcha {
    pub token: String,
    pub answer: String,
    pub captcha: BuiltCaptcha,
}

/// `answer` is a possible answer of the given length: that many ASCII letters
/// and digits.
pub open spec fn is_answer(answer: Seq<char>, length: int) -> bool {
    &&& answer.len() == length
    &&& forall|i: int| 0 <= i < answer.len() ==> #[trigger] is_ascii_alphanumeric(answer[i])
}

/// The answer length a request asks for (5 when it gives none).
pub open spec fn answer_length(params: &CaptchaParameter) -> int {
    or_default(params.length, DEFAULT_LENGTH) as int
}

/// The picture width a request gets: the asked one (130 when absent),
/// clamped to `30..=2000`.
pub open spec fn picture_width(params: &CaptchaParameter) -> int {
    clamp(params.spec_settings().width as int, MIN_WIDTH as int, MAX_WIDTH as int)
}

/// The picture height a request gets: the asked one (40 when absent),
/// clamped to `20..=2000`.
pub open spec fn picture_height(params: &CaptchaParameter) -> int {
    clamp(params.spec_settings().height as int, MIN_HEIGHT as int, MAX_HEIGHT as int)
}

/// `after` is `before` with `answer` recorded under `token`.
pub open spec fn issued(
    before: Map<Seq<char>, Seq<char>>,
    after: Map<Seq<char>, Seq<char>>,
    token: Seq<char>,
    answer: Seq<char>,
) -> bool {
    after == before.insert(token, answer)
}

/// Draws a fresh token and a random answer of the requested length, and a
/// captcha picture for that answer with the requested size.
pub fn prepare_captcha(tokens: &mut TokenIssuer, params: &CaptchaParameter) -> (p: PreparedCaptcha)
    ensures
        is_uuid_v7_text(p.token@),
        old(tokens).latest() matches Some(l) ==> text_before(l, p.token@),
        final(tokens).latest() == Some(p.token@),
        is_answer(p.answer@, answer_length(params)),
        p.answer@.len() > 0 ==> p.captcha.text@ == shown_text(p.answer@),
        0 < p.answer@.len() <= MAX_SHOWN ==> p.captcha.text@ == p.answer@,
        p.captcha.width == picture_width(params),
        p.captcha.height == picture_height(params),
        png_header(p.captcha.png@, p.captcha.width as int, p.captcha.height as int, 8, 2),
        captcha_shows(p.captcha.png@, p.captcha.text@, params.noise_level()),
{
    let token = tokens.issue();
    let length = match params.length {
        Some(l) => l,
        None => DEFAULT_LENGTH,
    };
    let answer = random_string(length);
    let captcha = params.build(answer.clone());
    PreparedCaptcha { token, answer, captcha }
}

/// Draws a fresh token and a random answer of the requested length, as the
/// reply of a text captcha.
pub fn text_captcha(tokens: &mut TokenIssuer, params: &CaptchaParameter) -> (r: CaptchaResponse)
    ensures
        is_uuid_v7_text(r.token@),
        old(tokens).latest() matches Some(l) ==> text_before(l, r.token@),
        final(tokens).latest() == Some(r.token@),
        is_answer(r.captcha@, answer_length(params)),
{
    let token = tokens.issue();
    let length = match params.length {
        Some(l) => l,
        None => DEFAULT_LENGTH,
    };
    CaptchaResponse { token, captcha: random_string(length) }
}

/// Issues a text captcha: records a random answer of the requested length
/// under a new token, and replies with the token and that answer. The token
/// sorts after every token issued before through `state`.
pub fn generate_captcha_handler<S: CaptchaStore>(
    state: &mut AppState<S>,
    params: &CaptchaParameter,
) -> (r: CaptchaResponse)
    ensures
        is_uuid_v7_text(r.token@),
        is_answer(r.captcha@, answer_length(params)),
        issued(old(state).store.answers(), final(state).store.answers(), r.token@, r.captcha@),
        old(state).tokens.latest() matches Some(l) ==> text_before(l, r.token@),
        final(state).tokens.latest() == Some(r.token@),
{
    let r = text_captcha(&mut state.tokens, params);
    state.store.set(r.token.clone(), r.captcha.clone());
    r
}

} // verus!
