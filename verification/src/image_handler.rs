//! Issuing a captcha as a PNG picture.
use vstd::prelude::*;
use crate::app_state::AppState;
use crate::base64_handler::{
    answer_length, is_answer, issued, picture_height, picture_width, prepare_captcha, PreparedCaptcha,
};
use crate::captcha_builder::{captcha_shows, CaptchaParameter, MAX_SHOWN};
use crate::encoding::png_header;
use crate::store::CaptchaStore;
use crate::token::{is_uuid_v7_text, text_before};

verus! {

/// A captcha issued as a picture: the token to answer under and the PNG
/// bytes.
pub struct CaptchaImage {
    pub token: String,
    pub png: Vec<u8>,
}

/// The PNG picture of a prepared captcha with its token.
pub fn captcha_picture(p: &PreparedCaptcha) -> (r: Option<CaptchaImage>)
    ensures
        r matches Some(img) && img.token@ == p.token@ && img.png@ == p.captcha.png@,
{
    Some(CaptchaImage { token: p.token.clone(), png: p.captcha.png.clone() })
}

/// Issues a captcha as a PNG picture: records a random answer of the
/// requested length under a new token and returns the token with the PNG of
/// a picture of the requested size that shows that answer (when it has 1 to
/// 32 characters; a longer one is shown cut to its first 32). The token sorts after every token
/// issued before through `state`.
pub fn captcha_image_handler<S: CaptchaStore>(
    state: &mut AppState<S>,
    params: &CaptchaParameter,
) -> (r: Option<CaptchaImage>)
    ensures
        r matches Some(img) && {
            &&& is_uuid_v7_text(img.token@)
            &&& final(state).store.answers().contains_key(img.token@)
            &&& issued(
                old(state).store.answers(),
                final(state).store.answers(),
                img.token@,
                final(state).store.answers()[img.token@],
            )
            &&& is_answer(final(state).store.answers()[img.token@], answer_length(params))
            &&& png_header(img.png@, picture_width(params), picture_height(params), 8, 2)
            &&& (0 < answer_length(params) <= MAX_SHOWN ==> captcha_shows(
                img.png@,
                final(state).store.answers()[img.token@],
                params.noise_level(),
            ))
            &&& old(state).tokens.latest() matches Some(l) ==> text_before(l, img.token@)
            &&& final(state).tokens.latest() == Some(img.token@)
        },
{
    let p = prepare_captcha(&mut state.tokens, params);
    let img = captcha_picture(&p);
    state.store.set(p.token, p.answer);
    img
}

} // verus!
