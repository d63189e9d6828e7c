//! Checking a user's answer to a captcha.
use vstd::prelude::*;
use crate::app_state::AppState;
use crate::store::CaptchaStore;
use crate::text::{eq_ignore_ascii_case, eq_ignoring_ascii_case};

verus! {

/// A user's answer to the captcha issued under `token`.
pub struct VerifyParams {
    pub token: String,
    pub value: String,
    /// Compare ignoring ASCII case; absent means `false`.
    pub ignore_case: Option<bool>,
}

/// The comparison mode that an optional flag selects (absent means
/// case-sensitive).
pub open spec fn ignore_case_flag(flag: Option<bool>) -> bool {
    match flag {
        Some(b) => b,
        None => false,
    }
}

/// `value` answers a captcha whose answer is `stored`: equal, or equal up to
/// ASCII case when `ignore_case` holds.
pub open spec fn answer_accepted(stored: Seq<char>, value: Seq<char>, ignore_case: bool) -> bool {
    if ignore_case {
        eq_ignoring_ascii_case(stored, value)
    } else {
        stored == value
    }
}

/// The answers hold one for `token` that `value` matches.
pub open spec fn may_pass(
    answers: Map<Seq<char>, Seq<char>>,
    token: Seq<char>,
    value: Seq<char>,
    ignore_case: bool,
) -> bool {
    answers.contains_key(token) && answer_accepted(answers[token], value, ignore_case)
}

/// Decides a lookup's outcome: the answer found for a token, if any, against
/// the user's value.
pub fn check_answer(stored: &Option<String>, value: &String, ignore_case: Option<bool>) -> (ok: bool)
    ensures
        ok == match stored {
            Some(s) => answer_accepted(s@, value@, ignore_case_flag(ignore_case)),
            None => false,
        },
{
    match stored {
        Some(s) => {
            let ic = match ignore_case {
                Some(b) => b,
                None => false,
            };
            if ic {
                eq_ignore_ascii_case(s.as_str(), value.as_str())
            } else {
                *s == *value
            }
        },
        None => false,
    }
}

/// Checks `params.value` against the answer stored for `params.token`, then
/// forgets that answer, whatever the outcome: a token can be checked once.
/// Succeeds only when the store holds a matching answer; the store may have
/// let the answer expire, in which case the check fails.
pub fn verify_captcha_handler<S: CaptchaStore>(state: &mut AppState<S>, params: &VerifyParams) -> (ok: bool)
    ensures
        ok ==> may_pass(
            old(state).store.answers(),
            params.token@,
            params.value@,
            ignore_case_flag(params.ignore_case),
        ),
        final(state).store.answers() == old(state).store.answers().remove(params.token@),
{
    let stored = state.store.get(params.token.as_str());
    let ok = check_answer(&stored, &params.value, params.ignore_case);
    state.store.remove(params.token.as_str());
    ok
}

} // verus!
