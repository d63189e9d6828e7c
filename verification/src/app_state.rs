//! State shared by the request handlers.
use vstd::prelude::*;
use crate::token::TokenIssuer;

verus! {

/// What every handler works on: the store of issued answers, and the
/// issuer of their tokens.
pub struct AppState<S> {
    pub store: S,
    pub tokens: TokenIssuer,
}

} // verus!
