//! Tokens that name issued captchas.
use vstd::prelude::*;

verus! {

/// `c` is a lowercase hexadecimal digit.
pub open spec fn is_lower_hex(c: char) -> bool {
    ('0' <= c && c <= '9') || ('a' <= c && c <= 'f')
}

/// `s` is a UUID in its hyphenated lowercase text form: 36 characters,
/// hyphens at positions 8, 13, 18 and 23, lowercase hex digits elsewhere.
pub open spec fn is_uuid_text(s: Seq<char>) -> bool {
    &&& s.len() == 36
    &&& forall|i: int|
        0 <= i < 36 ==> if i == 8 || i == 13 || i == 18 || i == 23 {
            #[trigger] s[i] == '-'
        } else {
            is_lower_hex(s[i])
        }
}

/// `s` is a version 7 UUID (time-ordered) in its hyphenated lowercase form:
/// the version digit (position 14) is `7`, the variant digit (position 19)
/// is one of `8`, `9`, `a`, `b`.
pub open spec fn is_uuid_v7_text(s: Seq<char>) -> bool {
    &&& is_uuid_text(s)
    &&& s[14] == '7'
    &&& (s[19] == '8' || s[19] == '9' || s[19] == 'a' || s[19] == 'b')
}

/// `a` sorts before `b`, character by character: they agree up to some
/// position, where `a` has the smaller character.
pub open spec fn text_before(a: Seq<char>, b: Seq<char>) -> bool {
    exists|i: int| 0 <= i < a.len() && i < b.len() && a.subrange(0, i) == b.subrange(0, i) && #[trigger] a[i] < b[i]
}

/// Hands out tokens, and remembers the last one it handed out.
pub struct TokenIssuer {
    last: Option<String>,
}

/// `uuid::Uuid::now_v7().to_string()`: a time-ordered version 7 UUID (RFC
/// 9562 variant) in its hyphenated lowercase form, which `uuid`'s `Display`
/// documents. `uuid` documents that the UUIDs `now_v7` makes in one process
/// are ordered by their creation, and the hyphenated lowercase text sorts as
/// the UUID does; `issuer.last` only ever holds a token made here earlier.
/// Claimed: that form, and a text that sorts after `issuer`'s last token.
/// The value depends on the clock and on chance.
#[verifier::external_body]
fn new_token(issuer: &TokenIssuer) -> (t: String)
    ensures
        is_uuid_v7_text(t@),
        issuer.last matches Some(l) ==> text_before(l@, t@),
{
    uuid::Uuid::now_v7().to_string()
}

impl TokenIssuer {
    /// The last token handed out, if any.
    pub closed spec fn latest(&self) -> Option<Seq<char>> {
        match self.last {
            Some(l) => Some(l@),
            None => None,
        }
    }

    /// An issuer that has handed out nothing.
    pub fn new() -> (r: Self)
        ensures
            r.latest() is None,
    {
        TokenIssuer { last: None }
    }

    /// Hands out a fresh token: a version 7 UUID that sorts after every
    /// token handed out before.
    pub fn issue(&mut self) -> (t: String)
        ensures
            is_uuid_v7_text(t@),
            old(self).latest() matches Some(l) ==> text_before(l, t@),
            final(self).latest() == Some(t@),
    {
        let t = new_token(self);
        self.last = Some(t.clone());
        t
    }
}

/// Sorting before is irreflexive: a token that sorts after another differs
/// from it.
pub proof fn text_before_differs(a: Seq<char>, b: Seq<char>)
    requires
        text_before(a, b),
    ensures
        a != b,
{
}

/// Sorting before is transitive: tokens handed out one after another all
/// differ.
pub proof fn text_before_transitive(a: Seq<char>, b: Seq<char>, c: Seq<char>)
    requires
        text_before(a, b),
        text_before(b, c),
    ensures
        text_before(a, c),
{
    let i = choose|i: int| 0 <= i < a.len() && i < b.len() && a.subrange(0, i) == b.subrange(0, i) && #[trigger] a[i] < b[i];
    let j = choose|j: int| 0 <= j < b.len() && j < c.len() && b.subrange(0, j) == c.subrange(0, j) && #[trigger] b[j] < c[j];
    let k = if i < j { i } else { j };
    assert(a.subrange(0, k) =~= c.subrange(0, k)) by {
        assert forall|m: int| 0 <= m < k implies a[m] == c[m] by {
            assert(a.subrange(0, i)[m] == b.subrange(0, i)[m]);
            assert(b.subrange(0, j)[m] == c.subrange(0, j)[m]);
        }
    }
    if i < j {
        assert(b.subrange(0, j)[i] == c.subrange(0, j)[i]);
        assert(a[k] < c[k]);
    } else if j < i {
        assert(a.subrange(0, i)[j] == b.subrange(0, i)[j]);
        assert(a[k] < c[k]);
    } else {
        assert(a[k] < c[k]);
    }
}

} // verus!
