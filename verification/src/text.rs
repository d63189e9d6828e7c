//! Character-level helpers shared by the handlers.
use vstd::prelude::*;

verus! {

broadcast use vstd::string::group_string_axioms;

/// `c` is an ASCII letter or digit.
pub open spec fn is_ascii_alphanumeric(c: char) -> bool {
    ||| ('0' <= c && c <= '9')
    ||| ('A' <= c && c <= 'Z')
    ||| ('a' <= c && c <= 'z')
}

/// The code of `c` after ASCII lower-casing: `'A'..='Z'` go to `'a'..='z'`,
/// every other character stays as it is.
pub open spec fn ascii_lower_code(c: char) -> u32 {
    let u = c as u32;
    if 65 <= u <= 90 {
        (u + 32) as u32
    } else {
        u
    }
}

/// `c` is an ASCII letter, by code: `'A'..='Z'` or `'a'..='z'`.
pub open spec fn is_ascii_letter(c: char) -> bool {
    let u = c as u32;
    (65 <= u <= 90) || (97 <= u <= 122)
}

/// Two character sequences are equal once both are ASCII lower-cased.
pub open spec fn eq_ignoring_ascii_case(a: Seq<char>, b: Seq<char>) -> bool {
    &&& a.len() == b.len()
    &&& forall|i: int| 0 <= i < a.len() ==> #[trigger] ascii_lower_code(a[i]) == ascii_lower_code(b[i])
}

/// The characters of `s`, in order.
pub fn chars_of(s: &str) -> (v: Vec<char>)
    ensures
        v@ == s@,
{
    let mut v: Vec<char> = Vec::new();
    for c in it: s.chars()
        invariant
            v@ == it.seq().take(it.index()),
    {
        v.push(c);
    }
    v
}

/// ASCII case-insensitive comparison of two strings: equal lengths, and
/// equal characters once `'A'..='Z'` are mapped to `'a'..='z'`.
pub fn eq_ignore_ascii_case(a: &str, b: &str) -> (r: bool)
    ensures
        r == eq_ignoring_ascii_case(a@, b@),
{
    let x = chars_of(a);
    let y = chars_of(b);
    if x.len() != y.len() {
        return false;
    }
    let mut i: usize = 0;
    while i < x.len()
        invariant
            x@ == a@,
            y@ == b@,
            x.len() == y.len(),
            i <= x.len(),
            forall|j: int| 0 <= j < i ==> #[trigger] ascii_lower_code(x@[j]) == ascii_lower_code(y@[j]),
        decreases x.len() - i,
    {
        if lower_code(x[i]) != lower_code(y[i]) {
            return false;
        }
        i = i + 1;
    }
    true
}

/// Exact comparison of two strings, character by character.
pub fn str_eq(a: &str, b: &str) -> (r: bool)
    ensures
        r == (a@ == b@),
{
    let x = chars_of(a);
    let y = chars_of(b);
    if x.len() != y.len() {
        return false;
    }
    let mut i: usize = 0;
    while i < x.len()
        invariant
            x@ == a@,
            y@ == b@,
            x.len() == y.len(),
            i <= x.len(),
            forall|j: int| 0 <= j < i ==> #[trigger] x@[j] == y@[j],
        decreases x.len() - i,
    {
        if x[i] != y[i] {
            return false;
        }
        i = i + 1;
    }
    assert(x@ =~= y@);
    true
}

/// The code of `c` after ASCII lower-casing.
fn lower_code(c: char) -> (r: u32)
    ensures
        r == ascii_lower_code(c),
{
    let u = c as u32;
    if 65 <= u && u <= 90 {
        u + 32
    } else {
        u
    }
}

/// Appends `c` to `s` (std's `String::push`).
#[verifier::external_body]
pub(crate) fn push_char(s: &mut String, c: char)
    ensures
        final(s)@ == old(s)@.push(c),
{
    s.push(c);
}

/// `"data:" + mime + ";base64," + payload`, the data URI of a payload that is
/// already base64 encoded.
pub open spec fn data_uri_text(mime: Seq<char>, payload: Seq<char>) -> Seq<char> {
    seq!['d', 'a', 't', 'a', ':'] + mime + seq![';', 'b', 'a', 's', 'e', '6', '4', ','] + payload
}

/// Builds the data URI of a base64 payload with the given MIME type.
pub fn data_uri(mime: &str, payload: &str) -> (r: String)
    ensures
        r@ == data_uri_text(mime@, payload@),
{
    let mut r = String::new();
    push_char(&mut r, 'd');
    push_char(&mut r, 'a');
    push_char(&mut r, 't');
    push_char(&mut r, 'a');
    push_char(&mut r, ':');
    r.append(mime);
    push_char(&mut r, ';');
    push_char(&mut r, 'b');
    push_char(&mut r, 'a');
    push_char(&mut r, 's');
    push_char(&mut r, 'e');
    push_char(&mut r, '6');
    push_char(&mut r, '4');
    push_char(&mut r, ',');
    r.append(payload);
    r
}

} // verus!
