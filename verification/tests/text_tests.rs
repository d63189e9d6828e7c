use capster::text::{chars_of, data_uri, eq_ignore_ascii_case, str_eq};

#[test]
fn ignore_case_matches_letters_of_either_case() {
    assert!(eq_ignore_ascii_case("AbC", "aBc"));
    assert!(eq_ignore_ascii_case("abc123", "ABC123"));
    assert!(eq_ignore_ascii_case("", ""));
}

#[test]
fn ignore_case_rejects_other_differences() {
    assert!(!eq_ignore_ascii_case("abc", "abd"));
    assert!(!eq_ignore_ascii_case("abc", "abcd"));
    assert!(!eq_ignore_ascii_case("[", "{"));
    assert!(!eq_ignore_ascii_case("É", "é"));
}

#[test]
fn exact_comparison() {
    assert!(str_eq("png", "png"));
    assert!(!str_eq("png", "PNG"));
    assert!(!str_eq("jpg", "jpeg"));
}

#[test]
fn characters_in_order() {
    assert_eq!(chars_of("aé1"), vec!['a', 'é', '1']);
    assert!(chars_of("").is_empty());
}

#[test]
fn data_uri_of_payload() {
    assert_eq!(data_uri("image/png", "QUJD"), "data:image/png;base64,QUJD");
    assert_eq!(data_uri("", ""), "data:;base64,");
}

#[test]
fn ignore_case_is_an_equivalence_on_examples() {
    let xs = ["abc", "ABC", "aBc", "abd", "ab", "a1_", "A1_"];
    for a in xs.iter() {
        assert!(eq_ignore_ascii_case(a, a));
        for b in xs.iter() {
            assert_eq!(eq_ignore_ascii_case(a, b), eq_ignore_ascii_case(b, a));
            for c in xs.iter() {
                if eq_ignore_ascii_case(a, b) && eq_ignore_ascii_case(b, c) {
                    assert!(eq_ignore_ascii_case(a, c));
                }
            }
        }
    }
}
