use capster::app_state::AppState;
use capster::base64_handler::{generate_captcha_handler, prepare_captcha};
use capster::captcha_builder::CaptchaParameter;
use capster::config::{AppConfig, CaptchaConfig, StoreConfig};
use capster::image_handler::captcha_image_handler;
use capster::memory_store::InMemoryStore;
use capster::random::random_string;
use capster::store::{create_store, CaptchaStore, StoreBackend};
use capster::token::TokenIssuer;
use capster::verify_handler::{check_answer, verify_captcha_handler, VerifyParams};

fn no_params() -> CaptchaParameter {
    CaptchaParameter { length: None, width: None, height: None, complexity: None, compression: None }
}

fn new_state() -> AppState<InMemoryStore> {
    let store = create_store(
        StoreConfig { backend: StoreBackend::Memory, url: String::from("redis://localhost:6379") },
        CaptchaConfig { expire_seconds: 120 },
    )
    .expect("memory store");
    AppState { store, tokens: TokenIssuer::new() }
}

fn is_uuid_text(s: &str) -> bool {
    let cs: Vec<char> = s.chars().collect();
    cs.len() == 36
        && cs[14] == '7'
        && "89ab".contains(cs[19])
        && cs.iter().enumerate().all(|(i, c)| {
            if i == 8 || i == 13 || i == 18 || i == 23 {
                *c == '-'
            } else {
                c.is_ascii_hexdigit() && !c.is_ascii_uppercase()
            }
        })
}

#[test]
fn random_strings_have_the_asked_length() {
    assert_eq!(random_string(0), "");
    let s = random_string(40);
    assert_eq!(s.chars().count(), 40);
    assert!(s.chars().all(|c| c.is_ascii_alphanumeric()));
}

#[test]
fn settings_fill_defaults() {
    let s = no_params().settings();
    assert_eq!((s.length, s.width, s.height, s.complexity, s.compression), (5, 130, 40, 1, 99));
    let p = CaptchaParameter {
        length: Some(7),
        width: Some(200),
        height: Some(70),
        complexity: Some(3),
        compression: Some(50),
    };
    let s = p.settings();
    assert_eq!((s.length, s.width, s.height, s.complexity, s.compression), (7, 200, 70, 3, 50));
}

#[test]
fn built_captcha_shows_its_answer() {
    let c = no_params().build(String::from("abcde"));
    assert_eq!(c.text, "abcde");
    let long: String = "x".repeat(40);
    let c = no_params().build(long);
    assert_eq!(c.text, "x".repeat(32));
}

#[test]
fn built_captcha_without_answer_draws_its_own() {
    let p = CaptchaParameter { length: Some(50), ..no_params() };
    let c = p.build(String::new());
    assert_eq!(c.text.chars().count(), 32);
    let p = CaptchaParameter { length: Some(0), ..no_params() };
    let c = p.build(String::new());
    assert_eq!(c.text.chars().count(), 1);
}

#[test]
fn prepared_captcha_answer_matches_picture() {
    let p = prepare_captcha(&mut TokenIssuer::new(), &CaptchaParameter { length: Some(6), ..no_params() });
    assert!(is_uuid_text(&p.token));
    assert_eq!(p.answer.chars().count(), 6);
    assert_eq!(p.captcha.text, p.answer);
}

#[test]
fn issued_captcha_is_stored_and_checked_once() {
    let mut state = new_state();
    let r = generate_captcha_handler(&mut state, &no_params());
    assert!(is_uuid_text(&r.token));
    let answer = state.store.get(&r.token).expect("answer stored");
    assert_eq!(r.captcha, answer);
    assert_eq!(answer.chars().count(), 5);
    assert!(answer.chars().all(|c| c.is_ascii_alphanumeric()));
    let params = VerifyParams { token: r.token.clone(), value: answer.clone(), ignore_case: None };
    assert!(verify_captcha_handler(&mut state, &params));
    assert!(state.store.get(&r.token).is_none());
    assert!(!verify_captcha_handler(&mut state, &params));
}

#[test]
fn wrong_answer_fails_and_consumes_token() {
    let mut state = new_state();
    let r = generate_captcha_handler(&mut state, &CaptchaParameter { length: Some(4), ..no_params() });
    let answer = state.store.get(&r.token).unwrap();
    let wrong = format!("{}!", answer);
    let bad = VerifyParams { token: r.token.clone(), value: wrong, ignore_case: Some(true) };
    assert!(!verify_captcha_handler(&mut state, &bad));
    let good = VerifyParams { token: r.token.clone(), value: answer, ignore_case: None };
    assert!(!verify_captcha_handler(&mut state, &good));
}

#[test]
fn ignore_case_flag_selects_comparison() {
    let mut state = new_state();
    state.store.set(String::from("t1"), String::from("AbCd9"));
    let exact = VerifyParams { token: String::from("t1"), value: String::from("abcd9"), ignore_case: Some(false) };
    assert!(!verify_captcha_handler(&mut state, &exact));
    state.store.set(String::from("t1"), String::from("AbCd9"));
    let loose = VerifyParams { token: String::from("t1"), value: String::from("abcd9"), ignore_case: Some(true) };
    assert!(verify_captcha_handler(&mut state, &loose));
}

#[test]
fn unknown_token_fails() {
    let mut state = new_state();
    let p = VerifyParams { token: String::from("nope"), value: String::new(), ignore_case: None };
    assert!(!verify_captcha_handler(&mut state, &p));
}

#[test]
fn check_answer_cases() {
    let s = Some(String::from("Xy1"));
    assert!(check_answer(&s, &String::from("Xy1"), None));
    assert!(!check_answer(&s, &String::from("xy1"), None));
    assert!(check_answer(&s, &String::from("xY1"), Some(true)));
    assert!(!check_answer(&None, &String::from("Xy1"), Some(true)));
}

#[test]
fn image_captcha_is_png_and_stored() {
    let mut state = new_state();
    let img = captcha_image_handler(&mut state, &no_params()).expect("png");
    assert!(is_uuid_text(&img.token));
    assert_eq!(&img.png[..8], &[0x89, b'P', b'N', b'G', 0x0d, 0x0a, 0x1a, 0x0a]);
    assert_eq!(state.store.get(&img.token).unwrap().chars().count(), 5);
}

#[test]
fn redis_backend_is_not_built_in_memory() {
    let s = create_store(
        StoreConfig { backend: StoreBackend::Redis, url: String::from("redis://localhost:6379") },
        CaptchaConfig { expire_seconds: 120 },
    );
    assert!(s.is_none());
}

#[test]
fn store_set_get_remove() {
    let mut store = InMemoryStore::new(CaptchaConfig { expire_seconds: 60 });
    assert!(store.get("k").is_none());
    store.set(String::from("k"), String::from("v1"));
    store.set(String::from("k"), String::from("v2"));
    store.set(String::from("j"), String::from("w"));
    assert_eq!(store.get("k").as_deref(), Some("v2"));
    store.remove("k");
    assert!(store.get("k").is_none());
    assert_eq!(store.get("j").as_deref(), Some("w"));
}

#[test]
fn default_config() {
    let c = AppConfig::default();
    assert_eq!(c.server.host, "127.0.0.1");
    assert_eq!(c.server.port, 3000);
    assert_eq!(c.captcha.expire_seconds, 120);
    assert!(matches!(c.store.backend, StoreBackend::Memory));
    assert_eq!(c.store.url, "redis://localhost:6379");
}

#[test]
fn other_tokens_survive_issue_and_check() {
    let mut state = new_state();
    let a = generate_captcha_handler(&mut state, &no_params());
    let answer_a = state.store.get(&a.token).unwrap();
    let b = generate_captcha_handler(&mut state, &no_params());
    assert_ne!(a.token, b.token);
    assert_eq!(state.store.get(&a.token).unwrap(), answer_a);
    let answer_b = state.store.get(&b.token).unwrap();
    let check_b = VerifyParams { token: b.token.clone(), value: answer_b, ignore_case: None };
    assert!(verify_captcha_handler(&mut state, &check_b));
    assert_eq!(state.store.get(&a.token).unwrap(), answer_a);
    let check_a = VerifyParams { token: a.token.clone(), value: answer_a.to_lowercase(), ignore_case: Some(true) };
    assert!(verify_captcha_handler(&mut state, &check_a));
}

#[test]
fn empty_length_issues_empty_answer() {
    let mut state = new_state();
    let r = generate_captcha_handler(&mut state, &CaptchaParameter { length: Some(0), ..no_params() });
    assert_eq!(state.store.get(&r.token).unwrap(), "");
    let p = VerifyParams { token: r.token, value: String::new(), ignore_case: None };
    assert!(verify_captcha_handler(&mut state, &p));
}

#[test]
fn entry_weight_is_byte_length() {
    assert_eq!(capster::memory_store::entry_weight(&String::from("héllo")), 6);
    assert_eq!(capster::memory_store::entry_weight(&String::new()), 0);
}

#[test]
fn long_answer_is_cut_in_the_picture() {
    let p = prepare_captcha(&mut TokenIssuer::new(), &CaptchaParameter { length: Some(40), ..no_params() });
    assert_eq!(p.answer.chars().count(), 40);
    let shown: String = p.answer.chars().take(32).collect();
    assert_eq!(p.captcha.text, shown);
}

fn png_size(png: &[u8]) -> (u32, u32) {
    assert_eq!(&png[..8], &[0x89, b'P', b'N', b'G', 0x0d, 0x0a, 0x1a, 0x0a]);
    assert_eq!(&png[12..16], b"IHDR");
    let w = u32::from_be_bytes([png[16], png[17], png[18], png[19]]);
    let h = u32::from_be_bytes([png[20], png[21], png[22], png[23]]);
    (w, h)
}

#[test]
fn picture_has_the_asked_size() {
    let c = no_params().build(String::from("abcde"));
    assert_eq!((c.width, c.height), (130, 40));
    assert_eq!(png_size(&c.png), (130, 40));
    assert_eq!((c.png[24], c.png[25]), (8, 2));
    let p = CaptchaParameter { width: Some(200), height: Some(70), ..no_params() };
    let c = p.build(String::from("abc"));
    assert_eq!(png_size(&c.png), (200, 70));
    let p = CaptchaParameter { width: Some(5), height: Some(9000), ..no_params() };
    let c = p.build(String::from("abc"));
    assert_eq!((c.width, c.height), (30, 2000));
    assert_eq!(png_size(&c.png), (30, 2000));
}

#[test]
fn image_handler_picture_size() {
    let mut state = new_state();
    let p = CaptchaParameter { width: Some(150), height: Some(50), ..no_params() };
    let img = captcha_image_handler(&mut state, &p).unwrap();
    assert_eq!(png_size(&img.png), (150, 50));
    let decoded = image::load_from_memory(&img.png).unwrap();
    assert_eq!((decoded.width(), decoded.height()), (150, 50));
}

#[test]
fn tokens_increase() {
    let mut tokens = TokenIssuer::new();
    let mut last = tokens.issue();
    for _ in 0..50 {
        let t = tokens.issue();
        assert!(is_uuid_text(&t));
        assert!(t > last);
        last = t;
    }
}


#[test]
fn fresh_stores_share_nothing() {
    let config = || StoreConfig { backend: StoreBackend::Memory, url: String::new() };
    let mut s1 = create_store(config(), CaptchaConfig { expire_seconds: 60 }).unwrap();
    let s2 = create_store(config(), CaptchaConfig { expire_seconds: 60 }).unwrap();
    s1.set(String::from("k"), String::from("v"));
    assert_eq!(s1.get("k").as_deref(), Some("v"));
    assert!(s2.get("k").is_none());
}

#[test]
fn tokens_differ_across_states() {
    let mut a = new_state();
    let mut b = new_state();
    let t1 = generate_captcha_handler(&mut a, &no_params()).token;
    let t2 = generate_captcha_handler(&mut b, &no_params()).token;
    let t3 = generate_captcha_handler(&mut a, &no_params()).token;
    assert!(t1 < t2 && t2 < t3);
}
