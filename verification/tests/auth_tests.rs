use nearbyshare::auth::{generate_token, get_token, hash_token, set_token, verify_token};
use nearbyshare::state::AppState;

fn state() -> AppState {
    AppState::with_identity("dev".to_string(), "host".to_string())
}

#[test]
fn hash_token_is_sha256_hex() {
    assert_eq!(
        hash_token("hello"),
        "2cf24dba5fb0a30e26e83b2ac5b9e29e1b161e5c1fa7425e73043362938b9824"
    );
    assert_eq!(
        hash_token(""),
        "e3b0c44298fc1c149afbf4c8996fb92427ae41e4649b934ca495991b7852b855"
    );
    assert_eq!(hash_token("abc").len(), 64);
}

#[test]
fn set_then_verify_token() {
    let mut s = state();
    assert_eq!(set_token("secret".to_string(), &mut s), Ok(()));
    assert_eq!(get_token(&s), Ok(Some("secret".to_string())));
    assert_eq!(verify_token("secret", &s), Ok(true));
    assert_eq!(verify_token("other", &s), Ok(false));
}

#[test]
fn empty_token_is_refused() {
    let mut s = state();
    set_token("keep".to_string(), &mut s).unwrap();
    assert_eq!(
        set_token(String::new(), &mut s),
        Err("Token cannot be empty".to_string())
    );
    assert_eq!(get_token(&s), Ok(Some("keep".to_string())));
}

#[test]
fn no_token_verifies_nothing() {
    let s = state();
    assert_eq!(get_token(&s), Ok(None));
    assert_eq!(verify_token("", &s), Ok(false));
    assert_eq!(verify_token("x", &s), Ok(false));
}

#[test]
fn generated_token_is_stored_uuid() {
    let mut s = state();
    let t = generate_token(&mut s).unwrap();
    assert_eq!(t.len(), 36);
    assert_eq!(t.chars().nth(14), Some('4'));
    assert_eq!(get_token(&s), Ok(Some(t.clone())));
    assert_eq!(verify_token(&t, &s), Ok(true));
    let t2 = generate_token(&mut s).unwrap();
    assert_ne!(t, t2);
}

#[test]
fn verify_is_symmetric() {
    let mut a = state();
    let mut b = state();
    set_token("one".to_string(), &mut a).unwrap();
    set_token("two".to_string(), &mut b).unwrap();
    assert_eq!(verify_token("two", &a), verify_token("one", &b));
    set_token("one".to_string(), &mut b).unwrap();
    assert_eq!(verify_token("one", &a), verify_token("one", &b));
}
