use krfx::auth::{
    hash_password, login_lookup, login_outcome, new_user, signup_check, signup_lookup_key,
    token_cookie,
};
use krfx::clock::timestamp;
use krfx::types::{session_user, JwtPayload, SESSION_MILLIS};

#[test]
fn hash_password_is_sha256_hex_of_password_and_salt() {
    // SHA-256("abc")
    assert_eq!(
        hash_password("ab", "c"),
        "ba7816bf8f01cfea414140de5dae2223b00361a396177a9cb410ff61f20015ad"
    );
    // SHA-256("")
    assert_eq!(
        hash_password("", ""),
        "e3b0c44298fc1c149afbf4c8996fb92427ae41e4649b934ca495991b7852b855"
    );
    assert_eq!(hash_password("pässwörd", "salt").len(), 64);
}

#[test]
fn login_lookup_lowercases_username_and_hashes_password() {
    let q = login_lookup("Alice", "ab", "c");
    assert_eq!(q.username, "alice");
    assert_eq!(q.password_hash, "ba7816bf8f01cfea414140de5dae2223b00361a396177a9cb410ff61f20015ad");
}

#[test]
fn login_outcome_cases() {
    assert_eq!(login_outcome(Some(42)).unwrap(), 42);
    let e = login_outcome(None).unwrap_err();
    assert_eq!(e.status, 400);
    assert_eq!(e.message, "Password or username are incorrect");
}

#[test]
fn signup_checks_and_new_user() {
    assert_eq!(signup_lookup_key("BoB"), "bob");
    assert!(signup_check(false).is_ok());
    let e = signup_check(true).unwrap_err();
    assert_eq!(e.status, 400);
    assert_eq!(e.message, "Username already exists");
    let u = new_user("BoB", "pw", "salt");
    assert_eq!(u.username, "bob");
    assert_eq!(u.display_name, "BoB");
    assert_eq!(u.password_hash, hash_password("pw", "salt"));
}

#[test]
fn login_finds_signed_up_user_under_other_case() {
    let stored = new_user("CamelCase", "secret", "pepper");
    let q = login_lookup("camelcase", "secret", "pepper");
    assert_eq!(q.username, stored.username);
    assert_eq!(q.password_hash, stored.password_hash);
    let wrong = login_lookup("camelcase", "Secret", "pepper");
    assert_ne!(wrong.password_hash, stored.password_hash);
}

#[test]
fn token_cookie_attributes() {
    let c = token_cookie("abc.def.ghi".to_string());
    assert_eq!(c.name, "token");
    assert_eq!(c.value, "abc.def.ghi");
    assert!(c.secure);
    assert!(c.http_only);
    assert_eq!(c.path.as_deref(), Some("/api"));
}

#[test]
fn jwt_payload_issue() {
    let p = JwtPayload::issue(7, 1_000, 1_000);
    assert_eq!(p.user_id, 7);
    assert_eq!(p.iat, 1_000);
    assert_eq!(p.iss, "krfx-web-rust");
    assert_eq!(p.exp, 1_000 + 7 * 24 * 60 * 60 * 1000);
    assert_eq!(SESSION_MILLIS, 604_800_000);
    let q = JwtPayload::issue(1, 5, 6);
    assert_eq!(q.iat, 5);
    assert_eq!(q.exp, 6 + SESSION_MILLIS);
}

#[test]
fn jwt_payload_expiry_wraps() {
    let p = JwtPayload::issue(1, usize::MAX, usize::MAX);
    assert_eq!(p.exp, SESSION_MILLIS - 1);
}

#[test]
fn session_user_reads_claims() {
    assert_eq!(session_user(Some(JwtPayload::issue(99, 0, 0))), Some(99));
    assert_eq!(session_user(None), None);
}

#[test]
fn timestamp_is_after_2024() {
    let t = timestamp().unwrap();
    assert!(t as u128 > 1_704_067_200_000u128 || usize::BITS < 64);
}

#[test]
fn millis_as_timestamp_cuts_to_usize() {
    assert_eq!(krfx::clock::millis_as_timestamp(None), None);
    assert_eq!(krfx::clock::millis_as_timestamp(Some(1_700_000_000_123)), Some(1_700_000_000_123u128 as usize));
    assert_eq!(krfx::clock::millis_as_timestamp(Some(u128::MAX)), Some(usize::MAX));
}
