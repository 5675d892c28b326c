use base64::Engine;
use fcm_push::pkce::generate_code_challenge;
use fcm_push::pkce::generate_code_verifier;
use fcm_push::pkce::generate_state;
use fcm_push::pkce::PkceParameters;
use sha2::Digest;

#[test]
fn test_code_verifier_length() {
    let verifier = generate_code_verifier();
    // 64 bytes -> 86 chars in base64url
    assert!(verifier.len() >= 43 && verifier.len() <= 128);
}

#[test]
fn test_code_challenge() {
    let verifier = generate_code_verifier();
    let challenge = generate_code_challenge(&verifier);
    // SHA256 hash -> 32 bytes -> 43 chars in base64url
    assert_eq!(challenge.len(), 43);
}

#[test]
fn test_state() {
    let state = generate_state();
    // 24 bytes -> 32 chars in base64url
    assert_eq!(state.len(), 32);
}

fn is_base64url(s: &str) -> bool {
    s.chars().all(|c| c.is_ascii_alphanumeric() || c == '-' || c == '_')
}

#[test]
fn verifier_many_draws_in_bounds_and_url_safe() {
    for _ in 0..100 {
        let v = generate_code_verifier();
        assert_eq!(v.len(), 86);
        assert!(v.len() >= 43 && v.len() <= 128);
        assert!(is_base64url(&v));
    }
}

#[test]
fn challenge_deterministic_and_distinct() {
    let v1 = generate_code_verifier();
    let v2 = generate_code_verifier();
    assert_ne!(v1, v2);
    let c1a = generate_code_challenge(&v1);
    let c1b = generate_code_challenge(&v1);
    let c2 = generate_code_challenge(&v2);
    assert_eq!(c1a, c1b);
    assert_ne!(c1a, c2);
    assert!(is_base64url(&c1a));
}

#[test]
fn challenge_matches_rfc_7636_vector() {
    // Appendix B of RFC 7636.
    let verifier = "dBjftJeZ4CVP-mB92K27uhbUJU1p1r_wW1gFWFOEjXk";
    let challenge = generate_code_challenge(verifier);
    assert_eq!(challenge, "E9Melhoa2OwvFrEMTJguCHaoeK1t8URWbuGJSstw-cM");
    // Cross-check against a direct computation.
    let digest = sha2::Sha256::digest(verifier.as_bytes());
    let expected = base64::engine::general_purpose::URL_SAFE_NO_PAD.encode(digest);
    assert_eq!(challenge, expected);
}

#[test]
fn state_repeated_draws_distinct() {
    let mut seen: Vec<String> = Vec::new();
    for _ in 0..50 {
        let s = generate_state();
        assert_eq!(s.len(), 32);
        assert!(is_base64url(&s));
        assert!(!seen.contains(&s));
        seen.push(s);
    }
}

#[test]
fn generated_parameters_cohere() {
    let p = PkceParameters::generate();
    assert_eq!(p.verifier.len(), 86);
    assert_eq!(p.challenge, generate_code_challenge(&p.verifier));
    assert_eq!(p.state.len(), 32);
}
