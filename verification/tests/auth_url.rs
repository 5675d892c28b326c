use fcm_push::auth::build_auth_url;

#[test]
fn client_id_with_space_is_percent_encoded() {
    let url = build_auth_url("a b", "http://localhost:8080/callback", "STATE123", "CHALLENGE");
    assert!(url.contains("client_id=a%20b"));
    assert!(!url.contains(' '));
}

#[test]
fn url_carries_all_fixed_parameters() {
    let url = build_auth_url("client", "http://localhost:8080/callback", "STATE123", "CHALLENGE");
    assert!(url.starts_with("https://accounts.google.com/o/oauth2/v2/auth?client_id=client"));
    assert!(url.contains("&redirect_uri=http%3A%2F%2Flocalhost%3A8080%2Fcallback"));
    assert!(url.contains("&response_type=code"));
    assert!(url.contains(
        "&scope=https%3A%2F%2Fwww.googleapis.com%2Fauth%2Ffirebase.messaging"
    ));
    assert!(url.contains("&state=STATE123"));
    assert!(url.contains("&code_challenge=CHALLENGE"));
    assert!(url.contains("&code_challenge_method=S256"));
    assert!(url.contains("&access_type=offline"));
    assert!(url.contains("&prompt=consent"));
}

#[test]
fn values_with_reserved_characters_are_encoded_independently() {
    let url = build_auth_url("a&b=c", "https://x/y?z", "s+t", "c~d");
    assert!(url.contains("client_id=a%26b%3Dc"));
    assert!(url.contains("redirect_uri=https%3A%2F%2Fx%2Fy%3Fz"));
    assert!(url.contains("state=s%2Bt"));
    // `~` is unreserved and passes through.
    assert!(url.contains("code_challenge=c~d"));
}
