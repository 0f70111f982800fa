use daldalso::oauth_url;

fn redirect_value(url: &str) -> &str {
    let mark = "&redirect_uri=";
    let at = url.rfind(mark).unwrap();
    &url[at + mark.len()..]
}

#[test]
fn authorize_url_is_written_out_in_full() {
    let url = oauth_url("abc", "1", "http://localhost:8000/oauth");
    assert_eq!(
        url,
        "https://daldal.so/oauth/authorize?response_type=code&client_id=abc&state=1&redirect_uri=http%3A%2F%2Flocalhost%3A8000%2Foauth"
    );
}

#[test]
fn authorize_url_with_empty_parts() {
    let url = oauth_url("", "", "");
    assert_eq!(
        url,
        "https://daldal.so/oauth/authorize?response_type=code&client_id=&state=&redirect_uri="
    );
}

#[test]
fn client_id_and_state_are_written_as_given() {
    let url = oauth_url("my client/1", "s t", "x");
    assert_eq!(
        url,
        "https://daldal.so/oauth/authorize?response_type=code&client_id=my client/1&state=s t&redirect_uri=x"
    );
}

#[test]
fn redirect_uri_is_percent_encoded() {
    let url = oauth_url("abc", "1", "https://example.com/cb?a=1&b=2#top");
    assert_eq!(
        redirect_value(&url),
        "https%3A%2F%2Fexample.com%2Fcb%3Fa%3D1%26b%3D2%23top"
    );
    assert_ne!(redirect_value(&url), "https://example.com/cb?a=1&b=2#top");
}

#[test]
fn unreserved_characters_are_not_encoded() {
    let plain = "AZaz09-._~";
    let url = oauth_url("abc", "1", plain);
    assert_eq!(redirect_value(&url), plain);
}

#[test]
fn every_other_ascii_character_is_escaped_in_upper_case_hex() {
    let url = oauth_url("abc", "1", " !\"%+/:<>@[]{}|\\^`\u{7f}\n");
    assert_eq!(
        redirect_value(&url),
        "%20%21%22%25%2B%2F%3A%3C%3E%40%5B%5D%7B%7D%7C%5C%5E%60%7F%0A"
    );
}

#[test]
fn non_ascii_text_is_escaped_byte_by_byte() {
    let url = oauth_url("abc", "1", "\u{1F47E} 달");
    assert_eq!(redirect_value(&url), "%F0%9F%91%BE%20%EB%8B%AC");
}

#[test]
fn redirect_uri_round_trips_through_percent_decoding() {
    let inputs = [
        "http://localhost:8000/oauth",
        "https://example.com/cb?a=1&b=2#top",
        "",
        "AZaz09-._~",
        "100% sure",
        "%41",
        "\u{1F47E} Exterminate!",
        "허가 토큰",
        "a&redirect_uri=b",
    ];
    for input in inputs {
        let url = oauth_url("client", "state-1", input);
        let value = redirect_value(&url);
        assert!(!value.contains('&'));
        assert!(!value.contains('#'));
        assert!(!value.contains('='));
        assert!(!value.contains('?'));
        let decoded = urlencoding::decode(value).unwrap();
        assert_eq!(decoded, input);
    }
}

#[test]
fn the_url_starts_with_the_fixed_query() {
    let url = oauth_url("c", "s", "r");
    assert!(url.starts_with("https://daldal.so/oauth/authorize?response_type=code&client_id=c&state=s&"));
}
