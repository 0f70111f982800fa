use daldalso::{GrantType, TokenErrors};

#[test]
fn grant_types_have_their_wire_names() {
    assert_eq!(GrantType::AuthorizationCode.to_string(), "authorization_code");
    assert_eq!(GrantType::RefreshToken.to_string(), "refresh_token");
    assert_eq!(GrantType::Flush.to_string(), "flush");
}

#[test]
fn refusals_have_their_messages() {
    assert_eq!(TokenErrors::Code.to_string(), "허가 토큰이 올바르지 않습니다.");
    assert_eq!(TokenErrors::RefreshToken.to_string(), "갱신 토큰이 올바르지 않습니다.");
    assert_eq!(TokenErrors::GrantType.to_string(), "grant_type이 올바르지 않습니다.");
}

#[test]
fn refusals_are_read_from_their_wire_names() {
    assert_eq!(TokenErrors::from_name("code"), Some(TokenErrors::Code));
    assert_eq!(TokenErrors::from_name("refresh_token"), Some(TokenErrors::RefreshToken));
    assert_eq!(TokenErrors::from_name("grant_type"), Some(TokenErrors::GrantType));
}

#[test]
fn refusals_are_read_from_their_own_names() {
    assert_eq!(TokenErrors::from_name("Code"), Some(TokenErrors::Code));
    assert_eq!(TokenErrors::from_name("RefreshToken"), Some(TokenErrors::RefreshToken));
    assert_eq!(TokenErrors::from_name("GrantType"), Some(TokenErrors::GrantType));
}

#[test]
fn other_names_are_no_refusal() {
    assert_eq!(TokenErrors::from_name(""), None);
    assert_eq!(TokenErrors::from_name("CODE"), None);
    assert_eq!(TokenErrors::from_name("code "), None);
    assert_eq!(TokenErrors::from_name("cod"), None);
    assert_eq!(TokenErrors::from_name("refresh-token"), None);
    assert_eq!(TokenErrors::from_name("flush"), None);
}
