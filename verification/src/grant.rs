//! The grant types of the token endpoint and the refusals it reports.

use crate::text::str_eq;
use vstd::prelude::*;

verus! {

/// The token-issuing flow that a token request selects.
#[derive(Clone, Copy, Debug, PartialEq, Eq, Structural)]
pub enum GrantType {
    AuthorizationCode,
    RefreshToken,
    Flush,
}

/// The value of the `grant_type` form field for each grant type.
pub open spec fn grant_type_name(grant_type: GrantType) -> Seq<char> {
    match grant_type {
        GrantType::AuthorizationCode => "authorization_code"@,
        GrantType::RefreshToken => "refresh_token"@,
        GrantType::Flush => "flush"@,
    }
}

impl GrantType {
    /// The wire name of this grant type.
    pub fn to_string(&self) -> (name: &'static str)
        ensures
            name@ == grant_type_name(*self),
    {
        match self {
            GrantType::AuthorizationCode => "authorization_code",
            GrantType::RefreshToken => "refresh_token",
            GrantType::Flush => "flush",
        }
    }
}

/// The reason the token endpoint gives when it refuses a request.
#[derive(Clone, Copy, Debug, PartialEq, Eq, Structural)]
pub enum TokenErrors {
    /// The authorization code is not valid.
    Code,
    /// The refresh token is not valid.
    RefreshToken,
    /// The grant type is not valid.
    GrantType,
}

/// The message shown to the user for each refusal.
pub open spec fn token_error_message(error: TokenErrors) -> Seq<char> {
    match error {
        TokenErrors::Code => "허가 토큰이 올바르지 않습니다."@,
        TokenErrors::RefreshToken => "갱신 토큰이 올바르지 않습니다."@,
        TokenErrors::GrantType => "grant_type이 올바르지 않습니다."@,
    }
}

/// The refusal that a value of the response's `error` field names. Each
/// refusal is known by its wire name and by its own name.
pub open spec fn token_error_named(name: Seq<char>) -> Option<TokenErrors> {
    if name == "code"@ || name == "Code"@ {
        Some(TokenErrors::Code)
    } else if name == "refresh_token"@ || name == "RefreshToken"@ {
        Some(TokenErrors::RefreshToken)
    } else if name == "grant_type"@ || name == "GrantType"@ {
        Some(TokenErrors::GrantType)
    } else {
        None
    }
}

impl TokenErrors {
    /// The user-facing message for this refusal.
    pub fn to_string(&self) -> (message: &'static str)
        ensures
            message@ == token_error_message(*self),
    {
        match self {
            TokenErrors::Code => "허가 토큰이 올바르지 않습니다.",
            TokenErrors::RefreshToken => "갱신 토큰이 올바르지 않습니다.",
            TokenErrors::GrantType => "grant_type이 올바르지 않습니다.",
        }
    }

    /// Reads a refusal from the text of the `error` field.
    pub fn from_name(name: &str) -> (error: Option<TokenErrors>)
        ensures
            error == token_error_named(name@),
    {
        if str_eq(name, "code") || str_eq(name, "Code") {
            Some(TokenErrors::Code)
        } else if str_eq(name, "refresh_token") || str_eq(name, "RefreshToken") {
            Some(TokenErrors::RefreshToken)
        } else if str_eq(name, "grant_type") || str_eq(name, "GrantType") {
            Some(TokenErrors::GrantType)
        } else {
            None
        }
    }
}

} // verus!
