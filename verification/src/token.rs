//! The token endpoint's response and how it is read from a JSON document.

use crate::grant::{token_error_named, TokenErrors};
use crate::json::{json_view, member, text_of, value_member, Json};
use crate::members::{
    optional_count, optional_count_member, optional_text, optional_text_member,
};
use crate::text::copy_text;
use vstd::prelude::*;

verus! {

/// What the token endpoint answers: tokens, or the reason for a refusal.
///
/// When `error` is present the request was refused, and the token fields
/// carry nothing that may be used.
pub struct OauthResponse {
    access_token: Option<String>,
    refresh_token: Option<String>,
    token_type: Option<String>,
    expires_in: Option<usize>,
    error: Option<TokenErrors>,
}

/// The content of an [`OauthResponse`].
pub struct TokenView {
    pub access_token: Option<Seq<char>>,
    pub refresh_token: Option<Seq<char>>,
    pub token_type: Option<Seq<char>>,
    pub expires_in: Option<usize>,
    pub error: Option<TokenErrors>,
}

impl View for OauthResponse {
    type V = TokenView;

    closed spec fn view(&self) -> TokenView {
        TokenView {
            access_token: self.access_token.deep_view(),
            refresh_token: self.refresh_token.deep_view(),
            token_type: self.token_type.deep_view(),
            expires_in: self.expires_in,
            error: self.error,
        }
    }
}

/// The refusal under the member `error`, which may be absent or `null` and
/// otherwise must be a string that names a refusal. The outer `None` stands
/// for a member of another kind or with an unknown name.
pub open spec fn optional_error(json: Json) -> Option<Option<TokenErrors>> {
    match member(json, "error"@) {
        None => Some(None),
        Some(Json::Null) => Some(None),
        Some(inner) => match text_of(inner) {
            Some(name) => match token_error_named(name) {
                Some(error) => Some(Some(error)),
                None => None,
            },
            None => None,
        },
    }
}

/// The response that a JSON object holds. Every member may be absent or
/// `null`: `access_token`, `refresh_token` and `token_type` are strings,
/// `expires_in` is a count, and `error` names a refusal. Other members are
/// ignored.
pub open spec fn token_of(json: Json) -> Option<TokenView> {
    if json is Object && optional_text(json, "access_token"@) is Some && optional_text(
        json,
        "refresh_token"@,
    ) is Some && optional_text(json, "token_type"@) is Some && optional_count(
        json,
        "expires_in"@,
    ) is Some && optional_error(json) is Some {
        Some(
            TokenView {
                access_token: optional_text(json, "access_token"@).unwrap(),
                refresh_token: optional_text(json, "refresh_token"@).unwrap(),
                token_type: optional_text(json, "token_type"@).unwrap(),
                expires_in: optional_count(json, "expires_in"@).unwrap(),
                error: optional_error(json).unwrap(),
            },
        )
    } else {
        None
    }
}

fn read_error(value: &serde_json::Value) -> (error: Option<Option<TokenErrors>>)
    ensures
        error == optional_error(json_view(*value)),
{
    match value_member(value, "error") {
        None => Some(None),
        Some(inner) => if inner.is_null() {
            Some(None)
        } else {
            match inner.as_str() {
                Some(name) => match TokenErrors::from_name(name) {
                    Some(error) => Some(Some(error)),
                    None => None,
                },
                None => None,
            }
        },
    }
}

impl OauthResponse {
    /// The access token, if the response holds one.
    pub fn access_token(&self) -> (access_token: Option<String>)
        ensures
            access_token.deep_view() == self@.access_token,
    {
        copy_text(&self.access_token)
    }

    /// The refresh token, if the response holds one.
    pub fn refresh_token(&self) -> (refresh_token: Option<String>)
        ensures
            refresh_token.deep_view() == self@.refresh_token,
    {
        copy_text(&self.refresh_token)
    }

    /// The type of the access token, if the response holds one.
    pub fn token_type(&self) -> (token_type: Option<String>)
        ensures
            token_type.deep_view() == self@.token_type,
    {
        copy_text(&self.token_type)
    }

    /// The lifetime of the access token in seconds.
    pub fn expires_in(&self) -> (expires_in: Option<usize>)
        ensures
            expires_in == self@.expires_in,
    {
        self.expires_in
    }

    /// The refusal, if the response is one.
    pub fn error(&self) -> (error: Option<TokenErrors>)
        ensures
            error == self@.error,
    {
        self.error
    }

    /// Reads a response from a JSON value, or gives `None` when the value
    /// does not have a response's shape.
    pub fn from_json(value: &serde_json::Value) -> (response: Option<OauthResponse>)
        ensures
            match response {
                Some(read) => token_of(json_view(*value)) == Some(read@),
                None => token_of(json_view(*value)) is None,
            },
    {
        if !value.is_object() {
            return None;
        }
        let access_token = match optional_text_member(value, "access_token") {
            Some(s) => s,
            None => { return None; },
        };
        let refresh_token = match optional_text_member(value, "refresh_token") {
            Some(s) => s,
            None => { return None; },
        };
        let token_type = match optional_text_member(value, "token_type") {
            Some(s) => s,
            None => { return None; },
        };
        let expires_in = match optional_count_member(value, "expires_in") {
            Some(n) => n,
            None => { return None; },
        };
        let error = match read_error(value) {
            Some(e) => e,
            None => { return None; },
        };
        Some(OauthResponse { access_token, refresh_token, token_type, expires_in, error })
    }
}

} // verus!
