//! The operations of the API. Each has two halves around the exchange that
//! the caller performs: one builds the request, the other reads the reply.

use crate::error::ClientError;
use crate::http::{api_request_view, request, Reply, Request};
use crate::inventory::{entries_of, entries_view, InventoryResponse, InventoryView};
use crate::json::{json_view, parse_value, parsed_json, Json};
use crate::records::{me_of, MeResponse, MeView};
use crate::token::{token_of, OauthResponse, TokenView};
use vstd::prelude::*;

verus! {

/// The JSON document of a reply: a failed exchange is a transport error, a
/// body that is not one JSON document a parse error.
pub open spec fn json_outcome(reply: Option<Seq<char>>) -> Result<Json, ClientError> {
    match reply {
        None => Err(ClientError::Transport),
        Some(body) => match parsed_json(body) {
            Some(json) => Ok(json),
            None => Err(ClientError::Parse),
        },
    }
}

/// The token response of a reply. A document of another shape is a parse
/// error; a refusal is a response like any other.
pub open spec fn token_outcome(reply: Option<Seq<char>>) -> Result<TokenView, ClientError> {
    match json_outcome(reply) {
        Ok(json) => match token_of(json) {
            Some(token) => Ok(token),
            None => Err(ClientError::Parse),
        },
        Err(error) => Err(error),
    }
}

/// The user of a reply. A document of another shape is a parse error.
pub open spec fn me_outcome(reply: Option<Seq<char>>) -> Result<MeView, ClientError> {
    match json_outcome(reply) {
        Ok(json) => match me_of(json) {
            Some(me) => Ok(me),
            None => Err(ClientError::Parse),
        },
        Err(error) => Err(error),
    }
}

/// The inventory of a reply. A document of another shape is a parse error.
pub open spec fn inventory_outcome(reply: Option<Seq<char>>) -> Result<
    Seq<InventoryView>,
    ClientError,
> {
    match json_outcome(reply) {
        Ok(json) => match entries_of(json) {
            Some(entries) => Ok(entries),
            None => Err(ClientError::Parse),
        },
        Err(error) => Err(error),
    }
}

/// Reads the JSON document of a reply.
pub fn reply_json(reply: &Reply) -> (outcome: Result<serde_json::Value, ClientError>)
    ensures
        match outcome {
            Ok(value) => json_outcome(reply@) == Ok::<Json, ClientError>(json_view(value)),
            Err(error) => json_outcome(reply@) == Err::<Json, ClientError>(error),
        },
{
    match reply {
        Reply::Failed => Err(ClientError::Transport),
        Reply::Body(body) => match parse_value(body.as_str()) {
            Ok(value) => Ok(value),
            Err(_) => Err(ClientError::Parse),
        },
    }
}

/// Reads the reply to a token request.
///
/// A refusal by the endpoint is no error here: it comes back as a response
/// whose `error` is set, and whose token fields are not to be used.
pub fn get_oauth_token(reply: &Reply) -> (outcome: Result<OauthResponse, ClientError>)
    ensures
        match outcome {
            Ok(token) => token_outcome(reply@) == Ok::<TokenView, ClientError>(token@),
            Err(error) => token_outcome(reply@) == Err::<TokenView, ClientError>(error),
        },
{
    let value = match reply_json(reply) {
        Ok(value) => value,
        Err(error) => { return Err(error); },
    };
    match OauthResponse::from_json(&value) {
        Some(token) => Ok(token),
        None => Err(ClientError::Parse),
    }
}

/// The request for the user that `token` belongs to.
pub fn me_request(token: &str) -> (request: Request)
    ensures
        request@ == api_request_view("me"@, token@),
{
    request("me", token)
}

/// Reads the reply to [`me_request`].
pub fn me(reply: &Reply) -> (outcome: Result<MeResponse, ClientError>)
    ensures
        match outcome {
            Ok(me) => me_outcome(reply@) == Ok::<MeView, ClientError>(me@),
            Err(error) => me_outcome(reply@) == Err::<MeView, ClientError>(error),
        },
{
    let value = match reply_json(reply) {
        Ok(value) => value,
        Err(error) => { return Err(error); },
    };
    match MeResponse::from_json(&value) {
        Some(me) => Ok(me),
        None => Err(ClientError::Parse),
    }
}

/// The request for the inventory of the user that `token` belongs to. It
/// reads the same resource as [`me_request`].
pub fn inventory_request(token: &str) -> (request: Request)
    ensures
        request@ == api_request_view("me"@, token@),
{
    request("me", token)
}

/// Reads the reply to [`inventory_request`]: an array of entries.
pub fn inventory(reply: &Reply) -> (outcome: Result<Vec<InventoryResponse>, ClientError>)
    ensures
        match outcome {
            Ok(entries) => inventory_outcome(reply@) == Ok::<Seq<InventoryView>, ClientError>(
                entries_view(entries@),
            ),
            Err(error) => inventory_outcome(reply@) == Err::<Seq<InventoryView>, ClientError>(
                error,
            ),
        },
{
    let value = match reply_json(reply) {
        Ok(value) => value,
        Err(error) => { return Err(error); },
    };
    match InventoryResponse::list_from_json(&value) {
        Some(entries) => Ok(entries),
        None => Err(ClientError::Parse),
    }
}

/// The request for the resource `moon`.
pub fn moon_request(token: &str) -> (request: Request)
    ensures
        request@ == api_request_view("moon"@, token@),
{
    request("moon", token)
}

/// Reads the reply to [`moon_request`]: any JSON document.
pub fn moon(reply: &Reply) -> (outcome: Result<serde_json::Value, ClientError>)
    ensures
        match outcome {
            Ok(value) => json_outcome(reply@) == Ok::<Json, ClientError>(json_view(value)),
            Err(error) => json_outcome(reply@) == Err::<Json, ClientError>(error),
        },
{
    reply_json(reply)
}

/// The request for the resource `transceivosome`.
pub fn transceivosome_request(token: &str) -> (request: Request)
    ensures
        request@ == api_request_view("transceivosome"@, token@),
{
    request("transceivosome", token)
}

/// Reads the reply to [`transceivosome_request`]: any JSON document.
pub fn transceivosome(reply: &Reply) -> (outcome: Result<serde_json::Value, ClientError>)
    ensures
        match outcome {
            Ok(value) => json_outcome(reply@) == Ok::<Json, ClientError>(json_view(value)),
            Err(error) => json_outcome(reply@) == Err::<Json, ClientError>(error),
        },
{
    reply_json(reply)
}

/// An exchange that did not complete is a transport error for every
/// operation, never a result; and nothing else is a transport error: a
/// body, whatever it holds, gives a result or a parse error.
pub proof fn lemma_failed_exchange_is_transport_error(reply: Reply)
    ensures
        json_outcome(reply@) == Err::<Json, ClientError>(ClientError::Transport)
            <==> reply is Failed,
        token_outcome(reply@) == Err::<TokenView, ClientError>(ClientError::Transport)
            <==> reply is Failed,
        me_outcome(reply@) == Err::<MeView, ClientError>(ClientError::Transport)
            <==> reply is Failed,
        inventory_outcome(reply@) == Err::<Seq<InventoryView>, ClientError>(
            ClientError::Transport,
        ) <==> reply is Failed,
{
}

/// Reading a resource twice gives the same document twice when the server
/// answers the same: equal tokens give equal requests, and equal replies
/// give equal outcomes.
pub proof fn lemma_same_reply_same_document(
    first_token: Seq<char>,
    second_token: Seq<char>,
    first_reply: Reply,
    second_reply: Reply,
)
    requires
        first_token == second_token,
        first_reply@ == second_reply@,
    ensures
        api_request_view("moon"@, first_token) == api_request_view("moon"@, second_token),
        json_outcome(first_reply@) == json_outcome(second_reply@),
{
}

} // verus!
