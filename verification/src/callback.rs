//! The decisions of the two handlers of an authorization. One sends the
//! user to the authorization page. The other takes the callback: it checks
//! the state, exchanges the code for tokens, fetches the user and greets
//! them. Between the steps the caller sends the request it was given and
//! hands back the reply.

use crate::api::{get_oauth_token, me, me_outcome, me_request, token_outcome};
use crate::authorize::{authorize_url, oauth_url};
use crate::error::ClientError;
use crate::grant::GrantType;
use crate::http::{
    api_request_view, token_request, token_request_view, Reply, Request, RequestView,
};
use crate::pending::{accepts, PendingFlows};
use crate::records::{MeResponse, MeView};
use crate::token::{OauthResponse, TokenView};
use vstd::prelude::*;

verus! {

/// The access token that a token response grants. A refusal grants none,
/// whatever its token fields hold.
pub open spec fn granted_token(token: TokenView) -> Result<Seq<char>, ClientError> {
    match token.error {
        Some(refusal) => Err(ClientError::Api(refusal)),
        None => match token.access_token {
            Some(access_token) => Ok(access_token),
            None => Err(ClientError::MissingAccessToken),
        },
    }
}

/// The second step: the reply to the token request leads to the request
/// for the user, made with the access token that was granted.
pub open spec fn profile_request_view(token_reply: Option<Seq<char>>) -> Result<
    RequestView,
    ClientError,
> {
    match token_outcome(token_reply) {
        Ok(token) => match granted_token(token) {
            Ok(access_token) => Ok(api_request_view("me"@, access_token)),
            Err(error) => Err(error),
        },
        Err(error) => Err(error),
    }
}

/// The line that greets a user by display name and account.
pub open spec fn greeting(me: MeView) -> Result<Seq<char>, ClientError> {
    match me.name {
        Some(name) => match me.account {
            Some(account) => Ok("Name: "@ + name + ", Account: "@ + account),
            None => Err(ClientError::MissingAccount),
        },
        None => Err(ClientError::MissingName),
    }
}

/// The last step: the reply to the request for the user leads to the
/// greeting.
pub open spec fn callback_page_view(profile_reply: Option<Seq<char>>) -> Result<
    Seq<char>,
    ClientError,
> {
    match me_outcome(profile_reply) {
        Ok(me) => greeting(me),
        Err(error) => Err(error),
    }
}

/// Starts an authorization: enters `state` into the store and gives the
/// URL to send the user to. A state that is already pending starts
/// nothing.
pub fn begin_authorization(
    pending: &mut PendingFlows,
    now: u64,
    client_id: &str,
    state: &str,
    redirect_url: &str,
) -> (url: Option<String>)
    ensures
        url is Some == !old(pending)@.contains_key(state@),
        final(pending)@ == if url is Some {
            old(pending)@.insert(state@, now)
        } else {
            old(pending)@
        },
        final(pending).lifetime() == old(pending).lifetime(),
        url matches Some(text) ==> text@ == authorize_url(client_id@, state@, redirect_url@),
{
    if pending.begin(state, now) {
        Some(oauth_url(client_id, state, redirect_url))
    } else {
        None
    }
}

/// Decides what to do with a callback that carries `state` and `code` at
/// `now`.
///
/// The state is taken out of the store, so it is good for this callback
/// only. When it was pending and still good, the result is the token
/// request for the code; otherwise it is `StateMismatch`.
pub fn callback_request(
    pending: &mut PendingFlows,
    now: u64,
    state: &str,
    code: &str,
    client_id: &str,
    client_secret: &str,
) -> (step: Result<Request, ClientError>)
    ensures
        final(pending)@ == old(pending)@.remove(state@),
        final(pending).lifetime() == old(pending).lifetime(),
        match step {
            Ok(request) => accepts(old(pending)@, old(pending).lifetime(), state@, now)
                && request@ == token_request_view(
                client_id@,
                client_secret@,
                GrantType::AuthorizationCode,
                Some(code@),
            ),
            Err(error) => !accepts(old(pending)@, old(pending).lifetime(), state@, now) && error
                == ClientError::StateMismatch,
        },
{
    if pending.consume(state, now) {
        Ok(token_request(client_id, client_secret, GrantType::AuthorizationCode, Some(code)))
    } else {
        Err(ClientError::StateMismatch)
    }
}

/// Takes the access token out of a token response, after checking that the
/// response is no refusal.
pub fn granted_access_token(token: &OauthResponse) -> (granted: Result<String, ClientError>)
    ensures
        match granted {
            Ok(access_token) => granted_token(token@) == Ok::<Seq<char>, ClientError>(
                access_token@,
            ),
            Err(error) => granted_token(token@) == Err::<Seq<char>, ClientError>(error),
        },
{
    match token.error() {
        Some(refusal) => Err(ClientError::Api(refusal)),
        None => match token.access_token() {
            Some(access_token) => Ok(access_token),
            None => Err(ClientError::MissingAccessToken),
        },
    }
}

/// Decides what follows the reply to the token request: the request for
/// the user, or the reason to stop.
pub fn profile_request(token_reply: &Reply) -> (step: Result<Request, ClientError>)
    ensures
        match step {
            Ok(request) => profile_request_view(token_reply@) == Ok::<RequestView, ClientError>(
                request@,
            ),
            Err(error) => profile_request_view(token_reply@) == Err::<RequestView, ClientError>(
                error,
            ),
        },
{
    let token = match get_oauth_token(token_reply) {
        Ok(token) => token,
        Err(error) => { return Err(error); },
    };
    match granted_access_token(&token) {
        Ok(access_token) => Ok(me_request(access_token.as_str())),
        Err(error) => Err(error),
    }
}

/// Writes the greeting for a user who has a display name and an account.
pub fn greet(me: &MeResponse) -> (line: Result<String, ClientError>)
    ensures
        match line {
            Ok(text) => greeting(me@) == Ok::<Seq<char>, ClientError>(text@),
            Err(error) => greeting(me@) == Err::<Seq<char>, ClientError>(error),
        },
{
    let name = match me.name() {
        Some(name) => name,
        None => { return Err(ClientError::MissingName); },
    };
    let account = match me.account() {
        Some(account) => account,
        None => { return Err(ClientError::MissingAccount); },
    };
    let mut line = String::from_str("Name: ");
    line.append(name.as_str());
    line.append(", Account: ");
    line.append(account.as_str());
    Ok(line)
}

/// Decides what the callback answers, from the reply to the request for
/// the user: the greeting, or the reason there is none.
pub fn callback_page(profile_reply: &Reply) -> (page: Result<String, ClientError>)
    ensures
        match page {
            Ok(text) => callback_page_view(profile_reply@) == Ok::<Seq<char>, ClientError>(text@),
            Err(error) => callback_page_view(profile_reply@) == Err::<Seq<char>, ClientError>(
                error,
            ),
        },
{
    match me(profile_reply) {
        Ok(me) => greet(&me),
        Err(error) => Err(error),
    }
}

/// The token fields of a refusal are never used: whenever the reply to the
/// token request holds a response with `error` set, the callback stops with
/// that refusal, whatever else the response holds.
pub proof fn lemma_refusal_stops_callback(token_reply: Reply)
    ensures
        match token_outcome(token_reply@) {
            Ok(token) => match token.error {
                Some(refusal) => profile_request_view(token_reply@) == Err::<
                    RequestView,
                    ClientError,
                >(ClientError::Api(refusal)),
                None => true,
            },
            Err(_) => true,
        },
{
}

/// An exchange that did not complete stops the callback with a transport
/// error at either step, and nothing else does.
pub proof fn lemma_failed_exchange_stops_callback(reply: Reply)
    ensures
        profile_request_view(reply@) == Err::<RequestView, ClientError>(ClientError::Transport)
            <==> reply is Failed,
        callback_page_view(reply@) == Err::<Seq<char>, ClientError>(ClientError::Transport)
            <==> reply is Failed,
{
}

} // verus!
