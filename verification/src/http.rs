//! The requests that the library asks its caller to send, and the replies
//! that the caller hands back.

use crate::grant::{grant_type_name, GrantType};
use vstd::prelude::*;

verus! {

/// How a request is sent.
#[derive(Clone, Copy, Debug, PartialEq, Eq, Structural)]
pub enum Method {
    Get,
    Post,
}

/// A named text: a header of a request or a field of its form.
#[derive(Debug)]
pub struct Field {
    pub name: String,
    pub value: String,
}

impl View for Field {
    type V = (Seq<char>, Seq<char>);

    open spec fn view(&self) -> (Seq<char>, Seq<char>) {
        (self.name@, self.value@)
    }
}

/// One HTTP request, ready to be sent. A `Post` request carries the form
/// as its body, URL-encoded; a `Get` request has no body.
#[derive(Debug)]
pub struct Request {
    pub method: Method,
    pub url: String,
    pub headers: Vec<Field>,
    pub form: Vec<Field>,
}

/// The content of a [`Request`].
pub struct RequestView {
    pub method: Method,
    pub url: Seq<char>,
    pub headers: Seq<(Seq<char>, Seq<char>)>,
    pub form: Seq<(Seq<char>, Seq<char>)>,
}

/// The contents of a list of fields, in order.
pub open spec fn fields_view(fields: Seq<Field>) -> Seq<(Seq<char>, Seq<char>)> {
    Seq::new(fields.len(), |i: int| fields[i]@)
}

impl View for Request {
    type V = RequestView;

    open spec fn view(&self) -> RequestView {
        RequestView {
            method: self.method,
            url: self.url@,
            headers: fields_view(self.headers@),
            form: fields_view(self.form@),
        }
    }
}

/// What came of sending a request: the text of the response body, whatever
/// the status, or nothing when the exchange did not complete.
#[derive(Debug)]
pub enum Reply {
    Body(String),
    Failed,
}

impl View for Reply {
    type V = Option<Seq<char>>;

    open spec fn view(&self) -> Option<Seq<char>> {
        match self {
            Reply::Body(body) => Some(body@),
            Reply::Failed => None,
        }
    }
}

/// The name under which every request announces the client.
pub open spec fn user_agent() -> Seq<char> {
    "AkiaCode/balbalso"@
}

/// Where tokens are issued.
pub open spec fn token_endpoint() -> Seq<char> {
    "https://daldal.so/oauth/token"@
}

/// The address under which the resources stand.
pub open spec fn api_base() -> Seq<char> {
    "https://daldal.so/oauth/api/"@
}

/// True for the grant types whose request carries a code.
pub open spec fn takes_code(grant_type: GrantType) -> bool {
    grant_type == GrantType::AuthorizationCode || grant_type == GrantType::RefreshToken
}

/// The form of a token request: client id, client secret and grant type,
/// followed by the code when the caller gave one and the grant type takes
/// one.
pub open spec fn token_form(
    client_id: Seq<char>,
    client_secret: Seq<char>,
    grant_type: GrantType,
    code: Option<Seq<char>>,
) -> Seq<(Seq<char>, Seq<char>)> {
    let fixed = seq![
        ("client_id"@, client_id),
        ("client_secret"@, client_secret),
        ("grant_type"@, grant_type_name(grant_type)),
    ];
    match code {
        Some(code) => if takes_code(grant_type) {
            fixed.push(("code"@, code))
        } else {
            fixed
        },
        None => fixed,
    }
}

/// The request that asks the token endpoint for tokens.
pub open spec fn token_request_view(
    client_id: Seq<char>,
    client_secret: Seq<char>,
    grant_type: GrantType,
    code: Option<Seq<char>>,
) -> RequestView {
    RequestView {
        method: Method::Post,
        url: token_endpoint(),
        headers: seq![("User-Agent"@, user_agent())],
        form: token_form(client_id, client_secret, grant_type, code),
    }
}

/// The request that reads the resource `api` on behalf of the bearer of
/// `token`.
pub open spec fn api_request_view(api: Seq<char>, token: Seq<char>) -> RequestView {
    RequestView {
        method: Method::Get,
        url: api_base() + api,
        headers: seq![("Authorization"@, "Bearer "@ + token), ("User-Agent"@, user_agent())],
        form: Seq::empty(),
    }
}

fn field(name: &str, value: &str) -> (field: Field)
    ensures
        field@ == (name@, value@),
{
    Field { name: String::from_str(name), value: String::from_str(value) }
}

/// Builds the request of a token exchange.
///
/// The code is sent only for the grant types that take one, and only when
/// the caller gave one; it is sent as given.
pub fn token_request(
    client_id: &str,
    client_secret: &str,
    grant_type: GrantType,
    code: Option<&str>,
) -> (request: Request)
    ensures
        request@ == token_request_view(client_id@, client_secret@, grant_type, code.deep_view()),
{
    let mut form: Vec<Field> = Vec::new();
    form.push(field("client_id", client_id));
    form.push(field("client_secret", client_secret));
    form.push(field("grant_type", grant_type.to_string()));
    match grant_type {
        GrantType::AuthorizationCode | GrantType::RefreshToken => match code {
            Some(code) => { form.push(field("code", code)); },
            None => {},
        },
        GrantType::Flush => {},
    }
    let mut headers: Vec<Field> = Vec::new();
    headers.push(field("User-Agent", "AkiaCode/balbalso"));
    let request = Request {
        method: Method::Post,
        url: String::from_str("https://daldal.so/oauth/token"),
        headers,
        form,
    };
    proof {
        let wanted = token_request_view(client_id@, client_secret@, grant_type, code.deep_view());
        assert(request@.headers =~= wanted.headers);
        assert(request@.form =~= wanted.form);
    }
    request
}

/// Builds the request that reads the resource `api` with `token`.
pub fn request(api: &str, token: &str) -> (request: Request)
    ensures
        request@ == api_request_view(api@, token@),
{
    let mut url = String::from_str("https://daldal.so/oauth/api/");
    url.append(api);
    let mut bearer = String::from_str("Bearer ");
    bearer.append(token);
    let mut headers: Vec<Field> = Vec::new();
    headers.push(field("Authorization", bearer.as_str()));
    headers.push(field("User-Agent", "AkiaCode/balbalso"));
    let request = Request { method: Method::Get, url, headers, form: Vec::new() };
    proof {
        let wanted = api_request_view(api@, token@);
        assert(request@.headers =~= wanted.headers);
        assert(request@.form =~= wanted.form);
    }
    request
}

/// The value of the form field `name`: that of the first field so called.
pub open spec fn form_value(form: Seq<(Seq<char>, Seq<char>)>, name: Seq<char>) -> Option<
    Seq<char>,
>
    decreases form.len(),
{
    if form.len() == 0 {
        None
    } else if form[0].0 == name {
        Some(form[0].1)
    } else {
        form_value(form.skip(1), name)
    }
}

/// True when no two fields of a form have the same name.
pub open spec fn names_differ(form: Seq<(Seq<char>, Seq<char>)>) -> bool {
    forall|i: int, j: int|
        0 <= i < j < form.len() ==> (#[trigger] form[i]).0 != (#[trigger] form[j]).0
}

proof fn lemma_field_names()
    ensures
        "client_id"@.len() == 9,
        "client_secret"@.len() == 13,
        "grant_type"@.len() == 10,
        "code"@.len() == 4,
{
    reveal_strlit("client_id");
    reveal_strlit("client_secret");
    reveal_strlit("grant_type");
    reveal_strlit("code");
}

/// A token request never carries a code of its own making: its form holds
/// a field `code` exactly when the caller gave a code and the grant type
/// takes one, and the field then holds the caller's code as given. The
/// other three fields are always there, and no field occurs twice.
pub proof fn lemma_code_only_from_caller(
    client_id: Seq<char>,
    client_secret: Seq<char>,
    grant_type: GrantType,
    code: Option<Seq<char>>,
)
    ensures
        ({
            let form = token_form(client_id, client_secret, grant_type, code);
            &&& form_value(form, "code"@) == if takes_code(grant_type) {
                code
            } else {
                None
            }
            &&& form_value(form, "client_id"@) == Some(client_id)
            &&& form_value(form, "client_secret"@) == Some(client_secret)
            &&& form_value(form, "grant_type"@) == Some(grant_type_name(grant_type))
            &&& names_differ(form)
        }),
{
    lemma_field_names();
    reveal_with_fuel(form_value, 5);
    let form = token_form(client_id, client_secret, grant_type, code);
    // The reader walks the form field by field.
    let second = form.skip(1);
    let third = second.skip(1);
    let fourth = third.skip(1);
    assert(second[0] == form[1] && third[0] == form[2]);
    assert(form.len() == 4 ==> fourth[0] == form[3]);
}

} // verus!
