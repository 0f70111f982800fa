//! The authorization URL that starts the OAuth2 flow, and the proof that a
//! reader of that URL gets back what was put into it.

use crate::percent::{
    is_url_safe, lemma_percent_round_trip, percent_decoded, percent_encode, percent_encoded,
};
use crate::query::{
    lacks, lemma_lacks_concat, lemma_parameter_lacks, lemma_query_value_first,
    lemma_query_value_last, lemma_url_query, parameter, query_value, url_query,
};
use vstd::prelude::*;
use vstd::utf8::decode_utf8;

verus! {

/// Where the user's browser is sent to grant access.
pub open spec fn authorize_endpoint() -> Seq<char> {
    "https://daldal.so/oauth/authorize"@
}

/// The query of the authorization URL: the response type `code`, the client
/// id and the state as given, and the redirect URI percent-encoded.
pub open spec fn authorize_query(
    client_id: Seq<char>,
    state: Seq<char>,
    redirect_uri: Seq<char>,
) -> Seq<char> {
    let fourth = parameter("redirect_uri"@, percent_encoded(redirect_uri));
    let third = parameter("state"@, state) + seq!['&'] + fourth;
    let second = parameter("client_id"@, client_id) + seq!['&'] + third;
    parameter("response_type"@, "code"@) + seq!['&'] + second
}

/// The authorization URL for a client, a state token and a redirect URI.
pub open spec fn authorize_url(
    client_id: Seq<char>,
    state: Seq<char>,
    redirect_uri: Seq<char>,
) -> Seq<char> {
    authorize_endpoint() + seq!['?'] + authorize_query(client_id, state, redirect_uri)
}

/// Builds the URL that sends a user to the authorization page.
///
/// `client_id` and `state` are written as given; `redirect_url` is
/// percent-encoded.
pub fn oauth_url(client_id: &str, state: &str, redirect_url: &str) -> (url: String)
    ensures
        url@ == authorize_url(client_id@, state@, redirect_url@),
{
    let encoded = percent_encode(redirect_url);
    let mut url = String::from_str(
        "https://daldal.so/oauth/authorize?response_type=code&client_id=",
    );
    url.append(client_id);
    url.append("&state=");
    url.append(state);
    url.append("&redirect_uri=");
    url.append(encoded.as_str());
    proof {
        reveal_strlit("https://daldal.so/oauth/authorize?response_type=code&client_id=");
        reveal_strlit("https://daldal.so/oauth/authorize");
        reveal_strlit("response_type");
        reveal_strlit("code");
        reveal_strlit("client_id");
        reveal_strlit("&state=");
        reveal_strlit("state");
        reveal_strlit("&redirect_uri=");
        reveal_strlit("redirect_uri");
    }
    url
}

proof fn lemma_parameter_names()
    ensures
        is_url_safe("response_type"@),
        is_url_safe("client_id"@),
        is_url_safe("state"@),
        is_url_safe("redirect_uri"@),
        is_url_safe("code"@),
        "response_type"@.len() == 13,
        "client_id"@.len() == 9,
        "state"@.len() == 5,
        "redirect_uri"@.len() == 12,
        lacks(authorize_endpoint(), '?'),
        lacks(authorize_endpoint(), '#'),
{
    reveal_strlit("https://daldal.so/oauth/authorize");
    reveal_strlit("response_type");
    reveal_strlit("code");
    reveal_strlit("client_id");
    reveal_strlit("state");
    reveal_strlit("redirect_uri");
}

/// A reader of the authorization URL finds the four parameters that were
/// written: the response type `code`, the client id, the state, and a
/// redirect URI that percent-decodes to the one given. This holds whenever
/// the client id and the state contain neither `&` nor `#`, which would end
/// the parameter or the query early.
pub proof fn lemma_authorize_url_round_trip(
    client_id: Seq<char>,
    state: Seq<char>,
    redirect_uri: Seq<char>,
)
    requires
        lacks(client_id, '&'),
        lacks(client_id, '#'),
        lacks(state, '&'),
        lacks(state, '#'),
    ensures
        ({
            let query = url_query(authorize_url(client_id, state, redirect_uri));
            &&& query_value(query, "response_type"@) == Some("code"@)
            &&& query_value(query, "client_id"@) == Some(client_id)
            &&& query_value(query, "state"@) == Some(state)
            &&& query_value(query, "redirect_uri"@) == Some(percent_encoded(redirect_uri))
            &&& decode_utf8(percent_decoded(percent_encoded(redirect_uri))) == redirect_uri
        }),
{
    let encoded = percent_encoded(redirect_uri);
    let fourth = parameter("redirect_uri"@, encoded);
    let third = parameter("state"@, state) + seq!['&'] + fourth;
    let second = parameter("client_id"@, client_id) + seq!['&'] + third;
    let query = authorize_query(client_id, state, redirect_uri);
    lemma_parameter_names();
    lemma_percent_round_trip(redirect_uri);
    lemma_query_lacks_fragment(client_id, state, redirect_uri);
    lemma_url_query(authorize_endpoint(), query);
    lemma_query_values(query, second, third, fourth, client_id, state, encoded, "response_type"@);
    lemma_query_values(query, second, third, fourth, client_id, state, encoded, "client_id"@);
    lemma_query_values(query, second, third, fourth, client_id, state, encoded, "state"@);
    lemma_query_values(query, second, third, fourth, client_id, state, encoded, "redirect_uri"@);
}

proof fn lemma_query_lacks_fragment(
    client_id: Seq<char>,
    state: Seq<char>,
    redirect_uri: Seq<char>,
)
    requires
        lacks(client_id, '#'),
        lacks(state, '#'),
    ensures
        lacks(authorize_query(client_id, state, redirect_uri), '#'),
{
    let encoded = percent_encoded(redirect_uri);
    let first = parameter("response_type"@, "code"@);
    let second = parameter("client_id"@, client_id);
    let third = parameter("state"@, state);
    let fourth = parameter("redirect_uri"@, encoded);
    let and = seq!['&'];
    lemma_parameter_names();
    lemma_percent_round_trip(redirect_uri);
    lemma_parameter_lacks("response_type"@, "code"@, '#');
    lemma_parameter_lacks("client_id"@, client_id, '#');
    lemma_parameter_lacks("state"@, state, '#');
    lemma_parameter_lacks("redirect_uri"@, encoded, '#');
    lemma_lacks_concat(third, and, '#');
    lemma_lacks_concat(third + and, fourth, '#');
    lemma_lacks_concat(second, and, '#');
    lemma_lacks_concat(second + and, third + and + fourth, '#');
    lemma_lacks_concat(first, and, '#');
    lemma_lacks_concat(first + and, second + and + (third + and + fourth), '#');
}

proof fn lemma_query_values(
    query: Seq<char>,
    second: Seq<char>,
    third: Seq<char>,
    fourth: Seq<char>,
    client_id: Seq<char>,
    state: Seq<char>,
    encoded: Seq<char>,
    wanted: Seq<char>,
)
    requires
        lacks(client_id, '&'),
        lacks(state, '&'),
        is_url_safe(encoded),
        lacks(wanted, '='),
        fourth == parameter("redirect_uri"@, encoded),
        third == parameter("state"@, state) + seq!['&'] + fourth,
        second == parameter("client_id"@, client_id) + seq!['&'] + third,
        query == parameter("response_type"@, "code"@) + seq!['&'] + second,
    ensures
        query_value(query, wanted) == if wanted == "response_type"@ {
            Some("code"@)
        } else if wanted == "client_id"@ {
            Some(client_id)
        } else if wanted == "state"@ {
            Some(state)
        } else if wanted == "redirect_uri"@ {
            Some(encoded)
        } else {
            None
        },
{
    lemma_parameter_names();
    lemma_query_value_first("response_type"@, "code"@, second, wanted);
    lemma_query_value_first("client_id"@, client_id, third, wanted);
    lemma_query_value_first("state"@, state, fourth, wanted);
    lemma_query_value_last("redirect_uri"@, encoded, wanted);
}

} // verus!
