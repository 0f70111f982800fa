use daldalso::{
    begin_authorization, callback_page, callback_request, get_oauth_token,
    granted_access_token, greet, me, profile_request, ClientError, Method, PendingFlows, Reply,
    TokenErrors,
};

const ALICE: &str = r#"{"key":"abc","name":"Alice","account":"alice1","libra":{"level":1,"prev":0,"next":100},"foveon":5,"profile":{"image":"u","text":"hi"}}"#;

fn body(text: &str) -> Reply {
    Reply::Body(text.to_string())
}

fn store_with(state: &str, issued_at: u64) -> PendingFlows {
    let mut pending = PendingFlows::new(600);
    assert!(pending.begin(state, issued_at));
    pending
}

#[test]
fn an_authorization_enters_its_state_and_gives_the_url() {
    let mut pending = PendingFlows::new(600);
    let url = begin_authorization(&mut pending, 1000, "abc", "s3cret", "http://localhost:8000/oauth");
    assert_eq!(
        url,
        Some(
            "https://daldal.so/oauth/authorize?response_type=code&client_id=abc&state=s3cret&redirect_uri=http%3A%2F%2Flocalhost%3A8000%2Foauth"
                .to_string()
        )
    );
    assert!(callback_request(&mut pending, 1001, "s3cret", "c0de", "abc", "secret").is_ok());
}

#[test]
fn an_authorization_with_a_pending_state_starts_nothing() {
    let mut pending = store_with("s3cret", 1000);
    assert_eq!(begin_authorization(&mut pending, 1200, "abc", "s3cret", "r"), None);
    // The first entry stands with its own time: it lapses 600 after 1000.
    let step = callback_request(&mut pending, 1601, "s3cret", "c0de", "abc", "secret");
    assert_eq!(step.err(), Some(ClientError::StateMismatch));
}

#[test]
fn a_callback_with_the_expected_state_exchanges_its_code() {
    let mut pending = store_with("s3cret", 1000);
    let request = callback_request(&mut pending, 1010, "s3cret", "c0de", "id", "secret").unwrap();
    assert_eq!(request.method, Method::Post);
    assert_eq!(request.url, "https://daldal.so/oauth/token");
    let form: Vec<(&str, &str)> =
        request.form.iter().map(|f| (f.name.as_str(), f.value.as_str())).collect();
    assert_eq!(
        form,
        vec![
            ("client_id", "id"),
            ("client_secret", "secret"),
            ("grant_type", "authorization_code"),
            ("code", "c0de"),
        ]
    );
}

#[test]
fn a_callback_with_another_state_is_turned_away() {
    for state in ["", "s3cre", "s3cret ", "S3CRET", "s3cre7", "허가"] {
        let mut pending = store_with("s3cret", 1000);
        let step = callback_request(&mut pending, 1010, state, "c0de", "id", "secret");
        assert_eq!(step.err(), Some(ClientError::StateMismatch));
        // The pending state was not touched.
        assert!(callback_request(&mut pending, 1010, "s3cret", "c0de", "id", "secret").is_ok());
    }
}

#[test]
fn a_callback_without_any_pending_state_is_turned_away() {
    let mut pending = PendingFlows::new(600);
    let step = callback_request(&mut pending, 0, "s3cret", "c0de", "id", "secret");
    assert_eq!(step.err(), Some(ClientError::StateMismatch));
}

#[test]
fn a_state_is_good_for_one_callback() {
    let mut pending = store_with("s3cret", 1000);
    assert!(callback_request(&mut pending, 1010, "s3cret", "c0de", "id", "secret").is_ok());
    let again = callback_request(&mut pending, 1011, "s3cret", "c0de", "id", "secret");
    assert_eq!(again.err(), Some(ClientError::StateMismatch));
}

#[test]
fn a_lapsed_state_is_turned_away() {
    let mut pending = store_with("s3cret", 1000);
    let step = callback_request(&mut pending, 1601, "s3cret", "c0de", "id", "secret");
    assert_eq!(step.err(), Some(ClientError::StateMismatch));
}

#[test]
fn non_ascii_states_are_compared_in_full() {
    let mut pending = store_with("허가 토큰", 5);
    let step = callback_request(&mut pending, 5, "허가 토근", "c", "id", "secret");
    assert_eq!(step.err(), Some(ClientError::StateMismatch));
    assert!(callback_request(&mut pending, 5, "허가 토큰", "c", "id", "secret").is_ok());
}

#[test]
fn a_granted_token_leads_to_the_request_for_the_user() {
    let request = profile_request(&body(r#"{"access_token":"at","token_type":"Bearer"}"#)).unwrap();
    assert_eq!(request.method, Method::Get);
    assert_eq!(request.url, "https://daldal.so/oauth/api/me");
    assert_eq!(request.headers[0].name, "Authorization");
    assert_eq!(request.headers[0].value, "Bearer at");
}

#[test]
fn a_refusal_grants_no_token() {
    let token = get_oauth_token(&body(r#"{"access_token":"at","error":"code"}"#)).unwrap();
    assert_eq!(granted_access_token(&token), Err(ClientError::Api(TokenErrors::Code)));
    let step = profile_request(&body(r#"{"access_token":"at","error":"refresh_token"}"#));
    assert_eq!(step.err(), Some(ClientError::Api(TokenErrors::RefreshToken)));
    let step = profile_request(&body(r#"{"error":"grant_type"}"#));
    assert_eq!(step.err(), Some(ClientError::Api(TokenErrors::GrantType)));
}

#[test]
fn a_response_without_an_access_token_grants_none() {
    let token = get_oauth_token(&body(r#"{"refresh_token":"rt"}"#)).unwrap();
    assert_eq!(granted_access_token(&token), Err(ClientError::MissingAccessToken));
    let step = profile_request(&body("{}"));
    assert_eq!(step.err(), Some(ClientError::MissingAccessToken));
}

#[test]
fn the_granted_token_is_the_access_token() {
    let token = get_oauth_token(&body(r#"{"access_token":"at","refresh_token":"rt"}"#)).unwrap();
    assert_eq!(granted_access_token(&token), Ok("at".to_string()));
}

#[test]
fn failures_of_the_token_exchange_stop_the_callback() {
    assert_eq!(profile_request(&Reply::Failed).err(), Some(ClientError::Transport));
    assert_eq!(profile_request(&body("oops")).err(), Some(ClientError::Parse));
    assert_eq!(profile_request(&body(r#"{"access_token":1}"#)).err(), Some(ClientError::Parse));
}

#[test]
fn the_callback_greets_the_user() {
    assert_eq!(callback_page(&body(ALICE)), Ok("Name: Alice, Account: alice1".to_string()));
    let user = me(&body(ALICE)).unwrap();
    assert_eq!(greet(&user), Ok("Name: Alice, Account: alice1".to_string()));
}

#[test]
fn a_user_without_name_or_account_is_not_greeted() {
    let nameless = r#"{"key":"k","account":"a","libra":{"level":1,"prev":0,"next":2},"foveon":0,"profile":{"image":"","text":""}}"#;
    let accountless = r#"{"key":"k","name":"n","libra":{"level":1,"prev":0,"next":2},"foveon":0,"profile":{"image":"","text":""}}"#;
    let neither = r#"{"key":"k","libra":{"level":1,"prev":0,"next":2},"foveon":0,"profile":{"image":"","text":""}}"#;
    assert_eq!(callback_page(&body(nameless)), Err(ClientError::MissingName));
    assert_eq!(callback_page(&body(accountless)), Err(ClientError::MissingAccount));
    assert_eq!(callback_page(&body(neither)), Err(ClientError::MissingName));
}

#[test]
fn failures_of_the_user_request_stop_the_callback() {
    assert_eq!(callback_page(&Reply::Failed), Err(ClientError::Transport));
    assert_eq!(callback_page(&body("[]")), Err(ClientError::Parse));
    assert_eq!(callback_page(&body("not json")), Err(ClientError::Parse));
}
