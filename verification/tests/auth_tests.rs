use scanmap::auth::{
    authorize_url, exchange_url, parse_access_token, parse_login, profile_url, query_param,
    resume_action, resume_code, token_header, AuthDirective, AuthSession,
};

#[test]
fn code_is_found_in_the_search_string() {
    assert_eq!(resume_code("?code=abc123"), Some(String::from("abc123")));
    assert_eq!(resume_code("?code=abc123&state=x"), Some(String::from("abc123")));
    assert_eq!(resume_code("?state=x&code=abc123"), Some(String::from("abc123")));
    assert_eq!(resume_code("code=abc123"), Some(String::from("abc123")));
}

#[test]
fn consumed_or_absent_code_is_none() {
    assert_eq!(resume_code(""), None);
    assert_eq!(resume_code("?"), None);
    assert_eq!(resume_code("?state=x&y=2"), None);
    assert_eq!(resume_code("?coder=zzz"), None);
    assert_eq!(resume_code("?encode=zzz"), None);
}

#[test]
fn query_param_takes_the_first_match() {
    assert_eq!(query_param("a=1&a=2", "a"), Some(String::from("1")));
    assert_eq!(query_param("a=1&b=2", "b"), Some(String::from("2")));
    assert_eq!(query_param("a=1&b=2", "c"), None);
    assert_eq!(query_param("flag&b=2", "flag"), Some(String::from("")));
    assert_eq!(query_param("a==x", "a"), Some(String::from("=x")));
}

#[test]
fn resume_with_code_directs_one_exchange() {
    match resume_action("?code=abc123") {
        AuthDirective::Exchange { code, url } => {
            assert_eq!(code, "abc123");
            assert_eq!(url, "https://github-oauth-proxy.onrender.com/auth?code=abc123");
        }
        AuthDirective::NoCalls => panic!("a present code must be exchanged"),
    }
}

#[test]
fn resume_without_code_directs_no_calls() {
    assert!(matches!(resume_action("/"), AuthDirective::NoCalls));
    assert!(matches!(resume_action(""), AuthDirective::NoCalls));
    assert!(matches!(resume_action("?state=x"), AuthDirective::NoCalls));
}

#[test]
fn auth_urls_are_exact() {
    assert_eq!(
        authorize_url("my-client", "https://example.test/app/"),
        "https://github.com/login/oauth/authorize?client_id=my-client\
         &redirect_uri=https://example.test/app/&scope=user"
    );
    assert_eq!(
        exchange_url("abc123"),
        "https://github-oauth-proxy.onrender.com/auth?code=abc123"
    );
    assert_eq!(profile_url(), "https://api.github.com/user");
    assert_eq!(token_header("tok"), "token tok");
}

#[test]
fn access_token_is_read_from_the_exchange_response() {
    assert_eq!(
        parse_access_token("{\"access_token\":\"tok-1\",\"scope\":\"user\"}"),
        Some(String::from("tok-1"))
    );
    assert_eq!(parse_access_token("{\"error\":\"bad_code\"}"), None);
    assert_eq!(parse_access_token("{\"access_token\":5}"), None);
    assert_eq!(parse_access_token("not json"), None);
    assert_eq!(parse_access_token(""), None);
}

#[test]
fn login_is_read_from_the_profile_response() {
    assert_eq!(
        parse_login("{\"login\":\"octocat\",\"id\":1}"),
        Some(String::from("octocat"))
    );
    assert_eq!(parse_login("{\"id\":1}"), None);
    assert_eq!(parse_login("[1,2]"), None);
}

#[test]
fn session_records_the_identity_once_exchanged() {
    let mut session = AuthSession::new();
    assert_eq!(session.user, None);
    session.complete_login(String::from("octocat"));
    assert_eq!(session.user, Some(String::from("octocat")));
}
