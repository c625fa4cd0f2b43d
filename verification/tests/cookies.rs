use cognito_auth::errors::user_token::NoCookieError;
use cognito_auth::operations::auth::TokenBundle;
use cognito_auth::operations::user::{find_cookie, package, UserAuthCredentials};
use cognito_auth::operations::user_token::{SameSite, SessionCookie, UserToken};

fn text(s: &str) -> Option<String> {
    Some(s.to_string())
}

fn bundle() -> TokenBundle {
    TokenBundle {
        access_token: text("AT"),
        id_token: text("IT"),
        refresh_token: text("RT"),
        expires_in: 3600,
    }
}

fn pair(name: &str, value: &str) -> (String, String) {
    (name.to_string(), value.to_string())
}

fn expected_cookie(name: &str, value: &str, domain: &str) -> SessionCookie {
    SessionCookie {
        name: name.to_string(),
        value: value.to_string(),
        max_age: Some(3600),
        expires: Some(1_700_003_600),
        same_site: Some(SameSite::Lax),
        path: Some("/".to_string()),
        http_only: Some(true),
        domain: Some(domain.to_string()),
    }
}

#[test]
fn package_makes_three_session_cookies() {
    let reply = package(bundle(), text("auth.example.com"), 1_700_000_000);
    assert_eq!(reply.status, 200);
    assert_eq!(reply.body, "Logged In");
    assert_eq!(
        reply.cookies,
        vec![
            expected_cookie("access_token", "AT", "auth.example.com"),
            expected_cookie("id_token", "IT", "auth.example.com"),
            expected_cookie("refresh_token", "RT", "auth.example.com"),
        ]
    );
}

#[test]
fn package_without_host_falls_back() {
    let reply = package(bundle(), None, 1_700_000_000);
    assert_eq!(reply.cookies.len(), 3);
    for cookie in &reply.cookies {
        assert_eq!(cookie.domain, text("0.0.0.0"));
    }
}

#[test]
fn package_skips_tokens_the_bundle_lacks() {
    let partial = TokenBundle { access_token: text("AT"), id_token: None, refresh_token: text("RT"), expires_in: 60 };
    let reply = package(partial, text("h"), 10);
    let names: Vec<&str> = reply.cookies.iter().map(|c| c.name.as_str()).collect();
    assert_eq!(names, vec!["access_token", "refresh_token"]);
    assert_eq!(reply.cookies[0].max_age, Some(60));
    assert_eq!(reply.cookies[0].expires, Some(70));
}

#[test]
fn package_of_an_empty_bundle_sets_no_cookie() {
    let empty = TokenBundle { access_token: None, id_token: None, refresh_token: None, expires_in: 0 };
    let reply = package(empty, None, 0);
    assert_eq!(reply.status, 200);
    assert!(reply.cookies.is_empty());
}

#[test]
fn lifetime_is_counted_in_seconds() {
    let reply = package(bundle(), None, 0);
    assert_eq!(reply.cookies[0].max_age, Some(3600));
    assert_eq!(reply.cookies[0].expires, Some(3600));
}

#[test]
fn expiry_out_of_range_is_left_out() {
    let reply = package(bundle(), None, i64::MAX);
    assert_eq!(reply.cookies[0].max_age, Some(3600));
    assert_eq!(reply.cookies[0].expires, None);
    let edge = package(bundle(), None, i64::MAX - 3600);
    assert_eq!(edge.cookies[0].expires, Some(i64::MAX));
}

#[test]
fn negative_lifetime_expires_in_the_past() {
    let stale = TokenBundle { access_token: text("AT"), id_token: None, refresh_token: None, expires_in: -5 };
    let reply = package(stale, None, 100);
    assert_eq!(reply.cookies[0].max_age, Some(-5));
    assert_eq!(reply.cookies[0].expires, Some(95));
    let early = TokenBundle { access_token: text("AT"), id_token: None, refresh_token: None, expires_in: i32::MIN };
    assert_eq!(package(early, None, i64::MIN).cookies[0].expires, None);
}

#[test]
fn build_holds_bare_tokens() {
    let credentials = UserAuthCredentials::build(bundle(), text("h"));
    assert_eq!(credentials.message, "Logged In");
    assert_eq!(credentials.expires_in, 3600);
    assert_eq!(credentials.domain, text("h"));
    assert_eq!(credentials.tokens.len(), 3);
    assert_eq!(credentials.tokens.get("access_token"), Some(&UserToken::Raw("AT".to_string())));
    assert_eq!(credentials.tokens.get("id_token"), Some(&UserToken::Raw("IT".to_string())));
    assert_eq!(credentials.tokens.get("refresh_token"), Some(&UserToken::Raw("RT".to_string())));
    // Nothing is a cookie yet, so the answer sets none.
    assert!(credentials.response().cookies.is_empty());
}

#[test]
fn new_holds_no_tokens() {
    let credentials = UserAuthCredentials::new("hello".to_string(), 5, None);
    assert_eq!(credentials.message, "hello");
    assert_eq!(credentials.expires_in, 5);
    assert_eq!(credentials.domain, None);
    assert_eq!(credentials.tokens.len(), 0);
    let reply = credentials.response();
    assert_eq!(reply.status, 200);
    assert_eq!(reply.body, "hello");
    assert!(reply.cookies.is_empty());
}

#[test]
fn cookify_keeps_names_and_places() {
    let mut credentials = UserAuthCredentials::build(bundle(), text("h"));
    credentials.cookify(1_700_000_000);
    assert_eq!(credentials.tokens.len(), 3);
    assert_eq!(credentials.tokens.key_at(0), "access_token");
    assert_eq!(credentials.tokens.key_at(1), "id_token");
    assert_eq!(credentials.tokens.key_at(2), "refresh_token");
    assert_eq!(
        credentials.tokens.value_at(1),
        &UserToken::Cookie(expected_cookie("id_token", "IT", "h"))
    );
}

#[test]
fn cookify_leaves_cookies_alone() {
    let mut credentials = UserAuthCredentials::new(String::new(), 3600, text("h"));
    let held = SessionCookie::bare("access_token".to_string(), "AT".to_string());
    credentials.tokens.insert("access_token".to_string(), UserToken::Cookie(held.duplicate()));
    credentials.tokens.insert("id_token".to_string(), UserToken::Raw("IT".to_string()));
    credentials.cookify(1_700_000_000);
    assert_eq!(credentials.tokens.value_at(0), &UserToken::Cookie(held));
    assert_eq!(
        credentials.tokens.value_at(1),
        &UserToken::Cookie(expected_cookie("id_token", "IT", "h"))
    );
}

#[test]
fn cookify_twice_changes_nothing_more() {
    let mut credentials = UserAuthCredentials::build(bundle(), text("h"));
    credentials.cookify(1_700_000_000);
    let once = format!("{:?}", credentials);
    credentials.cookify(1_800_000_000);
    assert_eq!(format!("{:?}", credentials), once);
}

#[test]
fn find_cookie_takes_the_first() {
    let cookies = vec![pair("a", "1"), pair("b", "2"), pair("a", "3")];
    assert_eq!(find_cookie(&cookies, "a"), Some(0));
    assert_eq!(find_cookie(&cookies, "b"), Some(1));
    assert_eq!(find_cookie(&cookies, "c"), None);
    assert_eq!(find_cookie(&Vec::new(), "a"), None);
}

#[test]
fn extract_reads_the_three_cookies() {
    let cookies = vec![
        pair("theme", "dark"),
        pair("id_token", "IT"),
        pair("access_token", "AT"),
        pair("refresh_token", "RT"),
    ];
    let credentials = UserAuthCredentials::from_request(&cookies, text("h")).expect("all three are there");
    assert_eq!(credentials.message, "");
    assert_eq!(credentials.expires_in, 0);
    assert_eq!(credentials.domain, text("h"));
    assert_eq!(credentials.tokens.len(), 3);
    assert_eq!(credentials.tokens.key_at(0), "access_token");
    assert_eq!(credentials.tokens.key_at(1), "refresh_token");
    assert_eq!(credentials.tokens.key_at(2), "id_token");
    assert_eq!(
        credentials.tokens.get("access_token"),
        Some(&UserToken::Cookie(SessionCookie::bare("access_token".to_string(), "AT".to_string())))
    );
    assert_eq!(
        credentials.tokens.get("refresh_token"),
        Some(&UserToken::Cookie(SessionCookie::bare("refresh_token".to_string(), "RT".to_string())))
    );
    assert_eq!(
        credentials.tokens.get("id_token"),
        Some(&UserToken::Cookie(SessionCookie::bare("id_token".to_string(), "IT".to_string())))
    );
    assert_eq!(credentials.tokens.get("theme"), None);
}

#[test]
fn extract_takes_the_first_of_a_repeated_cookie() {
    let cookies = vec![
        pair("access_token", "first"),
        pair("access_token", "second"),
        pair("refresh_token", "RT"),
        pair("id_token", "IT"),
    ];
    let credentials = UserAuthCredentials::from_request(&cookies, None).expect("all three are there");
    assert_eq!(
        credentials.tokens.get("access_token"),
        Some(&UserToken::Cookie(SessionCookie::bare("access_token".to_string(), "first".to_string())))
    );
}

#[test]
fn extract_fails_when_any_cookie_is_missing() {
    let all = [pair("access_token", "AT"), pair("refresh_token", "RT"), pair("id_token", "IT")];
    for missing in 0..3 {
        let cookies: Vec<(String, String)> =
            all.iter().enumerate().filter(|(i, _)| *i != missing).map(|(_, c)| c.clone()).collect();
        assert_eq!(UserAuthCredentials::from_request(&cookies, None), Err(NoCookieError));
    }
    assert_eq!(UserAuthCredentials::from_request(&Vec::new(), None), Err(NoCookieError));
}

#[test]
fn extract_is_case_sensitive() {
    let cookies = vec![pair("Access_Token", "AT"), pair("refresh_token", "RT"), pair("id_token", "IT")];
    assert_eq!(UserAuthCredentials::from_request(&cookies, None), Err(NoCookieError));
}

#[test]
fn package_then_extract_gives_the_same_three_keys() {
    let reply = package(bundle(), text("auth.example.com"), 1_700_000_000);
    let sent_back: Vec<(String, String)> =
        reply.cookies.iter().map(|c| (c.name.clone(), c.value.clone())).collect();
    let credentials =
        UserAuthCredentials::from_request(&sent_back, text("auth.example.com")).expect("all three are there");
    assert_eq!(credentials.tokens.len(), 3);
    for (name, value) in [("access_token", "AT"), ("id_token", "IT"), ("refresh_token", "RT")] {
        assert_eq!(
            credentials.tokens.get(name),
            Some(&UserToken::Cookie(SessionCookie::bare(name.to_string(), value.to_string())))
        );
    }
}

#[test]
fn package_then_extract_fails_for_a_partial_bundle() {
    let partial = TokenBundle { access_token: text("AT"), id_token: None, refresh_token: text("RT"), expires_in: 60 };
    let reply = package(partial, None, 0);
    let sent_back: Vec<(String, String)> =
        reply.cookies.iter().map(|c| (c.name.clone(), c.value.clone())).collect();
    assert_eq!(UserAuthCredentials::from_request(&sent_back, None), Err(NoCookieError));
}

#[test]
fn tokens_convert_only_from_the_form_they_hold() {
    let raw = UserToken::from("AT".to_string());
    assert_eq!(raw, UserToken::Raw("AT".to_string()));
    assert_eq!(UserToken::from_text("AT"), raw);
    assert_eq!(UserToken::from_text("AT").into_string(), Ok("AT".to_string()));
    assert_eq!(UserToken::from_text("AT").into_cookie(), Err(UserToken::Raw("AT".to_string())));

    let cookie = SessionCookie::bare("access_token".to_string(), "AT".to_string());
    let held = UserToken::from(cookie.duplicate());
    assert_eq!(held, UserToken::Cookie(cookie.duplicate()));
    assert_eq!(UserToken::from(cookie.duplicate()).into_cookie(), Ok(cookie.duplicate()));
    assert_eq!(UserToken::from(cookie.duplicate()).into_string(), Err(UserToken::Cookie(cookie)));
}

#[test]
fn bare_cookie_sets_no_attribute() {
    let cookie = SessionCookie::bare("n".to_string(), "v".to_string());
    assert_eq!(cookie.name, "n");
    assert_eq!(cookie.value, "v");
    assert_eq!(cookie.max_age, None);
    assert_eq!(cookie.expires, None);
    assert_eq!(cookie.same_site, None);
    assert_eq!(cookie.path, None);
    assert_eq!(cookie.http_only, None);
    assert_eq!(cookie.domain, None);
}

#[test]
fn session_cookie_sets_every_attribute() {
    let cookie = SessionCookie::session("id_token".to_string(), "IT".to_string(), 3600, 1_700_000_000, &text("h"));
    assert_eq!(cookie, expected_cookie("id_token", "IT", "h"));
    assert_eq!(cookie.duplicate(), cookie);
}
