use spotifier_core::auth::{
    auth_step, credential_form, decode_session, encode_session, extract_execution_token,
    split_cookie_pairs, verify_fetch_path, verify_login_host,
};
use spotifier_core::{AuthEvent, AuthState, ScraperError, SessionCookies};

#[test]
fn login_state_machine_happy_path() {
    let s0 = AuthState::Anonymous;
    let s1 = auth_step(&s0, &AuthEvent::LoginPageFetched { token_found: true });
    assert_eq!(s1, AuthState::TokenAcquired);
    let s2 = auth_step(&s1, &AuthEvent::CredentialsPosted);
    assert_eq!(s2, AuthState::CredentialsSubmitted);
    let s3 = auth_step(&s2, &AuthEvent::LoginResolved { host_is_portal: true });
    assert_eq!(s3, AuthState::Authenticated);
    let s4 = auth_step(&s3, &AuthEvent::FetchResolved { path_matches: true });
    assert_eq!(s4, AuthState::Authenticated);
}

#[test]
fn login_state_machine_failures() {
    let s = auth_step(&AuthState::Anonymous, &AuthEvent::LoginPageFetched { token_found: false });
    assert_eq!(s, AuthState::Anonymous);

    let s = auth_step(
        &AuthState::CredentialsSubmitted,
        &AuthEvent::LoginResolved { host_is_portal: false },
    );
    assert_eq!(s, AuthState::Anonymous);

    let s = auth_step(&AuthState::Authenticated, &AuthEvent::FetchResolved { path_matches: false });
    assert_eq!(s, AuthState::Expired);
}

#[test]
fn warm_start_restores_optimistically() {
    let s = auth_step(&AuthState::Anonymous, &AuthEvent::SessionRestored);
    assert_eq!(s, AuthState::Authenticated);
}

#[test]
fn execution_token_is_extracted_from_the_login_form() {
    let html = "<html><body><form>\
        <input type=\"hidden\" name=\"execution\" value=\"e1s1-token\"/>\
        <input name=\"username\"/></form></body></html>";
    let token = extract_execution_token(html).unwrap();
    assert_eq!(token, "e1s1-token");
}

#[test]
fn missing_execution_token_is_fatal() {
    let html = "<html><body><form><input name=\"username\"/></form></body></html>";
    assert!(matches!(extract_execution_token(html), Err(ScraperError::TokenNotFound)));
    let html2 = "<html><body><form><input name=\"execution\"/></form></body></html>";
    assert!(matches!(extract_execution_token(html2), Err(ScraperError::TokenNotFound)));
}

#[test]
fn credential_form_holds_the_four_fields() {
    let form = credential_form("1900001", "secret", "e1s1");
    assert_eq!(form.len(), 4);
    assert_eq!(form[0], ("username".to_string(), "1900001".to_string()));
    assert_eq!(form[1], ("password".to_string(), "secret".to_string()));
    assert_eq!(form[2], ("execution".to_string(), "e1s1".to_string()));
    assert_eq!(form[3], ("_eventId".to_string(), "submit".to_string()));
}

#[test]
fn login_host_check_accepts_only_the_portal() {
    assert!(verify_login_host("spot.upi.edu").is_ok());
    assert!(matches!(
        verify_login_host("sso.upi.edu"),
        Err(ScraperError::AuthenticationFailed)
    ));
    assert!(matches!(verify_login_host(""), Err(ScraperError::AuthenticationFailed)));
}

#[test]
fn fetch_path_check_detects_silent_redirects() {
    assert!(verify_fetch_path("/mhs", "/mhs").is_ok());
    assert!(verify_fetch_path("/mhs", "/mhs/kuliah/42").is_ok());
    assert!(matches!(
        verify_fetch_path("/mhs", "/login"),
        Err(ScraperError::SessionExpired)
    ));
}

#[test]
fn session_cookies_round_trip() {
    let both = SessionCookies {
        portal: Some("sid=abc; theme=dark".to_string()),
        identity_provider: Some("TGC=xyz".to_string()),
    };
    let enc = encode_session(&both);
    let back = decode_session(&enc).unwrap();
    assert_eq!(back.portal, Some("sid=abc; theme=dark".to_string()));
    assert_eq!(back.identity_provider, Some("TGC=xyz".to_string()));

    let only_portal = SessionCookies { portal: Some("sid=1".to_string()), identity_provider: None };
    let back = decode_session(&encode_session(&only_portal)).unwrap();
    assert_eq!(back.portal, Some("sid=1".to_string()));
    assert_eq!(back.identity_provider, None);

    let neither = SessionCookies { portal: None, identity_provider: None };
    let back = decode_session(&encode_session(&neither)).unwrap();
    assert_eq!(back.portal, None);
    assert_eq!(back.identity_provider, None);
}

#[test]
fn session_decode_fails_closed() {
    assert!(decode_session("not a session").is_none());
    assert!(decode_session("wrongkey\tvalue").is_none());
    assert!(decode_session("portal\ta\nportal\tb").is_none());
}

#[test]
fn cookie_pairs_split_on_semicolons() {
    let pairs = split_cookie_pairs("sid=abc; theme=dark;  lang=id ");
    assert_eq!(pairs, vec!["sid=abc".to_string(), "theme=dark".to_string(), "lang=id".to_string()]);
    assert_eq!(split_cookie_pairs(""), Vec::<String>::new());
    assert_eq!(split_cookie_pairs(" ; ;"), Vec::<String>::new());
    assert_eq!(split_cookie_pairs("one=1"), vec!["one=1".to_string()]);
}
