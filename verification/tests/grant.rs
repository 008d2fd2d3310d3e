use fitbit_hr::config::ClientCredentials;
use fitbit_hr::error::{AuthorizationError, MissingRefreshTokenError, RefreshError};
use fitbit_hr::grant::{
    authorization_request, authorized, begin_authorization, code_exchange, refresh_request,
    refreshed, AuthorizationRequest, CodeExchange, ExchangeOutcome, RefreshRequest,
};
use fitbit_hr::secret::Secret;
use fitbit_hr::token::{TokenKind, TokenRecord};

fn secret(text: &str) -> Secret {
    Secret::new(text.to_string())
}

fn credentials() -> ClientCredentials {
    ClientCredentials {
        client_id: "22ABCD".to_string(),
        client_secret: secret("s3cr3t"),
        authorization_endpoint: "https://www.fitbit.com/oauth2/authorize".to_string(),
        token_endpoint: "https://api.fitbit.com/oauth2/token".to_string(),
        redirect_uri: Some("http://localhost:8080/".to_string()),
    }
}

fn record(refresh_token: Option<&str>) -> TokenRecord {
    TokenRecord {
        access_token: secret("abc"),
        refresh_token: refresh_token.map(secret),
        token_type: TokenKind::Bearer,
        expires_in: Some(28_800),
        scopes: None,
    }
}

const VERIFIER: &str = "0123456789012345678901234567890123456789012";

#[test]
fn refresh_without_a_refresh_token_sends_nothing() {
    assert!(refresh_request(&credentials(), &record(None)) == Err(MissingRefreshTokenError));
}

#[test]
fn refresh_asks_the_token_endpoint_with_the_refresh_token() {
    assert!(refresh_request(&credentials(), &record(Some("def"))) == Ok(RefreshRequest { credentials: credentials(), refresh_token: secret("def") }));
    assert!(refresh_request(&credentials(), &record(Some(""))).is_ok());
}

#[test]
fn refreshed_takes_the_grant_or_reports_the_failure() {
    assert!(refreshed(ExchangeOutcome::Granted(record(Some("new")))) == Ok(record(Some("new"))));
    assert!(refreshed(ExchangeOutcome::RequestFailed) == Err(RefreshError::RequestFailed));
    assert!(refreshed(ExchangeOutcome::UnreadableResponse) == Err(RefreshError::UnreadableResponse));
}

#[test]
fn authorized_takes_the_grant_or_reports_the_failure() {
    assert!(authorized(ExchangeOutcome::Granted(record(None))) == Ok(record(None)));
    assert!(authorized(ExchangeOutcome::RequestFailed) == Err(AuthorizationError::RequestFailed));
    assert!(authorized(ExchangeOutcome::UnreadableResponse) == Err(AuthorizationError::UnreadableResponse));
}

#[test]
fn authorization_address_carries_challenge_state_and_scope() {
    let request = authorization_request(&credentials(), secret(VERIFIER), "xyz".to_string())
        .expect("an authorization request");
    assert!(request.verifier == secret(VERIFIER));
    assert!(request.state == "xyz");
    assert!(request.url.starts_with(
        "https://www.fitbit.com/oauth2/authorize?response_type=code&client_id=22ABCD&state=xyz&code_challenge="
    ));
    assert!(request
        .url
        .ends_with("&code_challenge_method=S256&redirect_uri=http%3A%2F%2Flocalhost%3A8080%2F&scope=heartrate"));
    assert!(!request.url.contains(VERIFIER));
    assert!(!request.url.contains(request.verifier.expose().as_str()));
    assert!(!request.url.contains("s3cr3t"));
    let again = authorization_request(&credentials(), secret(VERIFIER), "xyz".to_string());
    assert!(again == Some(request));
}

#[test]
fn authorization_address_without_a_redirect_address() {
    let plain = ClientCredentials { redirect_uri: None, ..credentials() };
    let request = authorization_request(&plain, secret(VERIFIER), "s".to_string())
        .expect("an authorization request");
    assert!(!request.url.contains("redirect_uri"));
    assert!(request.url.ends_with("&code_challenge_method=S256&scope=heartrate"));
}

#[test]
fn authorization_needs_a_verifier_of_fitting_length() {
    assert!(authorization_request(&credentials(), secret(""), "s".to_string()) == None);
    assert!(authorization_request(&credentials(), Secret::new("a".repeat(42)), "s".to_string()) == None);
    assert!(authorization_request(&credentials(), Secret::new("a".repeat(43)), "s".to_string()).is_some());
    assert!(authorization_request(&credentials(), Secret::new("a".repeat(128)), "s".to_string()).is_some());
    assert!(authorization_request(&credentials(), Secret::new("a".repeat(129)), "s".to_string()) == None);
    assert!(authorization_request(&credentials(), Secret::new("\u{e9}".repeat(65)), "s".to_string()) == None);
    assert!(authorization_request(&credentials(), Secret::new("\u{e9}".repeat(64)), "s".to_string()).is_some());
}

#[test]
fn authorization_needs_addresses_that_are_urls() {
    let lost = ClientCredentials { authorization_endpoint: "nowhere".to_string(), ..credentials() };
    assert!(authorization_request(&lost, secret(VERIFIER), "s".to_string()) == None);
    assert!(begin_authorization(&lost) == None);
    let back = ClientCredentials { redirect_uri: Some("home".to_string()), ..credentials() };
    assert!(authorization_request(&back, secret(VERIFIER), "s".to_string()) == None);
    let token = ClientCredentials { token_endpoint: "nowhere".to_string(), ..credentials() };
    assert!(authorization_request(&token, secret(VERIFIER), "s".to_string()).is_some());
}

#[test]
fn each_authorization_draws_fresh_secrets() {
    let first = begin_authorization(&credentials()).expect("an authorization request");
    let second = begin_authorization(&credentials()).expect("an authorization request");
    assert!(first.verifier.expose().len() == 43);
    assert!(!first.state.is_empty());
    assert!(first.verifier != second.verifier);
    assert!(first.state != second.state);
    assert!(first.url.contains(&format!("&state={}&", first.state)));
    assert!(authorization_request(&credentials(), first.verifier.copy(), first.state.clone()) == Some(first));
}

#[test]
fn entered_code_is_exchanged_without_the_blanks_around_it() {
    let request = AuthorizationRequest {
        url: "https://example.com/".to_string(),
        verifier: secret(VERIFIER),
        state: "xyz".to_string(),
    };
    assert!(code_exchange(&credentials(), &request, "  4f2a 9b\t\r\n") == CodeExchange {
            credentials: credentials(),
            code: secret("4f2a 9b"),
            verifier: secret(VERIFIER),
        });
    assert!(code_exchange(&credentials(), &request, "\n").code == secret(""));
    assert!(code_exchange(&credentials(), &request, "code").code == secret("code"));
}
