use fitbit_hr::config::{
    classify, client_secret_from, find_fault, secret_in, Address, ClientCredentials, JobSettings,
};
use fitbit_hr::error::{ConfigurationError, Setting};
use fitbit_hr::json::Json;
use fitbit_hr::secret::Secret;

fn set(value: &str) -> Option<String> {
    Some(value.to_string())
}

const AUTHORIZE: &str = "https://www.fitbit.com/oauth2/authorize";
const TOKEN: &str = "https://api.fitbit.com/oauth2/token";

#[test]
fn credentials_from_four_values() {
    assert!(ClientCredentials::configure(set("id"), set("secret"), set(AUTHORIZE), set(TOKEN)) == Ok(ClientCredentials {
            client_id: "id".to_string(),
            client_secret: Secret::new("secret".to_string()),
            authorization_endpoint: AUTHORIZE.to_string(),
            token_endpoint: TOKEN.to_string(),
            redirect_uri: None,
        }));
}

#[test]
fn the_first_missing_value_is_reported() {
    assert!(ClientCredentials::configure(None, None, None, None) == Err(ConfigurationError::Missing(Setting::ClientId)));
    assert!(ClientCredentials::configure(set("id"), None, None, None) == Err(ConfigurationError::Missing(Setting::ClientSecret)));
    assert!(ClientCredentials::configure(set("id"), set("secret"), None, None) == Err(ConfigurationError::Missing(Setting::AuthorizationUrl)));
    assert!(ClientCredentials::configure(set("id"), set("secret"), set(AUTHORIZE), None) == Err(ConfigurationError::Missing(Setting::TokenUrl)));
    assert!(ClientCredentials::configure(set("id"), set("secret"), set("nowhere"), None) == Err(ConfigurationError::Missing(Setting::TokenUrl)));
    assert!(ClientCredentials::configure(None, set("secret"), set("nowhere"), set(TOKEN)) == Err(ConfigurationError::Missing(Setting::ClientId)));
}

#[test]
fn an_address_that_is_no_url_is_reported() {
    assert!(ClientCredentials::configure(set("id"), set("secret"), set("nowhere"), set(TOKEN)) == Err(ConfigurationError::Invalid(Setting::AuthorizationUrl)));
    assert!(ClientCredentials::configure(set("id"), set("secret"), set(AUTHORIZE), set("")) == Err(ConfigurationError::Invalid(Setting::TokenUrl)));
    assert!(ClientCredentials::configure(set("id"), set("secret"), set("/a"), set("/b")) == Err(ConfigurationError::Invalid(Setting::AuthorizationUrl)));
}

#[test]
fn redirect_address_is_added() {
    let credentials =
        ClientCredentials::configure(set("id"), set("secret"), set(AUTHORIZE), set(TOKEN)).unwrap();
    assert!(credentials.clone().with_redirect(set("http://localhost:8080/")) == Ok(ClientCredentials { redirect_uri: set("http://localhost:8080/"), ..credentials.clone() }));
    assert!(credentials.clone().with_redirect(None) == Err(ConfigurationError::Missing(Setting::RedirectUrl)));
    assert!(credentials.with_redirect(set("localhost")) == Err(ConfigurationError::Invalid(Setting::RedirectUrl)));
}

#[test]
fn addresses_are_told_apart() {
    assert!(classify(&None) == Address::Unset);
    assert!(classify(&set("")) == Address::Unusable);
    assert!(classify(&set("not a url")) == Address::Unusable);
    assert!(classify(&set("//host/path")) == Address::Unusable);
    assert!(classify(&set("https://example.com")) == Address::Usable);
    assert!(classify(&set("http://localhost:8080/callback?x=1")) == Address::Usable);
}

#[test]
fn faults_in_their_order() {
    let unset = Address::Unset;
    let unusable = Address::Unusable;
    let usable = Address::Usable;
    assert!(find_fault(true, true, usable, usable) == None);
    assert!(find_fault(false, false, unset, unset) == Some(ConfigurationError::Missing(Setting::ClientId)));
    assert!(find_fault(true, false, unusable, unusable) == Some(ConfigurationError::Missing(Setting::ClientSecret)));
    assert!(find_fault(true, true, unset, unusable) == Some(ConfigurationError::Missing(Setting::AuthorizationUrl)));
    assert!(find_fault(true, true, unusable, unset) == Some(ConfigurationError::Missing(Setting::TokenUrl)));
    assert!(find_fault(true, true, unusable, unusable) == Some(ConfigurationError::Invalid(Setting::AuthorizationUrl)));
    assert!(find_fault(true, true, usable, unusable) == Some(ConfigurationError::Invalid(Setting::TokenUrl)));
}

#[test]
fn job_settings_from_five_values() {
    assert!(JobSettings::configure(set("id"), set("arn"), set(AUTHORIZE), set(TOKEN), set("bucket")) == Ok(JobSettings {
            client_id: "id".to_string(),
            secret_reference: "arn".to_string(),
            authorization_endpoint: AUTHORIZE.to_string(),
            token_endpoint: TOKEN.to_string(),
            bucket: "bucket".to_string(),
        }));
    assert!(JobSettings::configure(None, None, None, None, None) == Err(ConfigurationError::Missing(Setting::ClientId)));
    assert!(JobSettings::configure(set("id"), None, None, None, None) == Err(ConfigurationError::Missing(Setting::ClientSecretReference)));
    assert!(JobSettings::configure(set("id"), set("arn"), None, set(TOKEN), None) == Err(ConfigurationError::Missing(Setting::AuthorizationUrl)));
    assert!(JobSettings::configure(set("id"), set("arn"), set(AUTHORIZE), None, None) == Err(ConfigurationError::Missing(Setting::TokenUrl)));
    assert!(JobSettings::configure(set("id"), set("arn"), set(AUTHORIZE), set(TOKEN), None) == Err(ConfigurationError::Missing(Setting::BucketName)));
    assert!(JobSettings::configure(set(""), set(""), set("x"), set("y"), set("")).is_ok());
}

#[test]
fn client_secret_is_read_from_the_secret_text() {
    assert!(client_secret_from(Some(b"{\"client_secret\":\"s3cr3t\"}")) == Ok("s3cr3t".to_string()));
    assert!(client_secret_from(Some(b" { \"other\": 1, \"client_secret\": \"\" } ")) == Ok(String::new()));
    assert!(client_secret_from(None) == Err(ConfigurationError::Missing(Setting::ClientSecret)));
    for held in ["", "s3cr3t", "{}", "{\"client_secret\":1}", "{\"client_secret\":null}", "[\"client_secret\"]"] {
        assert!(client_secret_from(Some(held.as_bytes())) == Err(ConfigurationError::Invalid(Setting::ClientSecret)),
            "{}",
            held
        );
    }
}

#[test]
fn client_secret_in_a_tree() {
    let tree = Json::Object(vec![("client_secret".to_string(), Json::Text("x".to_string()))]);
    assert!(secret_in(&Some(tree)) == Some("x".to_string()));
    assert!(secret_in(&Some(Json::Object(Vec::new()))) == None);
    assert!(secret_in(&Some(Json::Text("x".to_string()))) == None);
    assert!(secret_in(&None) == None);
}
