//! The configuration of a run: the client's credentials and where things
//! are kept. It is made once, from values that the caller has read, and
//! handed to every step that needs it.

use crate::error::{ConfigurationError, Setting};
use crate::json::{json_decoded, tree_of_bytes, Json};
use crate::secret::Secret;
use crate::store::stored_bytes;
use vstd::prelude::*;

verus! {

/// Whether oauth2's `AuthUrl::new` accepts `text` as a URL.
pub uninterp spec fn url_accepted(text: Seq<char>) -> bool;

/// The client's credentials at the provider.
#[derive(Clone, PartialEq, Eq)]
pub struct ClientCredentials {
    pub client_id: String,
    pub client_secret: Secret,
    pub authorization_endpoint: String,
    pub token_endpoint: String,
    pub redirect_uri: Option<String>,
}

/// The values of a scheduled run, before the client's secret is known.
#[derive(Clone, Debug, PartialEq, Eq)]
pub struct JobSettings {
    pub client_id: String,
    pub secret_reference: String,
    pub authorization_endpoint: String,
    pub token_endpoint: String,
    pub bucket: String,
}

/// What a value is known to be: not set, set to something that is no URL,
/// or set to a URL.
#[derive(Clone, Copy, Debug, PartialEq, Eq, Structural)]
pub enum Address {
    Unset,
    Unusable,
    Usable,
}

/// The state of an address that may be set.
pub open spec fn address_of(value: Option<String>) -> Address {
    match value {
        None => Address::Unset,
        Some(text) => if url_accepted(text@) {
            Address::Usable
        } else {
            Address::Unusable
        },
    }
}

/// The first thing wrong with a client's configuration, if anything is:
/// a value that is not set, in the order client id, client secret,
/// authorization address, token address; else an address that is no URL.
pub open spec fn first_fault(
    has_client_id: bool,
    has_client_secret: bool,
    authorization: Address,
    token: Address,
) -> Option<ConfigurationError> {
    if !has_client_id {
        Some(ConfigurationError::Missing(Setting::ClientId))
    } else if !has_client_secret {
        Some(ConfigurationError::Missing(Setting::ClientSecret))
    } else if authorization == Address::Unset {
        Some(ConfigurationError::Missing(Setting::AuthorizationUrl))
    } else if token == Address::Unset {
        Some(ConfigurationError::Missing(Setting::TokenUrl))
    } else if authorization == Address::Unusable {
        Some(ConfigurationError::Invalid(Setting::AuthorizationUrl))
    } else if token == Address::Unusable {
        Some(ConfigurationError::Invalid(Setting::TokenUrl))
    } else {
        None
    }
}

/// The client secret that a secret's text holds: the member
/// `client_secret`, a text, of the JSON object that the text is.
pub open spec fn secret_held(document: Option<Json>) -> Option<String> {
    match document {
        Some(object) => match object.member("client_secret"@) {
            Some(Json::Text(secret)) => Some(secret),
            _ => None,
        },
        None => None,
    }
}

/// The client secret that the bytes of a secret's text give: missing where
/// the store holds no text, invalid where the text holds no client secret.
pub open spec fn client_secret_of(text: Option<Seq<u8>>) -> Result<String, ConfigurationError> {
    match text {
        None => Err(ConfigurationError::Missing(Setting::ClientSecret)),
        Some(held) => match secret_held(json_decoded(held)) {
            Some(secret) => Ok(secret),
            None => Err(ConfigurationError::Invalid(Setting::ClientSecret)),
        },
    }
}

/// Tells the first thing wrong with a client's configuration.
pub fn find_fault(
    has_client_id: bool,
    has_client_secret: bool,
    authorization: Address,
    token: Address,
) -> (fault: Option<ConfigurationError>)
    ensures
        fault == first_fault(has_client_id, has_client_secret, authorization, token),
{
    if !has_client_id {
        Some(ConfigurationError::Missing(Setting::ClientId))
    } else if !has_client_secret {
        Some(ConfigurationError::Missing(Setting::ClientSecret))
    } else if authorization == Address::Unset {
        Some(ConfigurationError::Missing(Setting::AuthorizationUrl))
    } else if token == Address::Unset {
        Some(ConfigurationError::Missing(Setting::TokenUrl))
    } else if authorization == Address::Unusable {
        Some(ConfigurationError::Invalid(Setting::AuthorizationUrl))
    } else if token == Address::Unusable {
        Some(ConfigurationError::Invalid(Setting::TokenUrl))
    } else {
        None
    }
}

/// Tells what an address that may be set is.
pub fn classify(value: &Option<String>) -> (address: Address)
    ensures
        address == address_of(*value),
{
    match value {
        None => Address::Unset,
        Some(text) => if is_url(text.as_str()) {
            Address::Usable
        } else {
            Address::Unusable
        },
    }
}

impl ClientCredentials {
    /// Both endpoints, and the redirect address where there is one, are
    /// URLs.
    pub open spec fn is_valid(self) -> bool {
        &&& url_accepted(self.authorization_endpoint@)
        &&& url_accepted(self.token_endpoint@)
        &&& (self.redirect_uri matches Some(address) ==> url_accepted(address@))
    }

    /// The user can be sent to the provider: the authorization endpoint,
    /// and the redirect address where there is one, are URLs.
    pub open spec fn can_authorize(self) -> bool {
        &&& url_accepted(self.authorization_endpoint@)
        &&& (self.redirect_uri matches Some(address) ==> url_accepted(address@))
    }

    /// A copy of the credentials.
    pub fn copy(&self) -> (same: ClientCredentials)
        ensures
            same == *self,
    {
        ClientCredentials {
            client_id: self.client_id.clone(),
            client_secret: self.client_secret.copy(),
            authorization_endpoint: self.authorization_endpoint.clone(),
            token_endpoint: self.token_endpoint.clone(),
            redirect_uri: match &self.redirect_uri {
                Some(address) => Some(address.clone()),
                None => None,
            },
        }
    }

    /// Makes the credentials from the four values that every tool needs,
    /// each `None` where it is not set.
    pub fn configure(
        client_id: Option<String>,
        client_secret: Option<String>,
        authorization_url: Option<String>,
        token_url: Option<String>,
    ) -> (outcome: Result<ClientCredentials, ConfigurationError>)
        ensures
            match outcome {
                Ok(credentials) => {
                    &&& client_id == Some(credentials.client_id)
                    &&& client_secret matches Some(text) && credentials.client_secret@ == text@
                    &&& authorization_url == Some(credentials.authorization_endpoint)
                    &&& token_url == Some(credentials.token_endpoint)
                    &&& credentials.redirect_uri.is_none()
                    &&& credentials.is_valid()
                    &&& first_fault(
                        true,
                        true,
                        address_of(authorization_url),
                        address_of(token_url),
                    ).is_none()
                },
                Err(error) => Some(error) == first_fault(
                    client_id.is_some(),
                    client_secret.is_some(),
                    address_of(authorization_url),
                    address_of(token_url),
                ),
            },
    {
        let fault = find_fault(
            client_id.is_some(),
            client_secret.is_some(),
            classify(&authorization_url),
            classify(&token_url),
        );
        match (fault, client_id, client_secret, authorization_url, token_url) {
            (
                None,
                Some(client_id),
                Some(client_secret),
                Some(authorization_endpoint),
                Some(token_endpoint),
            ) => Ok(
                ClientCredentials {
                    client_id,
                    client_secret: Secret::new(client_secret),
                    authorization_endpoint,
                    token_endpoint,
                    redirect_uri: None,
                },
            ),
            (Some(error), _, _, _, _) => Err(error),
            _ => Err(ConfigurationError::Missing(Setting::ClientId)),
        }
    }

    /// Adds the address to which the provider sends the user back.
    pub fn with_redirect(self, redirect_url: Option<String>) -> (outcome: Result<
        ClientCredentials,
        ConfigurationError,
    >)
        ensures
            match outcome {
                Ok(credentials) => {
                    &&& address_of(redirect_url) == Address::Usable
                    &&& credentials == ClientCredentials { redirect_uri: redirect_url, ..self }
                },
                Err(error) => error == match address_of(redirect_url) {
                    Address::Unset => ConfigurationError::Missing(Setting::RedirectUrl),
                    _ => ConfigurationError::Invalid(Setting::RedirectUrl),
                } && address_of(redirect_url) != Address::Usable,
            },
    {
        match classify(&redirect_url) {
            Address::Usable => Ok(ClientCredentials { redirect_uri: redirect_url, ..self }),
            Address::Unset => Err(ConfigurationError::Missing(Setting::RedirectUrl)),
            Address::Unusable => Err(ConfigurationError::Invalid(Setting::RedirectUrl)),
        }
    }
}

impl JobSettings {
    /// Makes the settings of a scheduled run from the five values that it
    /// needs, each `None` where it is not set. The first that is not set, in
    /// the order of the parameters, is reported.
    pub fn configure(
        client_id: Option<String>,
        secret_reference: Option<String>,
        authorization_url: Option<String>,
        token_url: Option<String>,
        bucket: Option<String>,
    ) -> (outcome: Result<JobSettings, ConfigurationError>)
        ensures
            outcome == match (client_id, secret_reference, authorization_url, token_url, bucket) {
                (None, _, _, _, _) => Err::<JobSettings, ConfigurationError>(
                    ConfigurationError::Missing(Setting::ClientId),
                ),
                (_, None, _, _, _) => Err::<JobSettings, ConfigurationError>(
                    ConfigurationError::Missing(Setting::ClientSecretReference),
                ),
                (_, _, None, _, _) => Err::<JobSettings, ConfigurationError>(
                    ConfigurationError::Missing(Setting::AuthorizationUrl),
                ),
                (_, _, _, None, _) => Err::<JobSettings, ConfigurationError>(
                    ConfigurationError::Missing(Setting::TokenUrl),
                ),
                (_, _, _, _, None) => Err::<JobSettings, ConfigurationError>(
                    ConfigurationError::Missing(Setting::BucketName),
                ),
                (Some(id), Some(reference), Some(authorization), Some(token), Some(name)) => Ok::<
                    JobSettings,
                    ConfigurationError,
                >(
                    JobSettings {
                        client_id: id,
                        secret_reference: reference,
                        authorization_endpoint: authorization,
                        token_endpoint: token,
                        bucket: name,
                    },
                ),
            },
    {
        match (client_id, secret_reference, authorization_url, token_url, bucket) {
            (None, _, _, _, _) => Err(ConfigurationError::Missing(Setting::ClientId)),
            (_, None, _, _, _) => Err(ConfigurationError::Missing(Setting::ClientSecretReference)),
            (_, _, None, _, _) => Err(ConfigurationError::Missing(Setting::AuthorizationUrl)),
            (_, _, _, None, _) => Err(ConfigurationError::Missing(Setting::TokenUrl)),
            (_, _, _, _, None) => Err(ConfigurationError::Missing(Setting::BucketName)),
            (Some(id), Some(reference), Some(authorization), Some(token), Some(name)) => Ok(
                JobSettings {
                    client_id: id,
                    secret_reference: reference,
                    authorization_endpoint: authorization,
                    token_endpoint: token,
                    bucket: name,
                },
            ),
        }
    }
}

/// Takes the client secret out of the document that a secret's text was
/// read as.
pub fn secret_in(document: &Option<Json>) -> (secret: Option<String>)
    ensures
        secret == secret_held(*document),
{
    match document {
        Some(object) => match object.get("client_secret") {
            Some(Json::Text(secret)) => Some(secret.clone()),
            _ => None,
        },
        None => None,
    }
}

/// Reads the client secret from the bytes of a secret's text. The secret is
/// missing where the store holds no text for it, and invalid where the text
/// holds no client secret.
pub fn client_secret_from(text: Option<&[u8]>) -> (outcome: Result<String, ConfigurationError>)
    ensures
        outcome == client_secret_of(stored_bytes(text)),
{
    match text {
        None => Err(ConfigurationError::Missing(Setting::ClientSecret)),
        Some(held) => match secret_in(&tree_of_bytes(held)) {
            Some(secret) => Ok(secret),
            None => Err(ConfigurationError::Invalid(Setting::ClientSecret)),
        },
    }
}

/// oauth2's `AuthUrl::new`, which accepts exactly what the `url` crate's
/// `Url::parse` reads as a URL.
#[verifier::external_body]
fn is_url(text: &str) -> (accepted: bool)
    ensures
        accepted == url_accepted(text@),
{
    oauth2::AuthUrl::new(text.to_string()).is_ok()
}

} // verus!
