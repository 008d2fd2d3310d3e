//! The two grants by which a token record is had: the first by an
//! authorization code that the user brings back from the provider, every
//! later one by the refresh token of the record before.

use crate::config::{url_accepted, ClientCredentials};
use crate::error::{AuthorizationError, MissingRefreshTokenError, RefreshError};
use crate::secret::Secret;
use crate::token::TokenRecord;
use oauth2::basic::BasicClient;
use oauth2::{AuthUrl, ClientId, CsrfToken, PkceCodeChallenge, PkceCodeVerifier, RedirectUrl, Scope};
use vstd::prelude::*;

verus! {

/// How a request to the token endpoint ended.
#[derive(Clone, PartialEq, Eq)]
pub enum ExchangeOutcome {
    /// The endpoint granted a token.
    Granted(TokenRecord),
    /// The request failed on the way.
    RequestFailed,
    /// The endpoint's answer was no token.
    UnreadableResponse,
}

/// A refresh grant to ask the token endpoint for.
#[derive(Clone, PartialEq, Eq)]
pub struct RefreshRequest {
    /// The client that asks, and the endpoint that it asks.
    pub credentials: ClientCredentials,
    /// The refresh token of the record that is replaced.
    pub refresh_token: Secret,
}

/// What the user is sent to the provider with, and what is kept to
/// redeem the code that the user brings back.
#[derive(Clone, PartialEq, Eq)]
pub struct AuthorizationRequest {
    /// The address for the user to visit.
    pub url: String,
    /// The secret whose challenge the address carries.
    pub verifier: Secret,
    /// The token that guards against forged answers.
    pub state: String,
}

/// The exchange of an authorization code to ask the token endpoint for.
#[derive(Clone, PartialEq, Eq)]
pub struct CodeExchange {
    /// The client that asks, and the endpoint that it asks.
    pub credentials: ClientCredentials,
    /// The code that the user brought back.
    pub code: Secret,
    /// The secret whose challenge went out with the user.
    pub verifier: Secret,
}

/// The address that oauth2's `AuthorizationRequest::url` makes for a client
/// with this id, authorization endpoint and redirect address, asking for
/// `scope`, with the SHA-256 challenge of `verifier` and with `state`.
pub uninterp spec fn authorization_url(
    client_id: Seq<char>,
    endpoint: Seq<char>,
    redirect: Option<Seq<char>>,
    scope: Seq<char>,
    verifier: Seq<char>,
    state: Seq<char>,
) -> Seq<char>;

/// Whether std's `char::is_whitespace` counts `c` as a blank: the
/// characters with Unicode's property `White_Space`.
pub uninterp spec fn is_blank(c: char) -> bool;

/// Every character of `text` from `from` up to `to` is a blank.
pub open spec fn all_blank(text: Seq<char>, from: int, to: int) -> bool {
    forall|at: int| from <= at < to ==> is_blank(#[trigger] text[at])
}

/// `rest` is `text` without the blanks around it: the part of `text` that
/// begins `skipped` characters in, with blanks alone before and after it.
pub open spec fn is_cut_of(rest: Seq<char>, text: Seq<char>, skipped: int) -> bool {
    &&& 0 <= skipped
    &&& skipped + rest.len() <= text.len()
    &&& rest == text.subrange(skipped, skipped + rest.len())
    &&& all_blank(text, 0, skipped)
    &&& all_blank(text, skipped + rest.len(), text.len() as int)
}

/// `rest` is `text` without the blanks around it, and neither begins nor
/// ends with a blank.
pub open spec fn is_trimmed_from(rest: Seq<char>, text: Seq<char>) -> bool {
    &&& exists|skipped: int| is_cut_of(rest, text, skipped)
    &&& rest.len() > 0 ==> !is_blank(rest[0]) && !is_blank(rest.last())
}

/// A text has one trimmed form only.
pub proof fn lemma_trimmed_is_unique(one: Seq<char>, other: Seq<char>, text: Seq<char>)
    requires
        is_trimmed_from(one, text),
        is_trimmed_from(other, text),
    ensures
        one == other,
{
    let i = choose|skipped: int| is_cut_of(one, text, skipped);
    let j = choose|skipped: int| is_cut_of(other, text, skipped);
    if one.len() == 0 {
        if other.len() > 0 {
            assert(other[0] == text[j]);
            assert(is_blank(text[j]));
        }
        assert(one =~= other);
    } else if other.len() == 0 {
        assert(one[0] == text[i]);
        assert(is_blank(text[i]));
    } else {
        assert(one[0] == text[i]);
        assert(other[0] == text[j]);
        if i < j {
            assert(is_blank(text[i]));
        }
        if j < i {
            assert(is_blank(text[j]));
        }
        assert(one.last() == text[i + one.len() - 1]);
        assert(other.last() == text[j + other.len() - 1]);
        if one.len() < other.len() {
            assert(is_blank(text[j + other.len() - 1]));
        }
        if other.len() < one.len() {
            assert(is_blank(text[i + one.len() - 1]));
        }
        assert(one =~= other);
    }
}

/// The scope that is asked for: reading the heart rate.
pub open spec fn heart_rate_scope() -> Seq<char> {
    "heartrate"@
}

/// The characters of a text that may be missing.
pub open spec fn chars_of(text: Option<String>) -> Option<Seq<char>> {
    match text {
        Some(held) => Some(held@),
        None => None,
    }
}

/// Whether a verifier has a length that a challenge can be made of: 43 to
/// 128 bytes.
pub open spec fn verifier_fits(verifier: Seq<char>) -> bool {
    43 <= vstd::utf8::encode_utf8(verifier).len() <= 128
}

/// The address that sends the user to the provider for `credentials`,
/// asking for `scope`, with the challenge of `verifier` and with `state`;
/// none where the authorization endpoint or the redirect address is no URL.
pub open spec fn address_named(
    credentials: ClientCredentials,
    scope: Seq<char>,
    verifier: Seq<char>,
    state: Seq<char>,
) -> Option<Seq<char>> {
    if credentials.can_authorize() {
        Some(
            authorization_url(
                credentials.client_id@,
                credentials.authorization_endpoint@,
                chars_of(credentials.redirect_uri),
                scope,
                verifier,
                state,
            ),
        )
    } else {
        None
    }
}

/// The address to send the user to with `verifier` and `state`, asking to
/// read the heart rate.
pub open spec fn address_for(
    credentials: ClientCredentials,
    verifier: Seq<char>,
    state: Seq<char>,
) -> Option<Seq<char>> {
    if verifier_fits(verifier) {
        address_named(credentials, heart_rate_scope(), verifier, state)
    } else {
        None
    }
}

/// Plans the refresh of `current`. A record without a refresh token yields
/// no request, so that nothing is sent for it.
pub fn refresh_request(credentials: &ClientCredentials, current: &TokenRecord) -> (outcome: Result<
    RefreshRequest,
    MissingRefreshTokenError,
>)
    ensures
        match outcome {
            Ok(request) => {
                &&& current.refresh_token == Some(request.refresh_token)
                &&& request.credentials == *credentials
            },
            Err(_) => current.refresh_token.is_none(),
        },
{
    match &current.refresh_token {
        Some(token) => Ok(
            RefreshRequest { credentials: credentials.copy(), refresh_token: token.copy() },
        ),
        None => Err(MissingRefreshTokenError),
    }
}

/// Takes the record that a refresh grant yielded. Nothing is tried again:
/// a failure is the caller's to report.
pub fn refreshed(outcome: ExchangeOutcome) -> (record: Result<TokenRecord, RefreshError>)
    ensures
        record == match outcome {
            ExchangeOutcome::Granted(granted) => Ok::<TokenRecord, RefreshError>(granted),
            ExchangeOutcome::RequestFailed => Err::<TokenRecord, RefreshError>(
                RefreshError::RequestFailed,
            ),
            ExchangeOutcome::UnreadableResponse => Err::<TokenRecord, RefreshError>(
                RefreshError::UnreadableResponse,
            ),
        },
{
    match outcome {
        ExchangeOutcome::Granted(granted) => Ok(granted),
        ExchangeOutcome::RequestFailed => Err(RefreshError::RequestFailed),
        ExchangeOutcome::UnreadableResponse => Err(RefreshError::UnreadableResponse),
    }
}

/// Takes the record that the exchange of an authorization code yielded.
pub fn authorized(outcome: ExchangeOutcome) -> (record: Result<TokenRecord, AuthorizationError>)
    ensures
        record == match outcome {
            ExchangeOutcome::Granted(granted) => Ok::<TokenRecord, AuthorizationError>(granted),
            ExchangeOutcome::RequestFailed => Err::<TokenRecord, AuthorizationError>(
                AuthorizationError::RequestFailed,
            ),
            ExchangeOutcome::UnreadableResponse => Err::<TokenRecord, AuthorizationError>(
                AuthorizationError::UnreadableResponse,
            ),
        },
{
    match outcome {
        ExchangeOutcome::Granted(granted) => Ok(granted),
        ExchangeOutcome::RequestFailed => Err(AuthorizationError::RequestFailed),
        ExchangeOutcome::UnreadableResponse => Err(AuthorizationError::UnreadableResponse),
    }
}

/// Makes the request to send the user with, from a verifier and a state
/// token that the caller has. There is none where the verifier's length is
/// outside 43 to 128 bytes, and none where the authorization endpoint or the
/// redirect address is no URL.
pub fn authorization_request(
    credentials: &ClientCredentials,
    verifier: Secret,
    state: String,
) -> (request: Option<AuthorizationRequest>)
    ensures
        match request {
            Some(made) => {
                &&& made.verifier == verifier
                &&& made.state == state
                &&& address_for(*credentials, verifier@, state@) == Some(made.url@)
            },
            None => address_for(*credentials, verifier@, state@).is_none(),
        },
        credentials.can_authorize() && verifier_fits(verifier@) ==> request.is_some(),
{
    let length = verifier.expose().as_str().as_bytes().len();
    if length < 43 || length > 128 {
        return None;
    }
    let url = authorization_url_of(
        credentials,
        "heartrate",
        verifier.expose().as_str(),
        state.as_str(),
    );
    match url {
        Some(url) => Some(AuthorizationRequest { url, verifier, state }),
        None => None,
    }
}

/// Begins an authorization: draws a fresh verifier and a fresh state
/// token, and makes the request to send the user with. There is none where
/// the authorization endpoint or the redirect address is no URL.
pub fn begin_authorization(credentials: &ClientCredentials) -> (request: Option<
    AuthorizationRequest,
>)
    ensures
        request.is_some() == credentials.can_authorize(),
        request matches Some(made) ==> address_for(*credentials, made.verifier@, made.state@)
            == Some(made.url@),
{
    let verifier = Secret::new(fresh_verifier());
    let state = fresh_state();
    authorization_request(credentials, verifier, state)
}

/// Plans the exchange of the code that the user entered, with the blanks
/// around it taken off.
pub fn code_exchange(
    credentials: &ClientCredentials,
    request: &AuthorizationRequest,
    entered: &str,
) -> (exchange: CodeExchange)
    ensures
        is_trimmed_from(exchange.code@, entered@),
        exchange.verifier == request.verifier,
        exchange.credentials == *credentials,
{
    CodeExchange {
        credentials: credentials.copy(),
        code: Secret::new(String::from_str(trimmed(entered))),
        verifier: request.verifier.copy(),
    }
}

/// oauth2's `PkceCodeChallenge::new_random_sha256`, of which the verifier
/// is kept: a fresh random text each time, the unpadded base64 of 32
/// bytes, which is 43 bytes long.
#[verifier::external_body]
fn fresh_verifier() -> (verifier: String)
    ensures
        verifier_fits(verifier@),
{
    oauth2::PkceCodeChallenge::new_random_sha256().1.secret().clone()
}

/// oauth2's `CsrfToken::new_random`: a fresh random text each time.
#[verifier::external_body]
fn fresh_state() -> (state: String)
{
    oauth2::CsrfToken::new_random().secret().clone()
}

/// oauth2's `Client::authorize_url` and `AuthorizationRequest::url`, for a
/// client made of the credentials' id and addresses, with the scope, the state
/// and the challenge that `PkceCodeChallenge::from_code_verifier_sha256`
/// makes of the verifier. That function stops on a verifier shorter than 43
/// or longer than 128 bytes. `AuthUrl::new` and `RedirectUrl::new` accept
/// `RedirectUrl::new` accepts the same texts, and there is an address
/// exactly where each accepts its own.
#[verifier::external_body]
fn authorization_url_of(by: &ClientCredentials, scope: &str, verifier: &str, state: &str) -> (url: Option<String>)
    requires
        verifier_fits(verifier@),
    ensures
        url.is_some() == by.can_authorize(),
        url matches Some(made) ==> made@ == authorization_url(
            by.client_id@,
            by.authorization_endpoint@,
            chars_of(by.redirect_uri),
            scope@,
            verifier@,
            state@,
        ),
{
    let endpoint = AuthUrl::new(by.authorization_endpoint.clone()).ok()?;
    let client = BasicClient::new(ClientId::new(by.client_id.clone()), None, endpoint, None);
    let client = match &by.redirect_uri {
        Some(address) => client.set_redirect_uri(RedirectUrl::new(address.clone()).ok()?),
        None => client,
    };
    let state = CsrfToken::new(state.to_string());
    let challenge = PkceCodeChallenge::from_code_verifier_sha256(&PkceCodeVerifier::new(verifier.to_string()));
    let request = client.authorize_url(move || state).add_scope(Scope::new(scope.to_string()));
    Some(request.set_pkce_challenge(challenge).url().0.to_string())
}

/// std's `str::trim`, which takes the leading and the trailing blanks off a
/// text.
#[verifier::external_body]
fn trimmed(text: &str) -> (rest: &str)
    ensures
        exists|skipped: int| is_cut_of(rest@, text@, skipped),
        rest@.len() > 0 ==> !is_blank(rest@[0]) && !is_blank(rest@.last()),
{
    text.trim()
}

} // verus!
