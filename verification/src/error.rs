//! What can go wrong, by the step at which it does.

use vstd::prelude::*;

verus! {

/// A value that the configuration must hold.
#[derive(Clone, Copy, Debug, PartialEq, Eq, Structural)]
pub enum Setting {
    ClientId,
    ClientSecret,
    ClientSecretReference,
    AuthorizationUrl,
    TokenUrl,
    RedirectUrl,
    BucketName,
}

/// A configuration value is missing or is not what it must be.
#[derive(Clone, Copy, Debug, PartialEq, Eq, Structural)]
pub enum ConfigurationError {
    /// The value is not set.
    Missing(Setting),
    /// The value is set and cannot be used: an address that is no URL, a
    /// secret that does not hold what it should.
    Invalid(Setting),
}

/// The exchange of an authorization code for a token failed.
#[derive(Clone, Copy, Debug, PartialEq, Eq, Structural)]
pub enum AuthorizationError {
    /// The request to the token endpoint failed.
    RequestFailed,
    /// The token endpoint answered with something that is no token.
    UnreadableResponse,
}

/// The refresh grant failed.
#[derive(Clone, Copy, Debug, PartialEq, Eq, Structural)]
pub enum RefreshError {
    /// The request to the token endpoint failed.
    RequestFailed,
    /// The token endpoint answered with something that is no token.
    UnreadableResponse,
}

/// The record to refresh holds no refresh token.
#[derive(Clone, Copy, Debug, PartialEq, Eq, Structural)]
pub struct MissingRefreshTokenError;

/// The stored token record cannot be had or cannot be kept.
#[derive(Clone, Copy, Debug, PartialEq, Eq, Structural)]
pub enum PersistenceError {
    /// Nothing is stored under the record's key.
    Absent,
    /// What is stored is no token record.
    Malformed,
    /// The record has no stored form that reads back as the same record.
    Unstorable,
    /// The store did not take what was written.
    WriteFailed,
}

/// The heart-rate data could not be fetched.
#[derive(Clone, Copy, Debug, PartialEq, Eq, Structural)]
pub enum FetchError {
    /// The request did not reach the provider, or no answer came back.
    RequestFailed,
    /// The provider answered with this status, which is no success.
    Status(u16),
    /// The answer is not a heart-rate document.
    Malformed,
    /// There is no day before the given one to ask for.
    NoSuchDay,
}

/// Any failure of a run.
#[derive(Clone, Copy, Debug, PartialEq, Eq, Structural)]
pub enum Failure {
    Authorization(AuthorizationError),
    Refresh(RefreshError),
    MissingRefreshToken(MissingRefreshTokenError),
    Persistence(PersistenceError),
    Fetch(FetchError),
    Configuration(ConfigurationError),
}

impl From<AuthorizationError> for Failure {
    /// The failure of a run that a failed authorization is.
    fn from(error: AuthorizationError) -> (failure: Failure) {
        Failure::Authorization(error)
    }
}

impl vstd::std_specs::convert::FromSpecImpl<AuthorizationError> for Failure {
    open spec fn obeys_from_spec() -> bool {
        true
    }

    open spec fn from_spec(error: AuthorizationError) -> Failure {
        Failure::Authorization(error)
    }
}

impl From<RefreshError> for Failure {
    /// The failure of a run that a failed refresh is.
    fn from(error: RefreshError) -> (failure: Failure) {
        Failure::Refresh(error)
    }
}

impl vstd::std_specs::convert::FromSpecImpl<RefreshError> for Failure {
    open spec fn obeys_from_spec() -> bool {
        true
    }

    open spec fn from_spec(error: RefreshError) -> Failure {
        Failure::Refresh(error)
    }
}

impl From<MissingRefreshTokenError> for Failure {
    /// The failure of a run that a missing refresh token is.
    fn from(error: MissingRefreshTokenError) -> (failure: Failure) {
        Failure::MissingRefreshToken(error)
    }
}

impl vstd::std_specs::convert::FromSpecImpl<MissingRefreshTokenError> for Failure {
    open spec fn obeys_from_spec() -> bool {
        true
    }

    open spec fn from_spec(error: MissingRefreshTokenError) -> Failure {
        Failure::MissingRefreshToken(error)
    }
}

impl From<PersistenceError> for Failure {
    /// The failure of a run that a failure of the store is.
    fn from(error: PersistenceError) -> (failure: Failure) {
        Failure::Persistence(error)
    }
}

impl vstd::std_specs::convert::FromSpecImpl<PersistenceError> for Failure {
    open spec fn obeys_from_spec() -> bool {
        true
    }

    open spec fn from_spec(error: PersistenceError) -> Failure {
        Failure::Persistence(error)
    }
}

impl From<FetchError> for Failure {
    /// The failure of a run that a failed fetch is.
    fn from(error: FetchError) -> (failure: Failure) {
        Failure::Fetch(error)
    }
}

impl vstd::std_specs::convert::FromSpecImpl<FetchError> for Failure {
    open spec fn obeys_from_spec() -> bool {
        true
    }

    open spec fn from_spec(error: FetchError) -> Failure {
        Failure::Fetch(error)
    }
}

impl From<ConfigurationError> for Failure {
    /// The failure of a run that a fault of the configuration is.
    fn from(error: ConfigurationError) -> (failure: Failure) {
        Failure::Configuration(error)
    }
}

impl vstd::std_specs::convert::FromSpecImpl<ConfigurationError> for Failure {
    open spec fn obeys_from_spec() -> bool {
        true
    }

    open spec fn from_spec(error: ConfigurationError) -> Failure {
        Failure::Configuration(error)
    }
}

} // verus!
