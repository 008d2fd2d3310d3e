use fitbit_hr::error::{
    AuthorizationError, ConfigurationError, Failure, FetchError, MissingRefreshTokenError,
    PersistenceError, RefreshError, Setting,
};

#[test]
fn every_error_is_a_failure_of_its_kind() {
    assert_eq!(
        Failure::from(AuthorizationError::RequestFailed),
        Failure::Authorization(AuthorizationError::RequestFailed)
    );
    assert_eq!(
        Failure::from(AuthorizationError::UnreadableResponse),
        Failure::Authorization(AuthorizationError::UnreadableResponse)
    );
    assert_eq!(
        Failure::from(RefreshError::RequestFailed),
        Failure::Refresh(RefreshError::RequestFailed)
    );
    assert_eq!(
        Failure::from(RefreshError::UnreadableResponse),
        Failure::Refresh(RefreshError::UnreadableResponse)
    );
    assert_eq!(
        Failure::from(MissingRefreshTokenError),
        Failure::MissingRefreshToken(MissingRefreshTokenError)
    );
    assert_eq!(
        Failure::from(PersistenceError::Absent),
        Failure::Persistence(PersistenceError::Absent)
    );
    assert_eq!(
        Failure::from(PersistenceError::WriteFailed),
        Failure::Persistence(PersistenceError::WriteFailed)
    );
    assert_eq!(Failure::from(FetchError::Status(503)), Failure::Fetch(FetchError::Status(503)));
    assert_eq!(Failure::from(FetchError::Malformed), Failure::Fetch(FetchError::Malformed));
    assert_eq!(
        Failure::from(ConfigurationError::Missing(Setting::BucketName)),
        Failure::Configuration(ConfigurationError::Missing(Setting::BucketName))
    );
    assert_eq!(
        Failure::from(ConfigurationError::Invalid(Setting::TokenUrl)),
        Failure::Configuration(ConfigurationError::Invalid(Setting::TokenUrl))
    );
}

#[test]
fn failures_of_different_kinds_differ() {
    assert_ne!(
        Failure::from(AuthorizationError::RequestFailed),
        Failure::from(RefreshError::RequestFailed)
    );
    assert_ne!(Failure::from(FetchError::Status(500)), Failure::from(FetchError::Status(501)));
    let failed: Result<(), PersistenceError> = Err(PersistenceError::Malformed);
    let carried: Result<(), Failure> = failed.map_err(Failure::from);
    assert_eq!(carried, Err(Failure::Persistence(PersistenceError::Malformed)));
}
