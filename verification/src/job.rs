//! The scheduled run, step by step. Each step takes what the step before
//! asked for and names what is to be done next; the caller does it and
//! comes back with the result. The record is refreshed before anything is
//! fetched, whatever its age, and the first failure ends the run.

use crate::calendar::{iso_text_of, Date};
use crate::config::{address_of, client_secret_from, client_secret_of, first_fault};
use crate::config::{ClientCredentials, JobSettings};
use crate::error::{ConfigurationError, Failure, FetchError, MissingRefreshTokenError};
use crate::error::{PersistenceError, RefreshError};
use crate::grant::{refresh_request, refreshed, ExchangeOutcome, RefreshRequest};
use crate::heart::{fetch_outcome, readings_from_answer, HeartReading};
use crate::secret::Secret;
use crate::store::{stored_bytes, ObjectRead, ObjectWrite, SecretLookup};
use crate::token::{load_outcome, save_outcome, TokenRecord, TokenRecordView};
use vstd::prelude::*;

verus! {

/// A request to the provider for the heart rates of one day.
#[derive(Clone, PartialEq, Eq)]
pub struct HeartRequest {
    /// The address to get.
    pub url: String,
    /// The value of the `Authorization` header.
    pub authorization: Secret,
}

/// The provider's answer to a request.
#[derive(Clone, Debug, PartialEq, Eq)]
pub struct HttpAnswer {
    pub status: u16,
    pub body: Vec<u8>,
}

/// The key under which the token record is kept.
pub open spec fn token_key() -> Seq<char> {
    "token.json"@
}

/// The key under which the answer for `date` is kept.
pub open spec fn archive_key(date: Date) -> Seq<char> {
    "days/"@ + date.iso_text() + ".json"@
}

/// The address of the heart rates of `date`, minute by minute.
pub open spec fn heart_url(date: Date) -> Seq<char> {
    "https://api.fitbit.com/1/user/-/activities/heart/date/"@ + date.iso_text() + "/1d.json"@
}

/// The `Authorization` header that presents `access_token`.
pub open spec fn bearer(access_token: Seq<char>) -> Seq<char> {
    "Bearer "@ + access_token
}

/// The failure that a refused write is.
pub open spec fn write_outcome(done: bool) -> Result<(), Failure> {
    if done {
        Ok(())
    } else {
        Err(Failure::Persistence(PersistenceError::WriteFailed))
    }
}

/// Makes the request for the heart rates of `date`; none for a value that
/// is no date.
pub fn heart_request(access_token: &Secret, date: Date) -> (request: Option<HeartRequest>)
    ensures
        match request {
            Some(made) => {
                &&& date.is_valid()
                &&& made.url@ == heart_url(date)
                &&& made.authorization@ == bearer(access_token@)
            },
            None => !date.is_valid(),
        },
{
    match iso_text_of(date) {
        Some(day) => {
            let mut url = String::from_str("https://api.fitbit.com/1/user/-/activities/heart/date/");
            url.append(day.as_str());
            url.append("/1d.json");
            let mut authorization = String::from_str("Bearer ");
            authorization.append(access_token.expose().as_str());
            Some(HeartRequest { url, authorization: Secret::new(authorization) })
        },
        None => None,
    }
}

/// Makes the write that keeps the answer for `date`; none for a value that
/// is no date.
pub fn archive_write(bucket: String, date: Date, body: Vec<u8>) -> (write: Option<ObjectWrite>)
    ensures
        match write {
            Some(made) => {
                &&& date.is_valid()
                &&& made.bucket == bucket
                &&& made.key@ == archive_key(date)
                &&& made.body == body
            },
            None => !date.is_valid(),
        },
{
    match iso_text_of(date) {
        Some(day) => {
            let mut key = String::from_str("days/");
            key.append(day.as_str());
            key.append(".json");
            Some(ObjectWrite { bucket, key, body })
        },
        None => None,
    }
}

/// Tells whether a write was taken.
pub fn confirm_write(done: bool) -> (outcome: Result<(), Failure>)
    ensures
        outcome == write_outcome(done),
{
    if done {
        Ok(())
    } else {
        Err(Failure::Persistence(PersistenceError::WriteFailed))
    }
}

/// A run that waits for the client's secret.
#[derive(Clone, Debug, PartialEq, Eq)]
pub struct Job {
    pub settings: JobSettings,
    pub today: Date,
}

/// A run that waits for the stored token record.
#[derive(Clone, PartialEq, Eq)]
pub struct TokenLoad {
    pub credentials: ClientCredentials,
    pub bucket: String,
    pub today: Date,
}

/// A run that waits for the refresh grant.
#[derive(Clone, Debug, PartialEq, Eq)]
pub struct Refresh {
    pub bucket: String,
    pub today: Date,
}

/// A run that waits for the refreshed record to be stored.
#[derive(Clone, PartialEq, Eq)]
pub struct TokenSave {
    pub access_token: Secret,
    pub bucket: String,
    pub today: Date,
}

/// A run that waits for the provider's answer.
#[derive(Clone, Debug, PartialEq, Eq)]
pub struct Fetch {
    pub bucket: String,
    pub date: Date,
}

/// A run that waits for the answer to be stored.
#[derive(Clone, Copy, Debug, PartialEq, Eq, Structural)]
pub struct Archive;

impl Job {
    /// Begins a run on the day `today`: the client's secret is looked up
    /// first.
    pub fn start(settings: JobSettings, today: Date) -> (begun: (Job, SecretLookup))
        ensures
            begun.0 == (Job { settings, today }),
            begun.1.reference == settings.secret_reference,
    {
        let reference = settings.secret_reference.clone();
        (Job { settings, today }, SecretLookup { reference })
    }

    /// Takes the text of the client's secret, `None` where the store holds
    /// none, and asks for the stored token record.
    pub fn secret_read(self, text: Option<&[u8]>) -> (outcome: Result<
        (TokenLoad, ObjectRead),
        Failure,
    >)
        ensures
            match outcome {
                Ok((next, read)) => {
                    &&& client_secret_of(stored_bytes(text)) matches Ok(secret)
                        && next.credentials.client_secret@ == secret@
                    &&& next.credentials.client_id == self.settings.client_id
                    &&& next.credentials.authorization_endpoint
                        == self.settings.authorization_endpoint
                    &&& next.credentials.token_endpoint == self.settings.token_endpoint
                    &&& next.credentials.redirect_uri.is_none()
                    &&& next.credentials.is_valid()
                    &&& next.bucket == self.settings.bucket
                    &&& next.today == self.today
                    &&& read.bucket == self.settings.bucket
                    &&& read.key@ == token_key()
                },
                Err(failure) => match client_secret_of(stored_bytes(text)) {
                    Err(error) => failure == Failure::Configuration(error),
                    Ok(_) => Some(failure) == match first_fault(
                        true,
                        true,
                        address_of(Some(self.settings.authorization_endpoint)),
                        address_of(Some(self.settings.token_endpoint)),
                    ) {
                        Some(error) => Some(Failure::Configuration(error)),
                        None => None,
                    },
                },
            },
    {
        let secret = match client_secret_from(text) {
            Ok(secret) => secret,
            Err(error) => { return Err(Failure::Configuration(error)); },
        };
        let bucket = self.settings.bucket;
        let made = ClientCredentials::configure(
            Some(self.settings.client_id),
            Some(secret),
            Some(self.settings.authorization_endpoint),
            Some(self.settings.token_endpoint),
        );
        match made {
            Ok(credentials) => {
                let read = ObjectRead { bucket: bucket.clone(), key: String::from_str("token.json") };
                Ok((TokenLoad { credentials, bucket, today: self.today }, read))
            },
            Err(error) => Err(Failure::Configuration(error)),
        }
    }
}

impl TokenLoad {
    /// Takes what is stored under the record's key, `None` where nothing
    /// is, and asks for the refresh grant. A record that cannot be read,
    /// or that holds no refresh token, ends the run with nothing sent.
    pub fn token_read(self, stored: Option<&[u8]>) -> (outcome: Result<
        (Refresh, RefreshRequest),
        Failure,
    >)
        ensures
            match outcome {
                Ok((next, request)) => {
                    &&& load_outcome(stored_bytes(stored)) matches Ok(record)
                        && record.refresh_token == Some(request.refresh_token@)
                    &&& request.credentials == self.credentials
                    &&& next.bucket == self.bucket
                    &&& next.today == self.today
                },
                Err(failure) => match load_outcome(stored_bytes(stored)) {
                    Err(error) => failure == Failure::Persistence(error),
                    Ok(record) => !record.can_refresh() && failure == Failure::MissingRefreshToken(
                        MissingRefreshTokenError,
                    ),
                },
            },
    {
        let record = match TokenRecord::load(stored) {
            Ok(record) => record,
            Err(error) => { return Err(Failure::Persistence(error)); },
        };
        match refresh_request(&self.credentials, &record) {
            Ok(request) => Ok((Refresh { bucket: self.bucket, today: self.today }, request)),
            Err(error) => Err(Failure::MissingRefreshToken(error)),
        }
    }
}

impl Refresh {
    /// Takes how the refresh grant ended, and asks for the new record to
    /// be stored in place of the old.
    pub fn granted(self, outcome: ExchangeOutcome) -> (step: Result<
        (TokenSave, ObjectWrite),
        Failure,
    >)
        ensures
            match step {
                Ok((next, write)) => {
                    &&& outcome matches ExchangeOutcome::Granted(record) && save_outcome(record@)
                        == Ok::<Seq<u8>, PersistenceError>(write.body@) && next.access_token@
                        == record.access_token@
                    &&& write.bucket == self.bucket
                    &&& write.key@ == token_key()
                    &&& next.bucket == self.bucket
                    &&& next.today == self.today
                },
                Err(failure) => match outcome {
                    ExchangeOutcome::Granted(record) => save_outcome(record@) matches Err(error)
                        && failure == Failure::Persistence(error),
                    ExchangeOutcome::RequestFailed => failure == Failure::Refresh(
                        RefreshError::RequestFailed,
                    ),
                    ExchangeOutcome::UnreadableResponse => failure == Failure::Refresh(
                        RefreshError::UnreadableResponse,
                    ),
                },
            },
    {
        let record = match refreshed(outcome) {
            Ok(record) => record,
            Err(error) => { return Err(Failure::Refresh(error)); },
        };
        match record.save() {
            Ok(body) => {
                let write = ObjectWrite {
                    bucket: self.bucket.clone(),
                    key: String::from_str("token.json"),
                    body,
                };
                let next = TokenSave {
                    access_token: record.access_token,
                    bucket: self.bucket,
                    today: self.today,
                };
                Ok((next, write))
            },
            Err(error) => Err(Failure::Persistence(error)),
        }
    }
}

impl TokenSave {
    /// Takes whether the record was stored, and asks the provider for the
    /// heart rates of the day before today.
    pub fn written(self, done: bool) -> (step: Result<(Fetch, HeartRequest), Failure>)
        ensures
            match step {
                Ok((next, request)) => {
                    &&& done
                    &&& self.today.is_valid() && self.today != Date::first()
                    &&& next.date == self.today.previous()
                    &&& next.bucket == self.bucket
                    &&& request.url@ == heart_url(self.today.previous())
                    &&& request.authorization@ == bearer(self.access_token@)
                },
                Err(failure) => if !done {
                    failure == Failure::Persistence(PersistenceError::WriteFailed)
                } else {
                    failure == Failure::Fetch(FetchError::NoSuchDay) && !(self.today.is_valid()
                        && self.today != Date::first())
                },
            },
    {
        match confirm_write(done) {
            Ok(_) => {},
            Err(failure) => { return Err(failure); },
        }
        let date = match self.today.previous_day() {
            Some(date) => date,
            None => { return Err(Failure::Fetch(FetchError::NoSuchDay)); },
        };
        proof {
            crate::calendar::lemma_previous_is_one_day_earlier(self.today);
        }
        match heart_request(&self.access_token, date) {
            Some(request) => Ok((Fetch { bucket: self.bucket, date }, request)),
            None => Err(Failure::Fetch(FetchError::NoSuchDay)),
        }
    }
}

impl Fetch {
    /// Takes the provider's answer, `None` where none came, and asks for
    /// its body to be stored under the day's key as it came, in place of
    /// what the key held. The answer must be a success that holds the
    /// day's readings.
    pub fn answered(self, answer: Option<HttpAnswer>) -> (step: Result<
        (Archive, ObjectWrite),
        Failure,
    >)
        ensures
            match step {
                Ok((next, write)) => {
                    &&& answer matches Some(given) && fetch_outcome(given.status, given.body@).is_ok()
                        && write.body == given.body
                    &&& self.date.is_valid()
                    &&& write.bucket == self.bucket
                    &&& write.key@ == archive_key(self.date)
                },
                Err(failure) => match answer {
                    None => failure == Failure::Fetch(FetchError::RequestFailed),
                    Some(given) => match fetch_outcome(given.status, given.body@) {
                        Err(error) => failure == Failure::Fetch(error),
                        Ok(_) => failure == Failure::Fetch(FetchError::NoSuchDay)
                            && !self.date.is_valid(),
                    },
                },
            },
    {
        let given = match answer {
            Some(given) => given,
            None => { return Err(Failure::Fetch(FetchError::RequestFailed)); },
        };
        match readings_from_answer(given.status, given.body.as_slice()) {
            Ok(_) => {},
            Err(error) => { return Err(Failure::Fetch(error)); },
        }
        match archive_write(self.bucket, self.date, given.body) {
            Some(write) => Ok((Archive, write)),
            None => Err(Failure::Fetch(FetchError::NoSuchDay)),
        }
    }
}

impl Archive {
    /// Takes whether the answer was stored, which ends the run.
    pub fn written(self, done: bool) -> (outcome: Result<(), Failure>)
        ensures
            outcome == write_outcome(done),
    {
        confirm_write(done)
    }
}

} // verus!
