//! The token record: what it holds, how it is stored and read back.

use crate::error::PersistenceError;
use crate::secret::Secret;
use crate::store::stored_bytes;
use oauth2::basic::{BasicTokenResponse, BasicTokenType};
use oauth2::{AccessToken, EmptyExtraTokenFields, RefreshToken, Scope, TokenResponse};
use std::time::Duration;
use vstd::prelude::*;

verus! {

/// The kind of a token, as the token endpoint names it.
#[derive(Clone, Debug, PartialEq, Eq)]
pub enum TokenKind {
    /// A bearer token.
    Bearer,
    /// A token for message authentication codes.
    Mac,
    /// Any other kind, by its name.
    Extension(String),
}

/// The kind of a token, with its name as a sequence of characters.
pub enum TokenKindView {
    Bearer,
    Mac,
    Extension(Seq<char>),
}

impl View for TokenKind {
    type V = TokenKindView;

    open spec fn view(&self) -> TokenKindView {
        match self {
            TokenKind::Bearer => TokenKindView::Bearer,
            TokenKind::Mac => TokenKindView::Mac,
            TokenKind::Extension(name) => TokenKindView::Extension(name@),
        }
    }
}

/// What the token endpoint grants: the access token, the refresh token with
/// which the next record is had, the token's kind, its lifetime in seconds
/// and the scopes it covers.
#[derive(Clone, PartialEq, Eq)]
pub struct TokenRecord {
    pub access_token: Secret,
    pub refresh_token: Option<Secret>,
    pub token_type: TokenKind,
    pub expires_in: Option<u64>,
    pub scopes: Option<Vec<String>>,
}

/// A token record, with its texts as sequences of characters.
pub struct TokenRecordView {
    pub access_token: Seq<char>,
    pub refresh_token: Option<Seq<char>>,
    pub token_type: TokenKindView,
    pub expires_in: Option<u64>,
    pub scopes: Option<Seq<Seq<char>>>,
}

/// The texts of `names` as sequences of characters.
pub open spec fn texts_of(names: Seq<String>) -> Seq<Seq<char>> {
    Seq::new(names.len(), |at: int| names[at]@)
}

impl View for TokenRecord {
    type V = TokenRecordView;

    open spec fn view(&self) -> TokenRecordView {
        TokenRecordView {
            access_token: self.access_token@,
            refresh_token: match self.refresh_token {
                Some(token) => Some(token@),
                None => None,
            },
            token_type: self.token_type@,
            expires_in: self.expires_in,
            scopes: match self.scopes {
                Some(names) => Some(texts_of(names@)),
                None => None,
            },
        }
    }
}

impl TokenRecordView {
    /// The record can be used to call the provider: its access token is
    /// not empty.
    pub open spec fn is_usable(self) -> bool {
        self.access_token.len() > 0
    }

    /// The record can be refreshed: it holds a refresh token.
    pub open spec fn can_refresh(self) -> bool {
        self.refresh_token.is_some()
    }
}

/// The record that serde_json's `from_slice` reads from `bytes` at oauth2's
/// `BasicTokenResponse`; `None` where it refuses them.
pub uninterp spec fn token_decoded(bytes: Seq<u8>) -> Option<TokenRecordView>;

/// The bytes of the text that serde_json's `to_string_pretty` writes for
/// `record` held as oauth2's `BasicTokenResponse`; `None` where it fails.
pub uninterp spec fn token_encoded(record: TokenRecordView) -> Option<Seq<u8>>;

/// What loading yields from what is stored under the record's key: the
/// record that the bytes hold, `Absent` where nothing is stored, `Malformed`
/// where the bytes hold no record.
pub open spec fn load_outcome(stored: Option<Seq<u8>>) -> Result<TokenRecordView, PersistenceError> {
    match stored {
        None => Err(PersistenceError::Absent),
        Some(bytes) => match token_decoded(bytes) {
            Some(record) => Ok(record),
            None => Err(PersistenceError::Malformed),
        },
    }
}

/// What saving yields for `record`: the bytes to store, which are its
/// written form where that form reads back as `record`, and `Unstorable`
/// where there is no such form.
pub open spec fn save_outcome(record: TokenRecordView) -> Result<Seq<u8>, PersistenceError> {
    match token_encoded(record) {
        Some(bytes) => if token_decoded(bytes) == Some(record) {
            Ok(bytes)
        } else {
            Err(PersistenceError::Unstorable)
        },
        None => Err(PersistenceError::Unstorable),
    }
}

/// Saving a record and loading what was saved gives the same record back.
pub proof fn lemma_save_then_load(record: TokenRecordView, saved: Seq<u8>)
    requires
        save_outcome(record) == Ok::<Seq<u8>, PersistenceError>(saved),
    ensures
        load_outcome(Some(saved)) == Ok::<TokenRecordView, PersistenceError>(record),
{
}

/// A record that was loaded and is saved again loads as the same record.
pub proof fn lemma_load_save_load(stored: Seq<u8>, record: TokenRecordView, saved: Seq<u8>)
    requires
        load_outcome(Some(stored)) == Ok::<TokenRecordView, PersistenceError>(record),
        save_outcome(record) == Ok::<Seq<u8>, PersistenceError>(saved),
    ensures
        load_outcome(Some(saved)) == load_outcome(Some(stored)),
{
}

/// Whether two secrets that may be missing are the same.
fn same_secret(left: &Option<Secret>, right: &Option<Secret>) -> (same: bool)
    ensures
        same == (match (left, right) {
            (Some(a), Some(b)) => a@ == b@,
            (None, None) => true,
            _ => false,
        }),
{
    match (left, right) {
        (Some(a), Some(b)) => a.same_as(b),
        (None, None) => true,
        _ => false,
    }
}

/// Whether two lists of texts are the same.
fn same_texts(left: &Vec<String>, right: &Vec<String>) -> (same: bool)
    ensures
        same == (texts_of(left@) == texts_of(right@)),
{
    if left.len() != right.len() {
        assert(texts_of(left@).len() != texts_of(right@).len());
        return false;
    }
    let mut at: usize = 0;
    while at < left.len()
        invariant
            at <= left.len(),
            left.len() == right.len(),
            forall|k: int| 0 <= k < at ==> left@[k]@ == right@[k]@,
        decreases left.len() - at,
    {
        if left[at] != right[at] {
            assert(texts_of(left@)[at as int] != texts_of(right@)[at as int]);
            return false;
        }
        at += 1;
    }
    assert(texts_of(left@) =~= texts_of(right@));
    true
}

impl TokenKind {
    /// Whether `self` and `other` are the same kind.
    pub fn same_as(&self, other: &TokenKind) -> (same: bool)
        ensures
            same == (self@ == other@),
    {
        match (self, other) {
            (TokenKind::Bearer, TokenKind::Bearer) => true,
            (TokenKind::Mac, TokenKind::Mac) => true,
            (TokenKind::Extension(a), TokenKind::Extension(b)) => *a == *b,
            _ => false,
        }
    }
}

impl TokenRecord {
    /// Whether the record can be used to call the provider.
    pub fn is_usable(&self) -> (usable: bool)
        ensures
            usable == self@.is_usable(),
    {
        !self.access_token.is_empty()
    }

    /// Whether the record can be refreshed.
    pub fn can_refresh(&self) -> (able: bool)
        ensures
            able == self@.can_refresh(),
    {
        self.refresh_token.is_some()
    }

    /// Whether `self` and `other` hold the same values.
    pub fn same_as(&self, other: &TokenRecord) -> (same: bool)
        ensures
            same == (self@ == other@),
    {
        let scopes = match (&self.scopes, &other.scopes) {
            (Some(a), Some(b)) => same_texts(a, b),
            (None, None) => true,
            _ => false,
        };
        self.access_token.same_as(&other.access_token) && same_secret(
            &self.refresh_token,
            &other.refresh_token,
        ) && self.token_type.same_as(&other.token_type) && self.expires_in == other.expires_in
            && scopes
    }

    /// Decides what a read of the record's key has yielded, given what the
    /// stored bytes were read as.
    pub fn loaded(found: bool, read: Option<TokenRecord>) -> (outcome: Result<
        TokenRecord,
        PersistenceError,
    >)
        ensures
            outcome == if !found {
                Err::<TokenRecord, PersistenceError>(PersistenceError::Absent)
            } else {
                match read {
                    Some(record) => Ok::<TokenRecord, PersistenceError>(record),
                    None => Err::<TokenRecord, PersistenceError>(PersistenceError::Malformed),
                }
            },
    {
        if !found {
            Err(PersistenceError::Absent)
        } else {
            match read {
                Some(record) => Ok(record),
                None => Err(PersistenceError::Malformed),
            }
        }
    }

    /// Loads the record from what is stored under its key, `None` standing
    /// for a key under which nothing is stored.
    pub fn load(stored: Option<&[u8]>) -> (outcome: Result<TokenRecord, PersistenceError>)
        ensures
            match outcome {
                Ok(record) => load_outcome(stored_bytes(stored)) == Ok::<
                    TokenRecordView,
                    PersistenceError,
                >(record@),
                Err(error) => load_outcome(stored_bytes(stored)) == Err::<
                    TokenRecordView,
                    PersistenceError,
                >(error),
            },
    {
        match stored {
            Some(bytes) => TokenRecord::loaded(true, decode_token(bytes)),
            None => TokenRecord::loaded(false, None),
        }
    }

    /// Decides what is stored for the record, given its written form and
    /// what that form was read back as.
    pub fn checked(&self, written: Option<Vec<u8>>, read_back: Option<TokenRecord>) -> (outcome:
        Result<Vec<u8>, PersistenceError>)
        ensures
            outcome == match (written, read_back) {
                (Some(bytes), Some(record)) => if record@ == self@ {
                    Ok::<Vec<u8>, PersistenceError>(bytes)
                } else {
                    Err::<Vec<u8>, PersistenceError>(PersistenceError::Unstorable)
                },
                _ => Err::<Vec<u8>, PersistenceError>(PersistenceError::Unstorable),
            },
    {
        match (written, read_back) {
            (Some(bytes), Some(record)) => {
                if record.same_as(self) {
                    Ok(bytes)
                } else {
                    Err(PersistenceError::Unstorable)
                }
            },
            _ => Err(PersistenceError::Unstorable),
        }
    }

    /// Gives the bytes to store under the record's key. They replace what
    /// was stored before. A record whose written form would not read back
    /// as the same record is refused.
    pub fn save(&self) -> (outcome: Result<Vec<u8>, PersistenceError>)
        ensures
            match outcome {
                Ok(bytes) => save_outcome(self@) == Ok::<Seq<u8>, PersistenceError>(bytes@),
                Err(error) => save_outcome(self@) == Err::<Seq<u8>, PersistenceError>(error),
            },
    {
        let written = encode_token(self);
        let read_back = match &written {
            Some(bytes) => decode_token(bytes.as_slice()),
            None => None,
        };
        self.checked(written, read_back)
    }
}

/// serde_json's `from_slice` at oauth2's `BasicTokenResponse`, whose fields
/// are then handed on one by one: the secrets of the access and refresh
/// tokens, the token type by its variant, the lifetime in whole seconds and
/// the names of the scopes.
#[verifier::external_body]
pub(crate) fn decode_token(bytes: &[u8]) -> (record: Option<TokenRecord>)
    ensures
        match record {
            Some(read) => token_decoded(bytes@) == Some(read@),
            None => token_decoded(bytes@).is_none(),
        },
{
    serde_json::from_slice::<BasicTokenResponse>(bytes).ok().map(|read| TokenRecord {
        access_token: Secret { text: read.access_token().secret().clone() },
        refresh_token: read.refresh_token().map(|token| Secret { text: token.secret().clone() }),
        token_type: match read.token_type() {
            BasicTokenType::Bearer => TokenKind::Bearer,
            BasicTokenType::Mac => TokenKind::Mac,
            BasicTokenType::Extension(name) => TokenKind::Extension(name.clone()),
        },
        expires_in: read.expires_in().map(|lifetime| lifetime.as_secs()),
        scopes: read.scopes().map(|scopes| scopes.iter().map(|scope| scope.to_string()).collect()),
    })
}

/// serde_json's `to_string_pretty` on an oauth2 `BasicTokenResponse` that is
/// made of the record's fields one by one, the lifetime as whole seconds;
/// the text is handed on as its bytes.
#[verifier::external_body]
pub(crate) fn encode_token(record: &TokenRecord) -> (bytes: Option<Vec<u8>>)
    ensures
        match bytes {
            Some(written) => token_encoded(record@) == Some(written@),
            None => token_encoded(record@).is_none(),
        },
{
    let kind = match &record.token_type {
        TokenKind::Bearer => BasicTokenType::Bearer,
        TokenKind::Mac => BasicTokenType::Mac,
        TokenKind::Extension(name) => BasicTokenType::Extension(name.clone()),
    };
    let access = AccessToken::new(record.access_token.text.clone());
    let mut held = BasicTokenResponse::new(access, kind, EmptyExtraTokenFields {});
    held.set_expires_in(record.expires_in.map(Duration::from_secs).as_ref());
    held.set_refresh_token(record.refresh_token.clone().map(|token| RefreshToken::new(token.text)));
    held.set_scopes(record.scopes.clone().map(|names| names.into_iter().map(Scope::new).collect()));
    serde_json::to_string_pretty(&held).ok().map(String::into_bytes)
}

} // verus!
