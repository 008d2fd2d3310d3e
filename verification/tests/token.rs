use fitbit_hr::error::PersistenceError;
use fitbit_hr::secret::Secret;
use fitbit_hr::token::{TokenKind, TokenRecord};

fn secret(text: &str) -> Secret {
    Secret::new(text.to_string())
}

const STORED: &str = "{\n  \"access_token\": \"abc\",\n  \"token_type\": \"bearer\",\n  \"expires_in\": 28800,\n  \"refresh_token\": \"def\",\n  \"scope\": \"heartrate\"\n}";

fn record() -> TokenRecord {
    TokenRecord {
        access_token: secret("abc"),
        refresh_token: Some(secret("def")),
        token_type: TokenKind::Bearer,
        expires_in: Some(28_800),
        scopes: Some(vec!["heartrate".to_string()]),
    }
}

#[test]
fn load_reads_every_field() {
    assert!(TokenRecord::load(Some(STORED.as_bytes())) == Ok(record()));
}

#[test]
fn load_takes_the_provider_casing_of_the_token_type() {
    let stored = "{\"access_token\":\"abc\",\"token_type\":\"Bearer\"}";
    assert!(TokenRecord::load(Some(stored.as_bytes())) == Ok(TokenRecord {
            access_token: secret("abc"),
            refresh_token: None,
            token_type: TokenKind::Bearer,
            expires_in: None,
            scopes: None,
        }));
    let mac = "{\"access_token\":\"abc\",\"token_type\":\"MAC\",\"scope\":\"heartrate sleep\"}";
    assert!(TokenRecord::load(Some(mac.as_bytes())) == Ok(TokenRecord {
            access_token: secret("abc"),
            refresh_token: None,
            token_type: TokenKind::Mac,
            expires_in: None,
            scopes: Some(vec!["heartrate".to_string(), "sleep".to_string()]),
        }));
    let other = "{\"access_token\":\"abc\",\"token_type\":\"DPoP\"}";
    assert!(TokenRecord::load(Some(other.as_bytes())).map(|read| read.token_type) == Ok(TokenKind::Extension("dpop".to_string())));
}

#[test]
fn save_writes_the_fields_under_the_provider_names() {
    assert!(record().save() == Ok(STORED.as_bytes().to_vec()));
}

#[test]
fn save_leaves_out_what_is_missing() {
    let bare = TokenRecord {
        access_token: secret("abc"),
        refresh_token: None,
        token_type: TokenKind::Mac,
        expires_in: None,
        scopes: None,
    };
    assert!(bare.save() == Ok("{\n  \"access_token\": \"abc\",\n  \"token_type\": \"mac\"\n}".as_bytes().to_vec()));
}

#[test]
fn save_then_load_gives_the_record_back() {
    let records = vec![
        record(),
        TokenRecord { refresh_token: None, ..record() },
        TokenRecord { expires_in: None, ..record() },
        TokenRecord { expires_in: Some(u64::MAX), ..record() },
        TokenRecord { scopes: None, ..record() },
        TokenRecord { scopes: Some(vec!["a".to_string(), "b".to_string()]), ..record() },
        TokenRecord { token_type: TokenKind::Mac, ..record() },
        TokenRecord { token_type: TokenKind::Extension("dpop".to_string()), ..record() },
        TokenRecord { access_token: secret("quote \" and \\ and \u{e9}\n"), ..record() },
        TokenRecord { access_token: secret(""), ..record() },
    ];
    for held in records {
        let saved = held.save().expect("a record that can be stored");
        assert!(TokenRecord::load(Some(&saved)) == Ok(held));
    }
}

#[test]
fn load_then_save_then_load_gives_the_record_back() {
    let stored = "{\"scope\":\"heartrate\",\"refresh_token\":\"r\",\"user_id\":\"X\",\"token_type\":\"Bearer\",\"expires_in\":60,\"access_token\":\"a\"}";
    let first = TokenRecord::load(Some(stored.as_bytes())).expect("a stored record");
    let saved = first.save().expect("a record that can be stored");
    assert!(TokenRecord::load(Some(&saved)) == Ok(first));
}

#[test]
fn save_refuses_a_record_that_would_not_read_back() {
    let shouting = TokenRecord { token_type: TokenKind::Extension("DPoP".to_string()), ..record() };
    assert!(shouting.save() == Err(PersistenceError::Unstorable));
    let disguised = TokenRecord { token_type: TokenKind::Extension("bearer".to_string()), ..record() };
    assert!(disguised.save() == Err(PersistenceError::Unstorable));
    let spaced = TokenRecord { scopes: Some(vec!["heart rate".to_string()]), ..record() };
    assert!(spaced.save() == Err(PersistenceError::Unstorable));
    let none = TokenRecord { scopes: Some(Vec::new()), ..record() };
    assert!(none.save() == Err(PersistenceError::Unstorable));
}

#[test]
fn load_fails_without_an_access_token() {
    let stored = "{\"token_type\":\"bearer\",\"expires_in\":28800,\"refresh_token\":\"def\",\"scope\":\"heartrate\"}";
    assert!(TokenRecord::load(Some(stored.as_bytes())) == Err(PersistenceError::Malformed));
}

#[test]
fn load_fails_on_what_is_no_record() {
    let malformed = [
        "",
        "token",
        "[]",
        "{}",
        "{\"access_token\":\"abc\"}",
        "{\"access_token\":1,\"token_type\":\"bearer\"}",
        "{\"access_token\":\"abc\",\"token_type\":\"bearer\",\"expires_in\":\"soon\"}",
        "{\"access_token\":\"abc\",\"token_type\":\"bearer\"",
    ];
    for stored in malformed {
        assert!(TokenRecord::load(Some(stored.as_bytes())) == Err(PersistenceError::Malformed),
            "{}",
            stored
        );
    }
}

#[test]
fn load_fails_where_nothing_is_stored() {
    assert!(TokenRecord::load(None) == Err(PersistenceError::Absent));
}

#[test]
fn loaded_tells_absent_from_malformed() {
    assert!(TokenRecord::loaded(false, None) == Err(PersistenceError::Absent));
    assert!(TokenRecord::loaded(false, Some(record())) == Err(PersistenceError::Absent));
    assert!(TokenRecord::loaded(true, None) == Err(PersistenceError::Malformed));
    assert!(TokenRecord::loaded(true, Some(record())) == Ok(record()));
}

#[test]
fn checked_keeps_only_what_reads_back_the_same() {
    let held = record();
    let bytes = vec![1u8, 2, 3];
    assert!(held.checked(Some(bytes.clone()), Some(record())) == Ok(bytes.clone()));
    let other = TokenRecord { access_token: secret("abd"), ..record() };
    assert!(held.checked(Some(bytes.clone()), Some(other)) == Err(PersistenceError::Unstorable));
    assert!(held.checked(Some(bytes), None) == Err(PersistenceError::Unstorable));
    assert!(held.checked(None, Some(record())) == Err(PersistenceError::Unstorable));
    assert!(held.checked(None, None) == Err(PersistenceError::Unstorable));
}

#[test]
fn same_as_compares_every_field() {
    let held = record();
    assert!(held.same_as(&record()));
    assert!(!held.same_as(&TokenRecord { access_token: secret("abd"), ..record() }));
    assert!(!held.same_as(&TokenRecord { refresh_token: None, ..record() }));
    assert!(!held.same_as(&TokenRecord { refresh_token: Some(secret("deg")), ..record() }));
    assert!(!held.same_as(&TokenRecord { token_type: TokenKind::Mac, ..record() }));
    assert!(!held.same_as(&TokenRecord { expires_in: None, ..record() }));
    assert!(!held.same_as(&TokenRecord { expires_in: Some(1), ..record() }));
    assert!(!held.same_as(&TokenRecord { scopes: None, ..record() }));
    assert!(!held.same_as(&TokenRecord { scopes: Some(Vec::new()), ..record() }));
    assert!(!held.same_as(&TokenRecord { scopes: Some(vec!["sleep".to_string()]), ..record() }));
    assert!(!held.same_as(&TokenRecord {
        scopes: Some(vec!["heartrate".to_string(), "sleep".to_string()]),
        ..record()
    }));
    assert!(TokenKind::Extension("a".to_string()).same_as(&TokenKind::Extension("a".to_string())));
    assert!(!TokenKind::Extension("a".to_string()).same_as(&TokenKind::Extension("b".to_string())));
    assert!(!TokenKind::Bearer.same_as(&TokenKind::Mac));
    assert!(!TokenKind::Bearer.same_as(&TokenKind::Extension("bearer".to_string())));
}

#[test]
fn a_record_is_usable_with_an_access_token() {
    assert!(record().is_usable());
    assert!(!TokenRecord { access_token: secret(""), ..record() }.is_usable());
    assert!(record().can_refresh());
    assert!(!TokenRecord { refresh_token: None, ..record() }.can_refresh());
}

#[test]
fn a_secret_is_shown_redacted() {
    let held = secret("abc");
    assert_eq!(held.expose(), "abc");
    assert_eq!(held.redacted(), "[redacted]");
    assert_eq!(secret("").redacted(), "[redacted]");
    assert!(!held.is_empty());
    assert!(secret("").is_empty());
    assert!(held.same_as(&secret("abc")));
    assert!(!held.same_as(&secret("abd")));
    assert!(held.copy() == held);
    assert!(held.copy().same_as(&held));
}
