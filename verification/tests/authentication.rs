use argon2::password_hash::SaltString;
use argon2::Algorithm;
use argon2::Argon2;
use argon2::Params;
use argon2::PasswordHasher;
use argon2::Version;
use base64::engine::general_purpose::STANDARD;
use base64::Engine;
use uuid::Uuid;
use zero2prod::authentication::basic::find_encoded_credentials;
use zero2prod::authentication::basic::split_credentials;
use zero2prod::authentication::basic::BasicAuthError;
use zero2prod::authentication::basic_authentication;
use zero2prod::authentication::password::decide;
use zero2prod::authentication::password::verify_password_hash;
use zero2prod::authentication::password::PasswordCheck;
use zero2prod::authentication::password::FALLBACK_PASSWORD_HASH;
use zero2prod::authentication::validate_credentials;
use zero2prod::authentication::AuthError;
use zero2prod::authentication::Credentials;
use zero2prod::authentication::StoredCredentials;
use zero2prod::secret::Secret;

fn hash_of(password: &str) -> String {
    let salt = SaltString::encode_b64(b"0123456789abcdef").unwrap();
    let hasher = Argon2::new(Algorithm::Argon2id, Version::V0x13, Params::new(64, 1, 1, None).unwrap());
    hasher.hash_password(password.as_bytes(), &salt).unwrap().to_string()
}

fn credentials(username: &str, password: &str) -> Credentials {
    Credentials { username: username.to_string(), password: Secret::new(password.to_string()) }
}

fn stored(user_id: Uuid, password: &str) -> StoredCredentials {
    StoredCredentials { user_id, password_hash: Secret::new(hash_of(password)) }
}

fn header(credentials: &str) -> Vec<u8> {
    format!("Basic {}", STANDARD.encode(credentials)).into_bytes()
}

#[test]
fn right_password_names_the_user() {
    let id = Uuid::from_u128(7);
    let outcome = validate_credentials(credentials("alice", "correct"), Ok(Some(stored(id, "correct"))));
    assert_eq!(outcome, Ok(id));
}

#[test]
fn wrong_password_is_invalid_credentials() {
    let id = Uuid::from_u128(7);
    let outcome = validate_credentials(credentials("alice", "wrong"), Ok(Some(stored(id, "correct"))));
    assert_eq!(outcome, Err(AuthError::InvalidCredentials));
}

#[test]
fn unknown_user_is_invalid_credentials() {
    let outcome = validate_credentials(credentials("nobody", "whatever"), Ok(None));
    assert_eq!(outcome, Err(AuthError::InvalidCredentials));
}

#[test]
fn unknown_user_and_wrong_password_give_the_same_error() {
    let unknown = validate_credentials(credentials("nobody", "wrong"), Ok(None));
    let wrong = validate_credentials(credentials("alice", "wrong"), Ok(Some(stored(Uuid::from_u128(1), "correct"))));
    assert_eq!(unknown, wrong);
}

#[test]
fn failed_lookup_is_unexpected() {
    let outcome = validate_credentials(credentials("alice", "correct"), Err("connection refused".to_string()));
    assert_eq!(outcome, Err(AuthError::UnexpectedError("connection refused".to_string())));
}

#[test]
fn malformed_stored_hash_is_unexpected() {
    let broken = StoredCredentials { user_id: Uuid::from_u128(7), password_hash: Secret::new("not a hash".to_string()) };
    let outcome = validate_credentials(credentials("alice", "correct"), Ok(Some(broken)));
    assert_eq!(
        outcome,
        Err(AuthError::UnexpectedError("Failed to parse hash in PHC string format.".to_string()))
    );
}

#[test]
fn fallback_hash_is_well_formed_and_matches_no_tried_password() {
    let fallback = Secret::new(FALLBACK_PASSWORD_HASH.to_string());
    assert_eq!(verify_password_hash(&fallback, &Secret::new("".to_string())), PasswordCheck::Mismatch);
    assert_eq!(verify_password_hash(&fallback, &Secret::new("password".to_string())), PasswordCheck::Mismatch);
}

#[test]
fn password_check_reports_each_finding() {
    let hash = Secret::new(hash_of("correct"));
    assert_eq!(verify_password_hash(&hash, &Secret::new("correct".to_string())), PasswordCheck::Match);
    assert_eq!(verify_password_hash(&hash, &Secret::new("Correct".to_string())), PasswordCheck::Mismatch);
    assert_eq!(
        verify_password_hash(&Secret::new("".to_string()), &Secret::new("correct".to_string())),
        PasswordCheck::MalformedHash
    );
}

#[test]
fn decision_follows_the_password_check() {
    let id = Uuid::from_u128(42);
    assert_eq!(decide(Some(id), PasswordCheck::Match), Ok(id));
    assert_eq!(decide(None, PasswordCheck::Match), Err(AuthError::InvalidCredentials));
    assert_eq!(decide(Some(id), PasswordCheck::Mismatch), Err(AuthError::InvalidCredentials));
    assert_eq!(decide(None, PasswordCheck::Mismatch), Err(AuthError::InvalidCredentials));
    assert_eq!(
        decide(Some(id), PasswordCheck::MalformedHash),
        Err(AuthError::UnexpectedError("Failed to parse hash in PHC string format.".to_string()))
    );
}

#[test]
fn auth_error_messages() {
    assert_eq!(AuthError::InvalidCredentials.message(), "Invalid credentials.");
    assert_eq!(AuthError::UnexpectedError("boom".to_string()).message(), "boom");
}

#[test]
fn basic_header_yields_username_and_password() {
    let value = header("alice:s3cret");
    let parsed = basic_authentication(Some(&value)).unwrap();
    assert_eq!(parsed.username, "alice");
    assert_eq!(parsed.password.expose(), "s3cret");
}

#[test]
fn password_may_hold_colons() {
    let value = header("alice:a:b:c");
    let parsed = basic_authentication(Some(&value)).unwrap();
    assert_eq!(parsed.username, "alice");
    assert_eq!(parsed.password.expose(), "a:b:c");
}

#[test]
fn username_and_password_may_be_empty() {
    let value = header(":");
    let parsed = basic_authentication(Some(&value)).unwrap();
    assert_eq!(parsed.username, "");
    assert_eq!(parsed.password.expose(), "");
}

#[test]
fn credentials_may_hold_any_unicode() {
    let value = header("jürgen:pässwörd€");
    let parsed = basic_authentication(Some(&value)).unwrap();
    assert_eq!(parsed.username, "jürgen");
    assert_eq!(parsed.password.expose(), "pässwörd€");
}

#[test]
fn missing_header_is_refused() {
    assert_eq!(basic_authentication(None).unwrap_err(), BasicAuthError::MissingHeader);
}

#[test]
fn header_with_invisible_bytes_is_refused() {
    assert_eq!(basic_authentication(Some(b"Basic \xffabc")).unwrap_err(), BasicAuthError::NotText);
    assert_eq!(basic_authentication(Some(b"Basic abc\x7f")).unwrap_err(), BasicAuthError::NotText);
    assert_eq!(basic_authentication(Some(b"Basic abc\n")).unwrap_err(), BasicAuthError::NotText);
}

#[test]
fn other_scheme_is_refused() {
    assert_eq!(basic_authentication(Some(b"Bearer abc")).unwrap_err(), BasicAuthError::WrongScheme);
    assert_eq!(basic_authentication(Some(b"basic YTpi")).unwrap_err(), BasicAuthError::WrongScheme);
    assert_eq!(basic_authentication(Some(b"Basic")).unwrap_err(), BasicAuthError::WrongScheme);
    assert_eq!(basic_authentication(Some(b"")).unwrap_err(), BasicAuthError::WrongScheme);
}

#[test]
fn bad_base64_is_refused() {
    assert_eq!(basic_authentication(Some(b"Basic not base64!")).unwrap_err(), BasicAuthError::InvalidBase64);
    assert_eq!(basic_authentication(Some(b"Basic YTpi=")).unwrap_err(), BasicAuthError::InvalidBase64);
}

#[test]
fn credentials_that_are_not_utf8_are_refused() {
    let value = format!("Basic {}", STANDARD.encode([0xffu8, 0x3a, 0x61])).into_bytes();
    assert_eq!(basic_authentication(Some(&value)).unwrap_err(), BasicAuthError::InvalidUtf8);
}

#[test]
fn credentials_without_colon_are_refused() {
    let value = header("alice");
    assert_eq!(basic_authentication(Some(&value)).unwrap_err(), BasicAuthError::MissingPassword);
    let empty = header("");
    assert_eq!(basic_authentication(Some(&empty)).unwrap_err(), BasicAuthError::MissingPassword);
}

#[test]
fn encoded_part_follows_the_scheme() {
    assert_eq!(find_encoded_credentials(Some(b"Basic YTpi")), Ok(&b"YTpi"[..]));
    assert_eq!(find_encoded_credentials(Some(b"Basic ")), Ok(&b""[..]));
    assert_eq!(find_encoded_credentials(Some(b"Basic\tYTpi")), Err(BasicAuthError::WrongScheme));
}

#[test]
fn decoded_credentials_split_at_first_colon() {
    let parsed = split_credentials(b"a:b:c".to_vec()).unwrap();
    assert_eq!(parsed.username, "a");
    assert_eq!(parsed.password.expose(), "b:c");
    assert_eq!(split_credentials(b"abc".to_vec()).unwrap_err(), BasicAuthError::MissingPassword);
    assert_eq!(split_credentials(vec![0x80]).unwrap_err(), BasicAuthError::InvalidUtf8);
}

#[test]
fn basic_auth_error_messages() {
    assert_eq!(BasicAuthError::MissingHeader.message(), "Missing Authorization header");
    assert_eq!(BasicAuthError::NotText.message(), "Authorization header is not valid UTF-8");
    assert_eq!(BasicAuthError::WrongScheme.message(), "The authorization scheme was not 'Basic'");
    assert_eq!(BasicAuthError::InvalidBase64.message(), "Failed to decode authorization header from base64");
    assert_eq!(BasicAuthError::InvalidUtf8.message(), "The credentials is not valid UTF-8 string");
    assert_eq!(BasicAuthError::MissingPassword.message(), "Missing password");
}
