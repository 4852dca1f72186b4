use argon2::password_hash::SaltString;
use argon2::Algorithm;
use argon2::Argon2;
use argon2::Params;
use argon2::PasswordHasher;
use argon2::Version;
use base64::engine::general_purpose::STANDARD;
use base64::Engine;
use uuid::Uuid;
use zero2prod::authentication::basic::BasicAuthError;
use zero2prod::authentication::AuthError;
use zero2prod::authentication::StoredCredentials;
use zero2prod::routes::newsletters::delivery::begin;
use zero2prod::routes::newsletters::delivery::summarize;
use zero2prod::routes::newsletters::delivery::Dispatch;
use zero2prod::routes::newsletters::get_confirmed_subscribers;
use zero2prod::routes::newsletters::publish_newsletter;
use zero2prod::routes::newsletters::BodyData;
use zero2prod::routes::newsletters::Content;
use zero2prod::routes::newsletters::DeliveryOutcome;
use zero2prod::routes::newsletters::ErrorResponse;
use zero2prod::routes::newsletters::PublishError;
use zero2prod::secret::Secret;

fn issue() -> BodyData {
    BodyData {
        title: "Newsletter title".to_string(),
        content: Content {
            html: "<p>Newsletter body as HTML</p>".to_string(),
            text: "Newsletter body as plain text".to_string(),
        },
    }
}

fn rows(addresses: &[&str]) -> Vec<String> {
    addresses.iter().map(|a| a.to_string()).collect()
}

fn hash_of(password: &str) -> String {
    let salt = SaltString::encode_b64(b"0123456789abcdef").unwrap();
    let hasher = Argon2::new(Algorithm::Argon2id, Version::V0x13, Params::new(64, 1, 1, None).unwrap());
    hasher.hash_password(password.as_bytes(), &salt).unwrap().to_string()
}

fn publisher() -> StoredCredentials {
    StoredCredentials { user_id: Uuid::from_u128(5), password_hash: Secret::new(hash_of("everythinghastostartsomewhere")) }
}

fn basic(credentials: &str) -> Vec<u8> {
    format!("Basic {}", STANDARD.encode(credentials)).into_bytes()
}

/// Drives a batch to its end with a transport that answers by the given
/// function, and returns the recipients written to, the outcomes and the
/// result.
fn run(
    addresses: &[&str],
    answer: fn(&str) -> Result<(), String>,
) -> (Vec<String>, Vec<DeliveryOutcome>, Result<(), PublishError>) {
    let mut sent = Vec::new();
    let mut dispatch = begin(issue(), get_confirmed_subscribers(rows(addresses)));
    loop {
        match dispatch {
            Dispatch::Send(pending) => {
                assert_eq!(pending.issue(), &issue());
                let email = pending.email();
                assert_eq!(email.to.as_ref(), pending.recipient().as_ref());
                assert_eq!(email.subject, "Newsletter title");
                assert_eq!(email.html_body, "<p>Newsletter body as HTML</p>");
                assert_eq!(email.text_body, "Newsletter body as plain text");
                let recipient = pending.recipient().as_ref().to_string();
                let answered = answer(&recipient);
                sent.push(recipient);
                dispatch = pending.record(answered);
            }
            Dispatch::Done(report) => {
                let result = report.result();
                let mut outcomes = Vec::new();
                for outcome in report.outcomes() {
                    outcomes.push(match outcome {
                        DeliveryOutcome::Delivered => DeliveryOutcome::Delivered,
                        DeliveryOutcome::SkippedInvalidAddress(r) => DeliveryOutcome::SkippedInvalidAddress(r.clone()),
                        DeliveryOutcome::Failed(r) => DeliveryOutcome::Failed(r.clone()),
                    });
                }
                return (sent, outcomes, result);
            }
        }
    }
}

fn accept(_recipient: &str) -> Result<(), String> {
    Ok(())
}

fn refuse_bob(recipient: &str) -> Result<(), String> {
    if recipient == "bob@example.com" {
        Err("connection reset".to_string())
    } else {
        Ok(())
    }
}

fn refuse_all(_recipient: &str) -> Result<(), String> {
    Err("500 Internal Server Error".to_string())
}

#[test]
fn stored_addresses_are_validated_in_order() {
    let parsed = get_confirmed_subscribers(rows(&["a@example.com", "not-an-email", "b@example.com"]));
    assert_eq!(parsed.len(), 3);
    assert_eq!(parsed[0].as_ref().unwrap().email.as_ref(), "a@example.com");
    assert_eq!(parsed[1].as_ref().unwrap_err(), "Email address is not valid: not-an-email");
    assert_eq!(parsed[2].as_ref().unwrap().email.as_ref(), "b@example.com");
}

#[test]
fn no_stored_addresses_give_no_subscribers() {
    assert!(get_confirmed_subscribers(Vec::new()).is_empty());
}

#[test]
fn every_valid_subscriber_receives_the_issue() {
    let (sent, outcomes, result) = run(&["a@example.com", "b@example.com", "c@example.com"], accept);
    assert_eq!(sent, ["a@example.com", "b@example.com", "c@example.com"]);
    assert_eq!(outcomes, [DeliveryOutcome::Delivered, DeliveryOutcome::Delivered, DeliveryOutcome::Delivered]);
    assert_eq!(result, Ok(()));
}

#[test]
fn empty_directory_is_done_at_once() {
    let (sent, outcomes, result) = run(&[], accept);
    assert!(sent.is_empty());
    assert!(outcomes.is_empty());
    assert_eq!(result, Ok(()));
}

#[test]
fn one_malformed_address_among_valid_ones_is_skipped() {
    let (sent, outcomes, result) = run(&["a@example.com", "b@example.com", "not-an-email", "c@example.com"], accept);
    assert_eq!(sent, ["a@example.com", "b@example.com", "c@example.com"]);
    assert_eq!(outcomes.iter().filter(|o| **o == DeliveryOutcome::Delivered).count(), 3);
    assert_eq!(
        outcomes[2],
        DeliveryOutcome::SkippedInvalidAddress("Email address is not valid: not-an-email".to_string())
    );
    assert_eq!(result, Ok(()));
}

#[test]
fn malformed_addresses_at_both_ends_are_skipped() {
    let (sent, outcomes, result) = run(&["", "a@example.com", "@example.com"], accept);
    assert_eq!(sent, ["a@example.com"]);
    assert_eq!(
        outcomes,
        [
            DeliveryOutcome::SkippedInvalidAddress("Email address is not valid: ".to_string()),
            DeliveryOutcome::Delivered,
            DeliveryOutcome::SkippedInvalidAddress("Email address is not valid: @example.com".to_string()),
        ]
    );
    assert_eq!(result, Ok(()));
}

#[test]
fn directory_of_malformed_addresses_sends_nothing() {
    let (sent, outcomes, result) = run(&["x", "y"], refuse_all);
    assert!(sent.is_empty());
    assert_eq!(outcomes.len(), 2);
    assert_eq!(result, Ok(()));
}

#[test]
fn failed_send_does_not_stop_later_sends() {
    let (sent, outcomes, result) = run(&["a@example.com", "bob@example.com", "c@example.com", "d@example.com"], refuse_bob);
    assert_eq!(sent, ["a@example.com", "bob@example.com", "c@example.com", "d@example.com"]);
    assert_eq!(
        outcomes,
        [
            DeliveryOutcome::Delivered,
            DeliveryOutcome::Failed("Failed to send newsletter issue to bob@example.com: connection reset".to_string()),
            DeliveryOutcome::Delivered,
            DeliveryOutcome::Delivered,
        ]
    );
    assert_eq!(
        result,
        Err(PublishError::UnexpectedError(
            "Failed to send newsletter issue to bob@example.com: connection reset".to_string()
        ))
    );
}

#[test]
fn every_failed_send_is_reported() {
    let (sent, outcomes, result) = run(&["a@example.com", "nope", "b@example.com"], refuse_all);
    assert_eq!(sent, ["a@example.com", "b@example.com"]);
    assert_eq!(outcomes.len(), 3);
    assert_eq!(
        result,
        Err(PublishError::UnexpectedError(
            "Failed to send newsletter issue to a@example.com: 500 Internal Server Error; Failed to send newsletter issue to b@example.com: 500 Internal Server Error"
                .to_string()
        ))
    );
}

#[test]
fn summary_is_ok_without_failures() {
    assert_eq!(summarize(&Vec::new()), Ok(()));
    assert_eq!(
        summarize(&vec![DeliveryOutcome::Delivered, DeliveryOutcome::SkippedInvalidAddress("bad".to_string())]),
        Ok(())
    );
}

#[test]
fn summary_joins_the_reasons_of_failures() {
    let outcomes = vec![
        DeliveryOutcome::Failed("first".to_string()),
        DeliveryOutcome::Delivered,
        DeliveryOutcome::Failed("".to_string()),
        DeliveryOutcome::Failed("third".to_string()),
    ];
    assert_eq!(summarize(&outcomes), Err(PublishError::UnexpectedError("first; ; third".to_string())));
}

#[test]
fn publish_with_one_malformed_subscriber_sends_one_email() {
    let header = basic("admin:everythinghastostartsomewhere");
    let request = publish_newsletter(issue(), Some(&header)).unwrap();
    assert_eq!(request.username(), "admin");
    let authorized = request.verify(Ok(Some(publisher()))).unwrap();
    assert_eq!(authorized.user_id(), Uuid::from_u128(5));
    let mut dispatch = authorized.deliver(Ok(rows(&["ursula_le_guin@gmail.com", "not-an-email"]))).unwrap();
    let mut sent = Vec::new();
    let report = loop {
        match dispatch {
            Dispatch::Send(pending) => {
                sent.push(pending.recipient().as_ref().to_string());
                assert_eq!(pending.issue().title, "Newsletter title");
                dispatch = pending.record(Ok(()));
            }
            Dispatch::Done(report) => break report,
        }
    };
    assert_eq!(sent, ["ursula_le_guin@gmail.com"]);
    assert_eq!(
        report.outcomes(),
        &vec![
            DeliveryOutcome::Delivered,
            DeliveryOutcome::SkippedInvalidAddress("Email address is not valid: not-an-email".to_string()),
        ]
    );
    assert_eq!(report.result(), Ok(()));
}

#[test]
fn publish_fails_as_a_whole_when_subscribers_cannot_be_read() {
    let header = basic("admin:everythinghastostartsomewhere");
    let authorized = publish_newsletter(issue(), Some(&header)).unwrap().verify(Ok(Some(publisher()))).unwrap();
    match authorized.deliver(Err("connection to the database was lost".to_string())) {
        Err(error) => {
            assert_eq!(error, PublishError::UnexpectedError("connection to the database was lost".to_string()));
            assert_eq!(error.error_response().status, 500);
        }
        Ok(_) => panic!("a batch was started without a subscriber list"),
    }
}

#[test]
fn publish_without_authorization_header_is_refused() {
    let error = publish_newsletter(issue(), None).unwrap_err();
    assert_eq!(error, PublishError::AuthError("Missing Authorization header".to_string()));
    assert_eq!(error.error_response().status, 401);
}

#[test]
fn publish_with_malformed_authorization_header_is_refused() {
    let error = publish_newsletter(issue(), Some(b"Bearer token")).unwrap_err();
    assert_eq!(error, PublishError::AuthError("The authorization scheme was not 'Basic'".to_string()));
}

#[test]
fn publish_with_wrong_password_is_refused() {
    let header = basic("admin:wrong");
    let error = publish_newsletter(issue(), Some(&header)).unwrap().verify(Ok(Some(publisher()))).unwrap_err();
    assert_eq!(error, PublishError::AuthError("Invalid credentials.".to_string()));
}

#[test]
fn publish_by_unknown_user_is_refused_like_a_wrong_password() {
    let header = basic("nobody:everythinghastostartsomewhere");
    let error = publish_newsletter(issue(), Some(&header)).unwrap().verify(Ok(None)).unwrap_err();
    assert_eq!(error, PublishError::AuthError("Invalid credentials.".to_string()));
}

#[test]
fn publish_with_failed_credential_lookup_is_unexpected() {
    let header = basic("admin:everythinghastostartsomewhere");
    let error = publish_newsletter(issue(), Some(&header)).unwrap().verify(Err("pool closed".to_string())).unwrap_err();
    assert_eq!(error, PublishError::UnexpectedError("pool closed".to_string()));
}

#[test]
fn authentication_error_is_answered_with_a_challenge() {
    assert_eq!(
        PublishError::AuthError("whatever".to_string()).error_response(),
        ErrorResponse { status: 401, www_authenticate: Some("Basic realm=\"publish\"".to_string()) }
    );
}

#[test]
fn unexpected_error_is_answered_with_a_bare_500() {
    assert_eq!(
        PublishError::UnexpectedError("whatever".to_string()).error_response(),
        ErrorResponse { status: 500, www_authenticate: None }
    );
}

#[test]
fn publish_error_messages() {
    assert_eq!(PublishError::AuthError("cause".to_string()).message(), "Authentication failed");
    assert_eq!(PublishError::UnexpectedError("cause".to_string()).message(), "cause");
}

#[test]
fn publish_error_from_other_errors() {
    assert_eq!(
        PublishError::from_header(BasicAuthError::InvalidBase64),
        PublishError::AuthError("Failed to decode authorization header from base64".to_string())
    );
    assert_eq!(
        PublishError::from_auth(AuthError::InvalidCredentials),
        PublishError::AuthError("Invalid credentials.".to_string())
    );
    assert_eq!(
        PublishError::from_auth(AuthError::UnexpectedError("db".to_string())),
        PublishError::UnexpectedError("db".to_string())
    );
}
