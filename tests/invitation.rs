use users_email_server::{
    accept_request, decode_failure, decode_invitation, prepare_invitation, sent_outcome,
    DecodeError, EndpointError, Field, HttpStatus, InvitationRequest, UrlPolicy,
};

const PATTERN: &str = r"^https://[a-f0-9]+\.example\.org/";

#[test]
fn valid_request_yields_invitation() {
    let policy = UrlPolicy::new(PATTERN);
    let body = r#"{"url":"https://ab12.example.org/activate","email":"a@b.com"}"#;
    let inv = prepare_invitation(Some(body), &policy).ok().unwrap();
    assert_eq!(inv.to, "a@b.com");
    assert_eq!(inv.body, "https://ab12.example.org/activate");
    assert_eq!(inv.subject, "Welcome to Link");
    assert_eq!(sent_outcome(Ok(())), Ok(()));
}

#[test]
fn foreign_url_is_rejected() {
    let policy = UrlPolicy::new(PATTERN);
    let body = r#"{"url":"https://evil.com/","email":"a@b.com"}"#;
    let err = prepare_invitation(Some(body), &policy).err().unwrap();
    assert_eq!(err.status, HttpStatus::BadRequest);
    assert_eq!(err.status.number(), 400);
    assert_eq!(err.code, 102);
}

#[test]
fn wrong_field_type_is_client_error() {
    let policy = UrlPolicy::new(PATTERN);
    let body = r#"{"url":123,"email":"a@b.com"}"#;
    let err = prepare_invitation(Some(body), &policy).err().unwrap();
    assert_eq!(err.status, HttpStatus::BadRequest);
    assert_eq!(err.code, 104);
    assert!(err.is_client_error());
}

#[test]
fn malformed_json_is_client_error() {
    let policy = UrlPolicy::new(PATTERN);
    let err = prepare_invitation(Some("{\"url\":"), &policy).err().unwrap();
    assert_eq!(err, EndpointError::bad_request(103));
}

#[test]
fn missing_fields_are_reported_in_order() {
    assert_eq!(
        decode_invitation(r#"{"email":"a@b.com"}"#).err(),
        Some(DecodeError::MissingField(Field::Url))
    );
    assert_eq!(
        decode_invitation(r#"{"url":"https://ab12.example.org/"}"#).err(),
        Some(DecodeError::MissingField(Field::Email))
    );
    assert_eq!(decode_invitation("{}").err(), Some(DecodeError::MissingField(Field::Url)));
    assert_eq!(decode_failure(DecodeError::MissingField(Field::Url)).code, 105);
    assert_eq!(decode_failure(DecodeError::MissingField(Field::Email)).code, 106);
}

#[test]
fn non_object_body_is_wrong_type() {
    assert_eq!(decode_invitation("[1, 2]").err(), Some(DecodeError::WrongType));
    assert_eq!(decode_invitation("\"text\"").err(), Some(DecodeError::WrongType));
    assert_eq!(
        decode_invitation(r#"{"url":"x","email":null}"#).err(),
        Some(DecodeError::WrongType)
    );
}

#[test]
fn extra_members_are_ignored() {
    let req = decode_invitation(r#"{"email":"c@d.org","url":"u","extra":[1]}"#).ok().unwrap();
    assert_eq!(req.url, "u");
    assert_eq!(req.email, "c@d.org");
}

#[test]
fn unreadable_body_is_internal_error() {
    let policy = UrlPolicy::new(PATTERN);
    let err = prepare_invitation(None, &policy).err().unwrap();
    assert_eq!(err, EndpointError::internal());
    assert_eq!(err.status.number(), 500);
    assert_eq!(err.code, 501);
}

#[test]
fn bad_pattern_rejects_every_url() {
    let policy = UrlPolicy::new("(unclosed");
    assert!(policy.matches("anything").is_err());
    for url in ["https://ab12.example.org/x", "", "(unclosed"] {
        let body = format!(r#"{{"url":"{}","email":"a@b.com"}}"#, url);
        let err = prepare_invitation(Some(&body), &policy).err().unwrap();
        assert_eq!(err, EndpointError::bad_request(101));
    }
}

#[test]
fn pattern_matches_anywhere_unless_anchored() {
    let loose = UrlPolicy::new(r"example\.org");
    assert_eq!(loose.matches("https://x.example.org/"), Ok(true));
    assert_eq!(loose.matches("https://example.com/"), Ok(false));
    let anchored = UrlPolicy::new(PATTERN);
    assert_eq!(anchored.matches("see https://ab12.example.org/"), Ok(false));
    assert_eq!(anchored.matches("https://ab12.example.org/activate"), Ok(true));
    assert_eq!(anchored.pattern(), PATTERN);
}

#[test]
fn repeated_request_is_accepted_twice() {
    let policy = UrlPolicy::new(PATTERN);
    let body = r#"{"url":"https://ff.example.org/a","email":"x@y.z"}"#;
    let first = prepare_invitation(Some(body), &policy).ok().unwrap();
    let second = prepare_invitation(Some(body), &policy).ok().unwrap();
    assert_eq!(first.to, second.to);
    assert_eq!(first.body, second.body);
    assert_eq!(sent_outcome(Ok(())), Ok(()));
    assert_eq!(sent_outcome(Ok(())), Ok(()));
}

#[test]
fn failed_send_is_internal_error() {
    assert_eq!(sent_outcome(Err(())), Err(EndpointError::internal()));
}

#[test]
fn policy_verdict_decides() {
    let req = || InvitationRequest { url: "u".to_string(), email: "e".to_string() };
    assert_eq!(accept_request(req(), Ok(false)).err(), Some(EndpointError::bad_request(102)));
    assert_eq!(
        accept_request(req(), Err(users_email_server::PatternError)).err(),
        Some(EndpointError::bad_request(101))
    );
    let inv = accept_request(req(), Ok(true)).ok().unwrap();
    assert_eq!((inv.to.as_str(), inv.body.as_str()), ("e", "u"));
}

#[test]
fn status_numbers() {
    assert_eq!(HttpStatus::Success.number(), 200);
    assert_eq!(HttpStatus::BadRequest.number(), 400);
    assert_eq!(HttpStatus::InternalServerError.number(), 500);
}
