use users_email_server::{dispatch, prepare_invitation, EmailSender, EndpointError, UrlPolicy};

#[test]
fn sender_address_defaults_to_user() {
    let sender = EmailSender::new("127.0.0.1", "user@example.org", "secret", None).ok().unwrap();
    assert_eq!(sender.from_address(), "user@example.org");
}

#[test]
fn sender_address_override() {
    let sender = EmailSender::new(
        "127.0.0.1",
        "user@example.org",
        "secret",
        Some("noreply@example.org".to_string()),
    )
    .ok()
    .unwrap();
    assert_eq!(sender.from_address(), "noreply@example.org");
}

#[test]
fn unreachable_server_is_internal_error() {
    // Nothing listens on the submission port here: every send fails, once.
    let mut sender = EmailSender::new("127.0.0.1", "user@example.org", "secret", None).ok().unwrap();
    let policy = UrlPolicy::new(r"^https://[a-f0-9]+\.example\.org/");
    let body = r#"{"url":"https://ab12.example.org/activate","email":"a@b.com"}"#;
    let message = prepare_invitation(Some(body), &policy).ok().unwrap();
    assert_eq!(dispatch(&mut sender, &message), Err(EndpointError::internal()));
    assert_eq!(dispatch(&mut sender, &message), Err(EndpointError::internal()));
    assert_eq!(sender.from_address(), "user@example.org");
}
