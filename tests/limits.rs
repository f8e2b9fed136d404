use users_email_server::{
    config_complete, decode_invitation, prepare_invitation, smtp_settings, within_nesting,
    AuthMechanism, DecodeError, EmailSender, EndpointError, Security, UrlPolicy, MAX_NESTING,
};

#[test]
fn deeply_nested_body_is_refused_without_parsing() {
    let body = "[".repeat(100_000);
    assert!(!within_nesting(&body));
    assert_eq!(decode_invitation(&body).err(), Some(DecodeError::TooDeep));
    let policy = UrlPolicy::new("x");
    let err = prepare_invitation(Some(&body), &policy).err().unwrap();
    assert_eq!(err, EndpointError::bad_request(107));
}

#[test]
fn nesting_bound_is_inclusive() {
    let at = format!("{}{}", "[".repeat(MAX_NESTING), "]".repeat(MAX_NESTING));
    assert!(within_nesting(&at));
    let over = format!("{}{}", "[".repeat(MAX_NESTING + 1), "]".repeat(MAX_NESTING + 1));
    assert!(!within_nesting(&over));
    assert_eq!(decode_invitation(&at).err(), Some(DecodeError::WrongType));
}

#[test]
fn brackets_inside_strings_do_not_nest() {
    let inner = "[".repeat(1000);
    let body = format!(r#"{{"url":"{}","email":"a\"[{{"}}"#, inner);
    assert!(within_nesting(&body));
    let req = decode_invitation(&body).ok().unwrap();
    assert_eq!(req.url, inner);
    assert_eq!(req.email, "a\"[{");
}

#[test]
fn startup_needs_every_setting() {
    assert!(config_complete("^https://", "smtp.example.org", "user", "pw"));
    assert!(!config_complete("", "smtp.example.org", "user", "pw"));
    assert!(!config_complete("^https://", "", "user", "pw"));
    assert!(!config_complete("^https://", "smtp.example.org", "", "pw"));
    assert!(!config_complete("^https://", "smtp.example.org", "user", ""));
}

#[test]
fn session_settings() {
    let s = smtp_settings("smtp.example.org", "user", "pw");
    assert_eq!(s.server, "smtp.example.org");
    assert_eq!(s.port, 587);
    assert_eq!(s.hello_name, "localhost");
    assert_eq!((s.username.as_str(), s.password.as_str()), ("user", "pw"));
    assert_eq!(s.security, Security::AlwaysEncrypt);
    assert_eq!(s.mechanism, AuthMechanism::Plain);
    assert!(s.smtp_utf8);
    assert!(s.connection_reuse);
}

#[test]
fn outgoing_message_fields() {
    let sender = EmailSender::new("127.0.0.1", "user@example.org", "pw", None).ok().unwrap();
    let m = sender.outgoing("a@b.com", "https://ab12.example.org/activate", "Welcome to Link");
    assert_eq!(m.from, "user@example.org");
    assert_eq!(m.to, "a@b.com");
    assert_eq!(m.body, "https://ab12.example.org/activate");
    assert_eq!(m.subject, "Welcome to Link");
}
