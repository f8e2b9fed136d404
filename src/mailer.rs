use lettre::email::{Email, EmailBuilder};
use lettre::transport::smtp::authentication::Mechanism;
use lettre::transport::smtp::{SecurityLevel, SmtpTransport, SmtpTransportBuilder};
use lettre::transport::EmailTransport;
use vstd::prelude::*;

verus! {

#[verifier::external_type_specification]
#[verifier::external_body]
pub struct ExSmtpTransport(SmtpTransport);

#[verifier::external_type_specification]
#[verifier::external_body]
pub struct ExSmtpTransportBuilder(SmtpTransportBuilder);

#[verifier::external_type_specification]
#[verifier::external_body]
pub struct ExEmail(Email);

/// How the session protects the connection.
#[derive(Clone, Copy, Debug, PartialEq, Eq, Structural)]
pub enum Security {
    /// Send only over a connection that STARTTLS has encrypted.
    AlwaysEncrypt,
}

/// How the session authenticates.
#[derive(Clone, Copy, Debug, PartialEq, Eq, Structural)]
pub enum AuthMechanism {
    /// The PLAIN mechanism, over the encrypted connection.
    Plain,
}

/// The SMTP submission port.
pub const SUBMISSION_PORT_NUMBER: u16 = 587;

/// Everything the outbound session is set up with.
pub struct SmtpSettings {
    pub server: String,
    pub port: u16,
    pub hello_name: String,
    pub username: String,
    pub password: String,
    pub security: Security,
    pub mechanism: AuthMechanism,
    pub smtp_utf8: bool,
    pub connection_reuse: bool,
}

/// The mathematical value of [`SmtpSettings`].
pub struct SettingsView {
    pub server: Seq<char>,
    pub port: u16,
    pub hello_name: Seq<char>,
    pub username: Seq<char>,
    pub password: Seq<char>,
    pub security: Security,
    pub mechanism: AuthMechanism,
    pub smtp_utf8: bool,
    pub connection_reuse: bool,
}

impl View for SmtpSettings {
    type V = SettingsView;

    open spec fn view(&self) -> SettingsView {
        SettingsView {
            server: self.server@,
            port: self.port,
            hello_name: self.hello_name@,
            username: self.username@,
            password: self.password@,
            security: self.security,
            mechanism: self.mechanism,
            smtp_utf8: self.smtp_utf8,
            connection_reuse: self.connection_reuse,
        }
    }
}

/// The session of the service: the submission port of `server`, always
/// encrypted, PLAIN authentication with the given credentials, UTF-8
/// addresses, the connection reused between messages.
pub open spec fn settings_spec(server: Seq<char>, username: Seq<char>, password: Seq<char>) -> SettingsView {
    SettingsView {
        server,
        port: SUBMISSION_PORT_NUMBER,
        hello_name: "localhost"@,
        username,
        password,
        security: Security::AlwaysEncrypt,
        mechanism: AuthMechanism::Plain,
        smtp_utf8: true,
        connection_reuse: true,
    }
}

/// The settings of the session with `server`.
pub fn smtp_settings(server: &str, username: &str, password: &str) -> (r: SmtpSettings)
    ensures
        r@ == settings_spec(server@, username@, password@),
{
    SmtpSettings {
        server: server.to_owned(),
        port: SUBMISSION_PORT_NUMBER,
        hello_name: "localhost".to_owned(),
        username: username.to_owned(),
        password: password.to_owned(),
        security: Security::AlwaysEncrypt,
        mechanism: AuthMechanism::Plain,
        smtp_utf8: true,
        connection_reuse: true,
    }
}

/// Relies on `SmtpTransportBuilder::new`, which resolves the server on the
/// given port; the outcome depends on name resolution, so nothing is
/// promised of it.
#[verifier::external_body]
fn open_builder(settings: &SmtpSettings) -> (r: Option<SmtpTransportBuilder>) {
    match SmtpTransportBuilder::new((settings.server.as_str(), settings.port)) {
        Ok(builder) => Some(builder),
        Err(_) => None,
    }
}

/// Relies on the setters of `SmtpTransportBuilder` and its `build`, which
/// only record each setting for the connection made at the first send.
#[verifier::external_body]
fn configure_transport(builder: SmtpTransportBuilder, settings: &SmtpSettings) -> (r:
    SmtpTransport) {
    let security = match settings.security {
        Security::AlwaysEncrypt => SecurityLevel::AlwaysEncrypt,
    };
    let mechanism = match settings.mechanism {
        AuthMechanism::Plain => Mechanism::Plain,
    };
    builder.hello_name(&settings.hello_name).credentials(&settings.username, &settings.password)
        .security_level(security).smtp_utf8(settings.smtp_utf8).authentication_mechanism(
        mechanism,
    ).connection_reuse(settings.connection_reuse).build()
}

/// One message: its sender, recipient, body and subject.
pub struct OutgoingMessage {
    pub from: String,
    pub to: String,
    pub body: String,
    pub subject: String,
}

/// The mathematical value of an [`OutgoingMessage`].
pub struct MessageView {
    pub from: Seq<char>,
    pub to: Seq<char>,
    pub body: Seq<char>,
    pub subject: Seq<char>,
}

impl View for OutgoingMessage {
    type V = MessageView;

    open spec fn view(&self) -> MessageView {
        MessageView { from: self.from@, to: self.to@, body: self.body@, subject: self.subject@ }
    }
}

/// Relies on `EmailBuilder` and its `build`, which fails only when no sender
/// or no recipient was given; both are given here.
#[verifier::external_body]
fn compose_email(message: &OutgoingMessage) -> (r: Option<Email>)
    ensures
        r.is_some(),
{
    match EmailBuilder::new().to(message.to.as_str()).from(message.from.as_str()).body(
        &message.body,
    ).subject(&message.subject).build() {
        Ok(email) => Some(email),
        Err(_) => None,
    }
}

/// Relies on `SmtpTransport::send`; whether the server accepts the message
/// depends on the network, so nothing is promised of it.
#[verifier::external_body]
fn transmit(connection: &mut SmtpTransport, email: Email) -> (r: bool) {
    connection.send(email).is_ok()
}

/// The sender address: the override when one is given, else the user name.
pub open spec fn sender_address(username: Seq<char>, from: Option<String>) -> Seq<char> {
    match from {
        Some(f) => f@,
        None => username,
    }
}

/// The one outbound SMTP session of the service, with its fixed sender
/// address. It is not reentrant: callers serialise access to it.
pub struct EmailSender {
    connection: SmtpTransport,
    from: String,
    settings: Ghost<SettingsView>,
    sent: Ghost<Seq<MessageView>>,
}

impl EmailSender {
    pub closed spec fn spec_from(&self) -> Seq<char> {
        self.from@
    }

    /// What the session was set up with.
    pub closed spec fn spec_settings(&self) -> SettingsView {
        self.settings@
    }

    /// Every message handed to the transport so far, oldest first.
    pub closed spec fn spec_sent(&self) -> Seq<MessageView> {
        self.sent@
    }

    /// Sets up the session with `server` on the submission port (see
    /// [`settings_spec`]); it fails when the server name does not resolve.
    /// Connecting, encrypting and authenticating happen at the first send.
    /// The sender address is `from` when given, else `username`.
    pub fn new(server: &str, username: &str, password: &str, from: Option<String>) -> (r: Result<
        EmailSender,
        (),
    >)
        ensures
            r matches Ok(s) ==> {
                &&& s.spec_from() == sender_address(username@, from)
                &&& s.spec_settings() == settings_spec(server@, username@, password@)
                &&& s.spec_sent() == Seq::<MessageView>::empty()
            },
    {
        let settings = smtp_settings(server, username, password);
        let builder = match open_builder(&settings) {
            Some(builder) => builder,
            None => return Err(()),
        };
        let connection = configure_transport(builder, &settings);
        let from = match from {
            Some(from) => from,
            None => username.to_owned(),
        };
        Ok(EmailSender { connection, from, settings: Ghost(settings@), sent: Ghost(Seq::empty()) })
    }

    /// The sender address of every message.
    pub fn from_address(&self) -> (r: &str)
        ensures
            r@ == self.spec_from(),
    {
        self.from.as_str()
    }

    /// The message that a send of `body` to `to` under `subject` hands over.
    pub fn outgoing(&self, to: &str, body: &str, subject: &str) -> (r: OutgoingMessage)
        ensures
            r@ == (MessageView { from: self.spec_from(), to: to@, body: body@, subject: subject@ }),
    {
        OutgoingMessage {
            from: self.from.clone(),
            to: to.to_owned(),
            body: body.to_owned(),
            subject: subject.to_owned(),
        }
    }

    /// Sends one message from the sender address to `to`, exactly once:
    /// `Ok` when the transport accepts it. Failures are not retried.
    pub fn send(&mut self, to: &str, body: &str, subject: &str) -> (r: Result<(), ()>)
        ensures
            final(self).spec_from() == old(self).spec_from(),
            final(self).spec_settings() == old(self).spec_settings(),
            final(self).spec_sent() == old(self).spec_sent().push(
                MessageView { from: old(self).spec_from(), to: to@, body: body@, subject: subject@ },
            ),
    {
        let message = self.outgoing(to, body, subject);
        let email = match compose_email(&message) {
            Some(email) => email,
            None => return Err(()),
        };
        let accepted = transmit(&mut self.connection, email);
        self.sent = Ghost(self.sent@.push(message@));
        if accepted {
            Ok(())
        } else {
            Err(())
        }
    }
}

} // verus!
