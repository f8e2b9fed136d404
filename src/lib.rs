//! Invitation e-mail service: decodes an invitation request, checks its
//! activation URL against an operator-supplied pattern and hands the
//! resulting message to a single shared SMTP sender.

mod error;
mod handler;
mod mailer;
mod nesting;
mod policy;
mod request;

pub use error::{EndpointError, HttpStatus};
pub use policy::{PatternError, UrlPolicy};
pub use request::{decode_invitation, decode_members, DecodeError, Field, InvitationRequest, Member};
pub use mailer::{smtp_settings, AuthMechanism, EmailSender, OutgoingMessage, Security, SmtpSettings};
pub use handler::{
    accept_request, config_complete, decode_failure, dispatch, prepare_invitation, sent_outcome, Invitation,
};
pub use nesting::{within_nesting, MAX_NESTING};
