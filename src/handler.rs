use crate::error::{EndpointError, HttpStatus, BAD_PATTERN_CODE, URL_REJECTED_CODE};
use crate::mailer::{EmailSender, MessageView};
use crate::policy::{pattern_compiles, pattern_finds, PatternError, UrlPolicy};
use crate::request::{decode_body_spec, decode_invitation, DecodeError, InvitationRequest};
use vstd::prelude::*;

verus! {

/// The subject of every invitation.
pub open spec fn invitation_subject() -> Seq<char> {
    "Welcome to Link"@
}

/// The message to send for an accepted request: to the requested address,
/// with the activation URL itself as its body.
pub struct Invitation {
    pub to: String,
    pub body: String,
    pub subject: String,
}

/// The mathematical value of an [`Invitation`].
pub struct InvitationView {
    pub to: Seq<char>,
    pub body: Seq<char>,
    pub subject: Seq<char>,
}

impl View for Invitation {
    type V = InvitationView;

    open spec fn view(&self) -> InvitationView {
        InvitationView { to: self.to@, body: self.body@, subject: self.subject@ }
    }
}

pub open spec fn outcome_view(r: Result<Invitation, EndpointError>) -> Result<
    InvitationView,
    EndpointError,
> {
    match r {
        Ok(i) => Ok(i@),
        Err(e) => Err(e),
    }
}

/// What the policy says of `url` under `pattern`.
pub open spec fn verdict_spec(pattern: Seq<char>, url: Seq<char>) -> Result<bool, PatternError> {
    if pattern_compiles(pattern) {
        Ok(pattern_finds(pattern, url))
    } else {
        Err(PatternError)
    }
}

/// The decision on a decoded request once the policy has judged its URL.
pub open spec fn admit_spec(url: Seq<char>, email: Seq<char>, verdict: Result<bool, PatternError>) -> Result<
    InvitationView,
    EndpointError,
> {
    match verdict {
        Err(_) => Err(EndpointError::spec_bad_request(BAD_PATTERN_CODE)),
        Ok(false) => Err(EndpointError::spec_bad_request(URL_REJECTED_CODE)),
        Ok(true) => Ok(InvitationView { to: email, body: url, subject: invitation_subject() }),
    }
}

/// The answer to a decoding failure: 400 with the failure's code.
pub open spec fn decode_failure_spec(e: DecodeError) -> EndpointError {
    EndpointError::spec_bad_request(e.spec_code())
}

/// The decision on a request body (`None`: the body could not be read)
/// under the pattern `pattern`, before any mail is sent.
pub open spec fn prepare_spec(body: Option<Seq<char>>, pattern: Seq<char>) -> Result<
    InvitationView,
    EndpointError,
> {
    match body {
        None => Err(EndpointError::spec_internal()),
        Some(b) => match decode_body_spec(b) {
            Err(e) => Err(decode_failure_spec(e)),
            Ok((url, email)) => admit_spec(url, email, verdict_spec(pattern, url)),
        },
    }
}

/// The answer once the send has been attempted.
pub open spec fn sent_spec(sent: Result<(), ()>) -> Result<(), EndpointError> {
    match sent {
        Ok(()) => Ok(()),
        Err(()) => Err(EndpointError::spec_internal()),
    }
}

/// The answer to a body that does not decode.
pub fn decode_failure(e: DecodeError) -> (r: EndpointError)
    ensures
        r == decode_failure_spec(e),
{
    EndpointError::bad_request(e.code())
}

/// Decides on a decoded request given the policy's verdict on its URL.
pub fn accept_request(request: InvitationRequest, verdict: Result<bool, PatternError>) -> (r: Result<
    Invitation,
    EndpointError,
>)
    ensures
        outcome_view(r) == admit_spec(request.url@, request.email@, verdict),
{
    match verdict {
        Err(_) => Err(EndpointError::bad_request(BAD_PATTERN_CODE)),
        Ok(false) => Err(EndpointError::bad_request(URL_REJECTED_CODE)),
        Ok(true) => Ok(
            Invitation {
                to: request.email,
                body: request.url,
                subject: "Welcome to Link".to_owned(),
            },
        ),
    }
}

/// Decodes the body, checks its URL against the policy and returns the
/// message to send, or the error to answer with. `None` stands for a body
/// that could not be read.
pub fn prepare_invitation(body: Option<&str>, policy: &UrlPolicy) -> (r: Result<
    Invitation,
    EndpointError,
>)
    ensures
        outcome_view(r) == prepare_spec(
            match body {
                Some(b) => Some(b@),
                None => None,
            },
            policy.spec_pattern(),
        ),
{
    let body = match body {
        Some(b) => b,
        None => return Err(EndpointError::internal()),
    };
    let request = match decode_invitation(body) {
        Ok(request) => request,
        Err(e) => return Err(decode_failure(e)),
    };
    let verdict = policy.matches(request.url.as_str());
    accept_request(request, verdict)
}

/// The answer once the send has been attempted: 200 on success, else 500
/// with the internal code.
pub fn sent_outcome(sent: Result<(), ()>) -> (r: Result<(), EndpointError>)
    ensures
        r == sent_spec(sent),
{
    match sent {
        Ok(()) => Ok(()),
        Err(()) => Err(EndpointError::internal()),
    }
}

/// The message that an accepted invitation becomes, from `from`.
pub open spec fn message_of(from: Seq<char>, invitation: InvitationView) -> MessageView {
    MessageView { from, to: invitation.to, body: invitation.body, subject: invitation.subject }
}

/// Sends an accepted invitation through the (exclusively held) sender:
/// exactly one message, to the invitation's address with its body and
/// subject, is handed to the transport. The answer is 200 when the send
/// succeeds, else 500 with the internal code.
pub fn dispatch(sender: &mut EmailSender, invitation: &Invitation) -> (r: Result<(), EndpointError>)
    ensures
        r is Ok || r == Err::<(), EndpointError>(EndpointError::spec_internal()),
        final(sender).spec_from() == old(sender).spec_from(),
        final(sender).spec_settings() == old(sender).spec_settings(),
        final(sender).spec_sent() == old(sender).spec_sent().push(
            message_of(old(sender).spec_from(), invitation@),
        ),
{
    let sent = sender.send(invitation.to.as_str(), invitation.body.as_str(), invitation.subject.as_str());
    sent_outcome(sent)
}

/// A body that decodes, with a URL that a compiling pattern matches, yields
/// the message to its address with the URL as body and the fixed subject;
/// once that send succeeds the answer is 200 with nothing more.
pub proof fn lemma_accepted_request(body: Seq<char>, pattern: Seq<char>)
    requires
        decode_body_spec(body) is Ok,
        pattern_compiles(pattern),
        pattern_finds(pattern, decode_body_spec(body)->Ok_0.0),
    ensures
        prepare_spec(Some(body), pattern) == Ok::<InvitationView, EndpointError>(
            InvitationView {
                to: decode_body_spec(body)->Ok_0.1,
                body: decode_body_spec(body)->Ok_0.0,
                subject: invitation_subject(),
            },
        ),
        sent_spec(Ok(())) == Ok::<(), EndpointError>(()),
{
}

/// A body that does not decode is answered with 400, never 500, and no mail
/// is sent.
pub proof fn lemma_undecodable_body(body: Seq<char>, pattern: Seq<char>)
    requires
        decode_body_spec(body) is Err,
    ensures
        prepare_spec(Some(body), pattern) is Err,
        prepare_spec(Some(body), pattern)->Err_0.status == HttpStatus::BadRequest,
        prepare_spec(Some(body), pattern)->Err_0.code == decode_body_spec(body)->Err_0.spec_code(),
{
}

/// A URL that a compiling pattern does not match is answered with 400 and
/// the rejection code.
pub proof fn lemma_rejected_url(body: Seq<char>, pattern: Seq<char>)
    requires
        decode_body_spec(body) is Ok,
        pattern_compiles(pattern),
        !pattern_finds(pattern, decode_body_spec(body)->Ok_0.0),
    ensures
        prepare_spec(Some(body), pattern) == Err::<InvitationView, EndpointError>(
            EndpointError::spec_bad_request(URL_REJECTED_CODE),
        ),
{
}

/// Under a pattern that does not compile, every body that decodes is
/// answered with 400 and the bad-pattern code, whatever its URL.
pub proof fn lemma_bad_pattern(body: Seq<char>, pattern: Seq<char>)
    requires
        decode_body_spec(body) is Ok,
        !pattern_compiles(pattern),
    ensures
        prepare_spec(Some(body), pattern) == Err::<InvitationView, EndpointError>(
            EndpointError::spec_bad_request(BAD_PATTERN_CODE),
        ),
{
}

/// Requests are not deduplicated: a repeated valid request is accepted
/// again with the same message, and dispatching both (each step as
/// `dispatch` states it) hands the transport two identical messages to the
/// requested address, with the URL as body and the fixed subject.
pub proof fn lemma_repeated_request(
    body: Seq<char>,
    pattern: Seq<char>,
    from: Seq<char>,
    before: Seq<MessageView>,
    between: Seq<MessageView>,
    after: Seq<MessageView>,
)
    requires
        decode_body_spec(body) is Ok,
        pattern_compiles(pattern),
        pattern_finds(pattern, decode_body_spec(body)->Ok_0.0),
        between == before.push(message_of(from, prepare_spec(Some(body), pattern)->Ok_0)),
        after == between.push(message_of(from, prepare_spec(Some(body), pattern)->Ok_0)),
    ensures
        after.len() == before.len() + 2,
        after.subrange(0, before.len() as int) == before,
        after[before.len() as int] == after[before.len() + 1int],
        after[before.len() as int] == (MessageView {
            from,
            to: decode_body_spec(body)->Ok_0.1,
            body: decode_body_spec(body)->Ok_0.0,
            subject: invitation_subject(),
        }),
{
    assert(after.subrange(0, before.len() as int) =~= before);
}

/// Whether the service may start: the URL pattern and every SMTP setting
/// must be given.
pub fn config_complete(pattern: &str, server: &str, username: &str, password: &str) -> (r: bool)
    ensures
        r == (pattern@.len() > 0 && server@.len() > 0 && username@.len() > 0 && password@.len()
            > 0),
{
    !pattern.is_empty() && !server.is_empty() && !username.is_empty() && !password.is_empty()
}

} // verus!
