use rustc_serialize::json::Json;
use crate::nesting::{nesting_depth, within_nesting, MAX_NESTING};
use vstd::prelude::*;

verus! {

/// What a JSON document holds under one key of its top-level object.
pub enum Member {
    /// The text is not JSON.
    Malformed,
    /// The document is JSON but not an object.
    NotObject,
    /// The object has no such key.
    Absent,
    /// The key holds a string.
    Text(String),
    /// The key holds something other than a string.
    Other,
}

/// The mathematical value of a [`Member`].
pub enum MemberView {
    Malformed,
    NotObject,
    Absent,
    Text(Seq<char>),
    Other,
}

impl View for Member {
    type V = MemberView;

    open spec fn view(&self) -> MemberView {
        match self {
            Member::Malformed => MemberView::Malformed,
            Member::NotObject => MemberView::NotObject,
            Member::Absent => MemberView::Absent,
            Member::Text(s) => MemberView::Text(s@),
            Member::Other => MemberView::Other,
        }
    }
}

/// What `rustc_serialize::json::Json::from_str` makes of `text`, looked up
/// under `key`.
pub uninterp spec fn json_member(text: Seq<char>, key: Seq<char>) -> MemberView;

/// Relies on `rustc_serialize::json::Json::from_str` to parse the text; the
/// top-level object is then read under `key`. The outcome depends on the
/// two strings alone. The parser recurses once per level of nesting, without
/// a limit of its own, so the text is held to a bounded nesting.
#[verifier::external_body]
fn lookup_member(text: &str, key: &str) -> (r: Member)
    requires
        nesting_depth(text@) <= MAX_NESTING,
    ensures
        r@ == json_member(text@, key@),
{
    match Json::from_str(text) {
        Err(_) => Member::Malformed,
        Ok(Json::Object(obj)) => match obj.get(key) {
            None => Member::Absent,
            Some(Json::String(s)) => Member::Text(s.clone()),
            Some(_) => Member::Other,
        },
        Ok(_) => Member::NotObject,
    }
}

/// The two fields of an invitation request.
#[derive(Clone, Copy, Debug, PartialEq, Eq, Structural)]
pub enum Field {
    Url,
    Email,
}

/// Why a request body does not decode.
#[derive(Clone, Copy, Debug, PartialEq, Eq, Structural)]
pub enum DecodeError {
    /// The body is not JSON.
    Syntax,
    /// The body, or one of its fields, has the wrong JSON type.
    WrongType,
    /// A field is missing.
    MissingField(Field),
    /// Arrays and objects nest deeper than the service reads.
    TooDeep,
}

/// Response code of a body that is not JSON.
pub const SYNTAX_CODE: u32 = 103;

/// Response code of a body or field of the wrong JSON type.
pub const WRONG_TYPE_CODE: u32 = 104;

/// Response code of a body without its `url` field.
pub const MISSING_URL_CODE: u32 = 105;

/// Response code of a body without its `email` field.
pub const MISSING_EMAIL_CODE: u32 = 106;

/// Response code of a body that nests too deeply.
pub const TOO_DEEP_CODE: u32 = 107;

impl DecodeError {
    pub open spec fn spec_code(self) -> u32 {
        match self {
            DecodeError::Syntax => SYNTAX_CODE,
            DecodeError::WrongType => WRONG_TYPE_CODE,
            DecodeError::MissingField(Field::Url) => MISSING_URL_CODE,
            DecodeError::MissingField(Field::Email) => MISSING_EMAIL_CODE,
            DecodeError::TooDeep => TOO_DEEP_CODE,
        }
    }

    /// The code reported to the client for this failure.
    pub fn code(self) -> (r: u32)
        ensures
            r == self.spec_code(),
    {
        match self {
            DecodeError::Syntax => SYNTAX_CODE,
            DecodeError::WrongType => WRONG_TYPE_CODE,
            DecodeError::MissingField(Field::Url) => MISSING_URL_CODE,
            DecodeError::MissingField(Field::Email) => MISSING_EMAIL_CODE,
            DecodeError::TooDeep => TOO_DEEP_CODE,
        }
    }
}

/// A decoded invitation request.
pub struct InvitationRequest {
    pub url: String,
    pub email: String,
}

/// How one member decodes as a string field.
pub open spec fn field_spec(m: MemberView, field: Field) -> Result<Seq<char>, DecodeError> {
    match m {
        MemberView::Malformed => Err(DecodeError::Syntax),
        MemberView::NotObject => Err(DecodeError::WrongType),
        MemberView::Absent => Err(DecodeError::MissingField(field)),
        MemberView::Text(s) => Ok(s),
        MemberView::Other => Err(DecodeError::WrongType),
    }
}

/// Decoding of a body whose `url` and `email` members are `url` and `email`:
/// `url` is read first, and its failure is the one reported.
pub open spec fn decode_spec(url: MemberView, email: MemberView) -> Result<
    (Seq<char>, Seq<char>),
    DecodeError,
> {
    match field_spec(url, Field::Url) {
        Err(e) => Err(e),
        Ok(u) => match field_spec(email, Field::Email) {
            Err(e) => Err(e),
            Ok(m) => Ok((u, m)),
        },
    }
}

/// Decoding of the body text `body`: a body nested too deeply is refused
/// before it is parsed.
pub open spec fn decode_body_spec(body: Seq<char>) -> Result<(Seq<char>, Seq<char>), DecodeError> {
    if nesting_depth(body) > MAX_NESTING {
        Err(DecodeError::TooDeep)
    } else {
        decode_spec(json_member(body, "url"@), json_member(body, "email"@))
    }
}

/// Whether `r` is the executable form of the decoding outcome `d`.
pub open spec fn decoded_as(
    r: Result<InvitationRequest, DecodeError>,
    d: Result<(Seq<char>, Seq<char>), DecodeError>,
) -> bool {
    match (r, d) {
        (Ok(req), Ok((u, m))) => req.url@ == u && req.email@ == m,
        (Err(e1), Err(e2)) => e1 == e2,
        _ => false,
    }
}

fn decode_field(m: Member, field: Field) -> (r: Result<String, DecodeError>)
    ensures
        match (r, field_spec(m@, field)) {
            (Ok(s), Ok(t)) => s@ == t,
            (Err(e1), Err(e2)) => e1 == e2,
            _ => false,
        },
{
    match m {
        Member::Malformed => Err(DecodeError::Syntax),
        Member::NotObject => Err(DecodeError::WrongType),
        Member::Absent => Err(DecodeError::MissingField(field)),
        Member::Text(s) => Ok(s),
        Member::Other => Err(DecodeError::WrongType),
    }
}

/// Decodes a request from its two members as read from the body.
pub fn decode_members(url: Member, email: Member) -> (r: Result<InvitationRequest, DecodeError>)
    ensures
        decoded_as(r, decode_spec(url@, email@)),
{
    let u = match decode_field(url, Field::Url) {
        Ok(u) => u,
        Err(e) => return Err(e),
    };
    match decode_field(email, Field::Email) {
        Ok(m) => Ok(InvitationRequest { url: u, email: m }),
        Err(e) => Err(e),
    }
}

/// Decodes a JSON body `{"url": string, "email": string}`; other members
/// are ignored.
pub fn decode_invitation(body: &str) -> (r: Result<InvitationRequest, DecodeError>)
    ensures
        decoded_as(r, decode_body_spec(body@)),
{
    if !within_nesting(body) {
        return Err(DecodeError::TooDeep);
    }
    let url = lookup_member(body, "url");
    match url {
        Member::Text(_) => {
            let email = lookup_member(body, "email");
            decode_members(url, email)
        },
        _ => {
            // The url member alone decides the outcome here.
            decode_members(url, Member::Absent)
        },
    }
}

} // verus!
