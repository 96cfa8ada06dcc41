//! Repository errors and the validation of request identifiers and
//! free-text selectors.
use vstd::prelude::*;
use vstd::string::*;
use crate::text::{any_control, chars_of, has_control, trim_bounds, trim_seq};

verus! {

/// The longest request identifier, in characters.
pub const MAX_REQUEST_ID_CHARS: usize = 64;

/// The longest optional identifier (selector), in characters.
pub const MAX_IDENTIFIER_CHARS: usize = 160;

/// The error body returned to a client.
#[derive(Debug, Clone)]
pub struct ApiError {
    pub code: String,
    pub message: String,
}

/// An error with its HTTP-like status.
#[derive(Debug, Clone)]
pub struct RepositoryError {
    pub status: u16,
    pub error: ApiError,
}

impl RepositoryError {
    /// The error made of a status, a code and a message.
    pub open spec fn spec_is(self, status: u16, code: Seq<char>, message: Seq<char>) -> bool {
        &&& self.status == status
        &&& self.error.code@ == code
        &&& self.error.message@ == message
    }

    pub fn new(status: u16, code: &str, message: &str) -> (r: Self)
        ensures
            r.spec_is(status, code@, message@),
    {
        RepositoryError {
            status,
            error: ApiError { code: code.to_owned(), message: message.to_owned() },
        }
    }

    /// The error made of a status, a code and an owned message.
    pub fn with_message(status: u16, code: &str, message: String) -> (r: Self)
        ensures
            r.spec_is(status, code@, message@),
    {
        RepositoryError { status, error: ApiError { code: code.to_owned(), message } }
    }

    pub fn unauthorized() -> (r: Self)
        ensures
            r.spec_is(401, "unauthorized"@, "A valid guest session is required."@),
    {
        Self::new(401, "unauthorized", "A valid guest session is required.")
    }
}

/// A request identifier is refused when it is blank after trimming, longer
/// than 64 characters, or holds a control character.
pub open spec fn request_id_refused(id: Seq<char>) -> bool {
    trim_seq(id).len() == 0 || id.len() > MAX_REQUEST_ID_CHARS || has_control(id)
}

/// A bounded text is refused when its trimmed form is empty, longer than
/// `max_chars` characters, or holds a control character.
pub open spec fn bounded_text_refused(value: Seq<char>, max_chars: nat) -> bool {
    let t = trim_seq(value);
    t.len() == 0 || t.len() > max_chars || has_control(t)
}

/// Validating bounded text is idempotent: a value that passes passes again
/// once trimmed, and trimming it again changes nothing, so validating the
/// accepted text returns it unchanged.
pub proof fn lemma_bounded_text_idempotent(value: Seq<char>, max_chars: nat)
    requires
        !bounded_text_refused(value, max_chars),
    ensures
        !bounded_text_refused(trim_seq(value), max_chars),
        trim_seq(trim_seq(value)) == trim_seq(value),
{
    crate::text::lemma_trim_idempotent(value);
}

pub fn validate_request_id(request_id: &str) -> (r: Result<(), RepositoryError>)
    ensures
        r.is_err() <==> request_id_refused(request_id@),
        r matches Err(e) ==> e.spec_is(
            400,
            "invalid_request_id"@,
            "Request IDs must contain 1 to 64 characters and no control characters."@,
        ),
{
    let chars = chars_of(request_id);
    let (start, end) = trim_bounds(&chars);
    if start == end || chars.len() > MAX_REQUEST_ID_CHARS || any_control(&chars) {
        Err(
            RepositoryError::new(
                400,
                "invalid_request_id",
                "Request IDs must contain 1 to 64 characters and no control characters.",
            ),
        )
    } else {
        Ok(())
    }
}

pub fn validate_bounded_text(value: &str, max_chars: usize, code: &str, message: &str) -> (r:
    Result<String, RepositoryError>)
    ensures
        r.is_err() <==> bounded_text_refused(value@, max_chars as nat),
        r matches Ok(t) ==> t@ == trim_seq(value@),
        r matches Err(e) ==> e.spec_is(400, code@, message@),
{
    let chars = chars_of(value);
    let (start, end) = trim_bounds(&chars);
    let ghost t = trim_seq(value@);
    let trimmed = value.substring_char(start, end);
    let trimmed_chars = chars_of(trimmed);
    if start == end || end - start > max_chars || any_control(&trimmed_chars) {
        Err(RepositoryError::new(400, code, message))
    } else {
        Ok(trimmed.to_owned())
    }
}

pub fn validate_optional_identifier(value: Option<&str>, code: &str, message: &str) -> (r: Result<
    Option<String>,
    RepositoryError,
>)
    ensures
        value is None ==> r == Ok::<Option<String>, RepositoryError>(None),
        value matches Some(v) ==> {
            &&& r.is_err() <==> bounded_text_refused(v@, MAX_IDENTIFIER_CHARS as nat)
            &&& r matches Ok(o) ==> (o matches Some(t) && t@ == trim_seq(v@))
            &&& r matches Err(e) ==> e.spec_is(400, code@, message@)
        },
{
    match value {
        None => Ok(None),
        Some(v) => match validate_bounded_text(v, MAX_IDENTIFIER_CHARS, code, message) {
            Ok(t) => Ok(Some(t)),
            Err(e) => Err(e),
        },
    }
}


/// The view of an optional borrowed text.
pub open spec fn opt_text(v: Option<&str>) -> Option<Seq<char>> {
    match v {
        Some(s) => Some(s@),
        None => None,
    }
}

/// An optional selector is refused when it is present and refused as a
/// bounded identifier.
pub open spec fn selector_refused(v: Option<Seq<char>>) -> bool {
    v matches Some(s) && bounded_text_refused(s, MAX_IDENTIFIER_CHARS as nat)
}

/// `o` is the accepted form of the optional selector `v`: absent, or trimmed.
pub open spec fn selector_kept(v: Option<Seq<char>>, o: Option<String>) -> bool {
    match v {
        None => o is None,
        Some(s) => o matches Some(t) && t@ == trim_seq(s),
    }
}

} // verus!
