//! Errors of the VTN and the problem reports (RFC 7807) they are answered with.

use vstd::prelude::*;

use crate::identifier::{identifier_error_text, IdentifierError};

verus! {

/// HTTP status codes the VTN answers with.
pub const STATUS_OK: u16 = 200u16;
pub const STATUS_CREATED: u16 = 201u16;
pub const STATUS_BAD_REQUEST: u16 = 400u16;
pub const STATUS_UNAUTHORIZED: u16 = 401u16;
pub const STATUS_FORBIDDEN: u16 = 403u16;
pub const STATUS_NOT_FOUND: u16 = 404u16;
pub const STATUS_METHOD_NOT_ALLOWED: u16 = 405u16;
pub const STATUS_CONFLICT: u16 = 409u16;
pub const STATUS_UNSUPPORTED_MEDIA_TYPE: u16 = 415u16;
pub const STATUS_INTERNAL_SERVER_ERROR: u16 = 500u16;
pub const STATUS_NOT_IMPLEMENTED: u16 = 501u16;

/// The text of a status line: the code, a space and its canonical reason phrase.
pub uninterp spec fn status_title(code: u16) -> Seq<char>;

/// The status lines of the codes the VTN answers with: the code, a space and
/// the canonical reason phrase.
pub open spec fn canonical_title(code: u16) -> Option<Seq<char>> {
    if code == 200 {
        Some("200 OK"@)
    } else if code == 201 {
        Some("201 Created"@)
    } else if code == 400 {
        Some("400 Bad Request"@)
    } else if code == 401 {
        Some("401 Unauthorized"@)
    } else if code == 403 {
        Some("403 Forbidden"@)
    } else if code == 404 {
        Some("404 Not Found"@)
    } else if code == 405 {
        Some("405 Method Not Allowed"@)
    } else if code == 409 {
        Some("409 Conflict"@)
    } else if code == 415 {
        Some("415 Unsupported Media Type"@)
    } else if code == 500 {
        Some("500 Internal Server Error"@)
    } else if code == 501 {
        Some("501 Not Implemented"@)
    } else {
        None
    }
}

/// `axum::http::StatusCode::to_string` of the status `code`, which writes the
/// code and its canonical reason phrase. Claimed: the text is a function of
/// the code (named `status_title`), and for the codes the VTN answers with it
/// is the status line that http's table of reason phrases gives. The code must
/// lie in 100..=999, the range `StatusCode::from_u16` accepts.
#[verifier::external_body]
fn status_text(code: u16) -> (r: String)
    requires
        100 <= code <= 999,
    ensures
        r@ == status_title(code),
        canonical_title(code) matches Some(t) ==> r@ == t,
{
    match axum::http::StatusCode::from_u16(code) {
        Ok(status) => status.to_string(),
        Err(_) => String::new(),
    }
}

/// A fresh random reference under which an error is logged, the hyphenated
/// text of `uuid::Uuid::new_v4()`. Nothing is claimed of it.
#[verifier::external_body]
fn new_reference() -> (r: String) {
    uuid::Uuid::new_v4().to_string()
}

/// Everything that can go wrong while the VTN answers a request. Errors that
/// an outside library reports are carried by their message.
#[derive(Debug)]
pub enum AppError {
    /// The request failed validation.
    Validation(String),
    /// The body is no valid JSON of the expected shape.
    Json(String),
    /// The body is no valid form of the expected shape.
    Form(String),
    /// The query string is not of the expected shape.
    QueryParams(String),
    NotFound,
    BadRequest(&'static str),
    Forbidden(&'static str),
    NotImplemented(&'static str),
    Conflict(String),
    ForeignKeyConstraintViolated(String),
    Auth(String),
    Sql(String),
    SerdeJsonInternalServerError(String),
    SerdeJsonBadRequest(String),
    Identifier(IdentifierError),
    MethodNotAllowed,
    PasswordHashError(String),
    UnsupportedMediaType(String),
}

impl Clone for AppError {
    fn clone(&self) -> (r: Self)
        ensures
            r == *self,
    {
        match self {
            AppError::Validation(m) => AppError::Validation(m.clone()),
            AppError::Json(m) => AppError::Json(m.clone()),
            AppError::Form(m) => AppError::Form(m.clone()),
            AppError::QueryParams(m) => AppError::QueryParams(m.clone()),
            AppError::NotFound => AppError::NotFound,
            AppError::BadRequest(m) => AppError::BadRequest(m),
            AppError::Forbidden(m) => AppError::Forbidden(m),
            AppError::NotImplemented(m) => AppError::NotImplemented(m),
            AppError::Conflict(m) => AppError::Conflict(m.clone()),
            AppError::ForeignKeyConstraintViolated(m) => AppError::ForeignKeyConstraintViolated(m.clone()),
            AppError::Auth(m) => AppError::Auth(m.clone()),
            AppError::Sql(m) => AppError::Sql(m.clone()),
            AppError::SerdeJsonInternalServerError(m) => AppError::SerdeJsonInternalServerError(m.clone()),
            AppError::SerdeJsonBadRequest(m) => AppError::SerdeJsonBadRequest(m.clone()),
            AppError::Identifier(e) => AppError::Identifier(e.clone()),
            AppError::MethodNotAllowed => AppError::MethodNotAllowed,
            AppError::PasswordHashError(m) => AppError::PasswordHashError(m.clone()),
            AppError::UnsupportedMediaType(m) => AppError::UnsupportedMediaType(m.clone()),
        }
    }
}

/// The `type` of a problem report; `about:blank` by default.
#[derive(Debug, Clone, PartialEq, Eq)]
pub struct ProblemUri(pub String);

impl ProblemUri {
    /// The default problem type, `about:blank`.
    pub fn default_uri() -> (r: ProblemUri)
        ensures
            r.0@ == "about:blank"@,
    {
        ProblemUri(String::from_str("about:blank"))
    }
}

impl Default for ProblemUri {
    fn default() -> (r: ProblemUri)
        ensures
            r.0@ == "about:blank"@,
    {
        ProblemUri::default_uri()
    }
}

/// A problem report (RFC 7807).
#[derive(Debug, Clone)]
pub struct Problem {
    pub problem_type: ProblemUri,
    pub title: Option<String>,
    pub status: u16,
    pub detail: Option<String>,
    pub instance: Option<String>,
}

/// The status an error is answered with.
pub open spec fn error_status(e: AppError) -> u16 {
    match e {
        AppError::Validation(_) => STATUS_BAD_REQUEST,
        AppError::Json(_) => STATUS_BAD_REQUEST,
        AppError::Form(_) => STATUS_BAD_REQUEST,
        AppError::QueryParams(_) => STATUS_BAD_REQUEST,
        AppError::NotFound => STATUS_NOT_FOUND,
        AppError::BadRequest(_) => STATUS_BAD_REQUEST,
        AppError::Forbidden(_) => STATUS_FORBIDDEN,
        AppError::NotImplemented(_) => STATUS_NOT_IMPLEMENTED,
        AppError::Conflict(_) => STATUS_CONFLICT,
        AppError::ForeignKeyConstraintViolated(_) => STATUS_BAD_REQUEST,
        AppError::Auth(_) => STATUS_UNAUTHORIZED,
        AppError::Sql(_) => STATUS_INTERNAL_SERVER_ERROR,
        AppError::SerdeJsonInternalServerError(_) => STATUS_INTERNAL_SERVER_ERROR,
        AppError::SerdeJsonBadRequest(_) => STATUS_BAD_REQUEST,
        AppError::Identifier(_) => STATUS_BAD_REQUEST,
        AppError::MethodNotAllowed => STATUS_METHOD_NOT_ALLOWED,
        AppError::PasswordHashError(_) => STATUS_INTERNAL_SERVER_ERROR,
        AppError::UnsupportedMediaType(_) => STATUS_UNSUPPORTED_MEDIA_TYPE,
    }
}

/// The detail an error is answered with: its message where it can be shown,
/// a fixed text where the cause must stay internal.
pub open spec fn error_detail(e: AppError) -> Option<Seq<char>> {
    match e {
        AppError::Validation(m) => Some(m@),
        AppError::Json(m) => Some(m@),
        AppError::Form(m) => Some(m@),
        AppError::QueryParams(m) => Some(m@),
        AppError::NotFound => None,
        AppError::BadRequest(m) => Some(m@),
        AppError::Forbidden(m) => Some(m@),
        AppError::NotImplemented(m) => Some(m@),
        AppError::Conflict(m) => Some(m@),
        AppError::ForeignKeyConstraintViolated(m) => Some(m@),
        AppError::Auth(m) => Some(m@),
        AppError::Sql(_) => Some("A database error occurred"@),
        AppError::SerdeJsonInternalServerError(_) => None,
        AppError::SerdeJsonBadRequest(m) => Some(m@),
        AppError::Identifier(ie) => Some(identifier_error_text(ie)),
        AppError::MethodNotAllowed => Some("See allow headers for allowed methods"@),
        AppError::PasswordHashError(_) => Some("An internal error occurred"@),
        AppError::UnsupportedMediaType(m) => Some(m@),
    }
}

/// The problem report answers the error under the given reference.
pub open spec fn answers(p: Problem, e: AppError, reference: Seq<char>) -> bool {
    &&& p.problem_type.0@ == "about:blank"@
    &&& p.status == error_status(e)
    &&& p.title matches Some(t) && t@ == status_title(error_status(e))
    &&& p.title matches Some(t) && canonical_title(error_status(e)) == Some(t@)
    &&& match (p.detail, error_detail(e)) {
        (None, None) => true,
        (Some(d), Some(expected)) => d@ == expected,
        _ => false,
    }
    &&& p.instance matches Some(i) && i@ == reference
}

fn status_of(e: &AppError) -> (r: u16)
    ensures
        r == error_status(*e),
{
    match e {
        AppError::Validation(_) => STATUS_BAD_REQUEST,
        AppError::Json(_) => STATUS_BAD_REQUEST,
        AppError::Form(_) => STATUS_BAD_REQUEST,
        AppError::QueryParams(_) => STATUS_BAD_REQUEST,
        AppError::NotFound => STATUS_NOT_FOUND,
        AppError::BadRequest(_) => STATUS_BAD_REQUEST,
        AppError::Forbidden(_) => STATUS_FORBIDDEN,
        AppError::NotImplemented(_) => STATUS_NOT_IMPLEMENTED,
        AppError::Conflict(_) => STATUS_CONFLICT,
        AppError::ForeignKeyConstraintViolated(_) => STATUS_BAD_REQUEST,
        AppError::Auth(_) => STATUS_UNAUTHORIZED,
        AppError::Sql(_) => STATUS_INTERNAL_SERVER_ERROR,
        AppError::SerdeJsonInternalServerError(_) => STATUS_INTERNAL_SERVER_ERROR,
        AppError::SerdeJsonBadRequest(_) => STATUS_BAD_REQUEST,
        AppError::Identifier(_) => STATUS_BAD_REQUEST,
        AppError::MethodNotAllowed => STATUS_METHOD_NOT_ALLOWED,
        AppError::PasswordHashError(_) => STATUS_INTERNAL_SERVER_ERROR,
        AppError::UnsupportedMediaType(_) => STATUS_UNSUPPORTED_MEDIA_TYPE,
    }
}

fn detail_of(e: AppError) -> (r: Option<String>)
    ensures
        match (r, error_detail(e)) {
            (None, None) => true,
            (Some(d), Some(expected)) => d@ == expected,
            _ => false,
        },
{
    match e {
        AppError::Validation(m) => Some(m),
        AppError::Json(m) => Some(m),
        AppError::Form(m) => Some(m),
        AppError::QueryParams(m) => Some(m),
        AppError::NotFound => None,
        AppError::BadRequest(m) => Some(m.to_owned()),
        AppError::Forbidden(m) => Some(m.to_owned()),
        AppError::NotImplemented(m) => Some(m.to_owned()),
        AppError::Conflict(m) => Some(m),
        AppError::ForeignKeyConstraintViolated(m) => Some(m),
        AppError::Auth(m) => Some(m),
        AppError::Sql(_) => Some(String::from_str("A database error occurred")),
        AppError::SerdeJsonInternalServerError(_) => None,
        AppError::SerdeJsonBadRequest(m) => Some(m),
        AppError::Identifier(ie) => Some(ie.message()),
        AppError::MethodNotAllowed => Some(String::from_str("See allow headers for allowed methods")),
        AppError::PasswordHashError(_) => Some(String::from_str("An internal error occurred")),
        AppError::UnsupportedMediaType(m) => Some(m),
    }
}

impl AppError {
    /// The problem report that answers the error, logged under `reference`.
    pub fn problem_with_reference(self, reference: String) -> (p: Problem)
        ensures
            answers(p, self, reference@),
    {
        let status = status_of(&self);
        let title = status_text(status);
        let detail = detail_of(self);
        Problem {
            problem_type: ProblemUri::default_uri(),
            title: Some(title),
            status,
            detail,
            instance: Some(reference),
        }
    }

    /// The error a body that could not be read as JSON is answered with: where
    /// the JSON content type is missing, an unsupported media type; otherwise
    /// an invalid request. `message` is the text of the rejection.
    pub fn from_json_rejection(missing_content_type: bool, message: String) -> (r: AppError)
        ensures
            r == (if missing_content_type {
                AppError::UnsupportedMediaType(message)
            } else {
                AppError::Json(message)
            }),
    {
        if missing_content_type {
            AppError::UnsupportedMediaType(message)
        } else {
            AppError::Json(message)
        }
    }

    /// The error a body that could not be read as a form is answered with:
    /// where the form content type is wrong, an unsupported media type;
    /// otherwise an invalid request. `message` is the text of the rejection.
    pub fn from_form_rejection(invalid_content_type: bool, message: String) -> (r: AppError)
        ensures
            r == (if invalid_content_type {
                AppError::UnsupportedMediaType(message)
            } else {
                AppError::Form(message)
            }),
    {
        if invalid_content_type {
            AppError::UnsupportedMediaType(message)
        } else {
            AppError::Form(message)
        }
    }

    /// The problem report that answers the error, under a fresh random reference.
    pub fn into_problem(self) -> (p: Problem)
        ensures
            exists|reference: Seq<char>| answers(p, self, reference),
    {
        let reference = new_reference();
        self.problem_with_reference(reference)
    }
}

impl From<IdentifierError> for AppError {
    fn from(e: IdentifierError) -> (r: AppError) {
        AppError::Identifier(e)
    }
}

impl vstd::std_specs::convert::FromSpecImpl<IdentifierError> for AppError {
    open spec fn obeys_from_spec() -> bool {
        true
    }

    open spec fn from_spec(e: IdentifierError) -> AppError {
        AppError::Identifier(e)
    }
}


/// The status and title of a problem report follow the kind of error: an
/// invalid request (validation, JSON, form, query, bad request, foreign key,
/// bad JSON, malformed identifier) is 400, an unauthenticated one 401, a
/// forbidden one 403, a missing object 404, a wrong method 405, a name
/// conflict 409, a wrong media type 415, a failure inside the server 500, and
/// what is not implemented 501; the title is the code and its reason phrase.
pub proof fn lemma_problem_status(p: Problem, e: AppError, reference: Seq<char>)
    requires
        answers(p, e, reference),
    ensures
        p.title is Some,
        (e is Validation || e is Json || e is Form || e is QueryParams || e is BadRequest
            || e is ForeignKeyConstraintViolated || e is SerdeJsonBadRequest || e is Identifier) ==> p.status == 400
            && (p.title->0)@ == "400 Bad Request"@,
        e is Auth ==> p.status == 401 && (p.title->0)@ == "401 Unauthorized"@,
        e is Forbidden ==> p.status == 403 && (p.title->0)@ == "403 Forbidden"@,
        e is NotFound ==> p.status == 404 && (p.title->0)@ == "404 Not Found"@,
        e is MethodNotAllowed ==> p.status == 405 && (p.title->0)@ == "405 Method Not Allowed"@,
        e is Conflict ==> p.status == 409 && (p.title->0)@ == "409 Conflict"@,
        e is UnsupportedMediaType ==> p.status == 415 && (p.title->0)@ == "415 Unsupported Media Type"@,
        (e is Sql || e is SerdeJsonInternalServerError || e is PasswordHashError) ==> p.status == 500
            && (p.title->0)@ == "500 Internal Server Error"@,
        e is NotImplemented ==> p.status == 501 && (p.title->0)@ == "501 Not Implemented"@,
{
}

} // verus!
