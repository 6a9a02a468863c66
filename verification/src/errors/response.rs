//! What a failure looks like to the caller of the API.

use crate::clock::{is_timestamp, rfc3339, rfc3339_text, unix_now};
use crate::errors::api::ApiError;
use crate::errors::auth::AuthError;
use crate::errors::db::DatabaseError;
use crate::errors::error::{CoreError, FieldErrors};
use crate::errors::jwt::JwtError;
use crate::ids::{fresh_id, ID_LEN};
use crate::json::{empty_object, from_list, from_text, insert, json_of, jsons_of, Json};
use crate::models::token_claims::{clone_opt, opt_text};
use vstd::prelude::*;
use vstd::string::*;

verus! {

/// The HTTP statuses that answer failures.
pub const BAD_REQUEST: u16 = 400;

pub const UNAUTHORIZED: u16 = 401;

pub const FORBIDDEN: u16 = 403;

pub const NOT_FOUND: u16 = 404;

pub const CONFLICT: u16 = 409;

pub const PAYLOAD_TOO_LARGE: u16 = 413;

pub const UNPROCESSABLE_ENTITY: u16 = 422;

pub const TOO_MANY_REQUESTS: u16 = 429;

pub const INTERNAL_SERVER_ERROR: u16 = 500;

/// The code, the words and the details of a failure, as the response body
/// shows them.
#[derive(Debug)]
pub struct ErrorDetail {
    pub code: String,
    pub message: String,
    pub details: Option<serde_json::Value>,
}

/// The body of the response that reports a failure.
#[derive(Debug)]
pub struct ErrorResponse {
    pub error: ErrorDetail,
    pub trace_id: Option<String>,
    /// When the response was made, in the form of RFC 3339.
    pub timestamp: String,
}

/// A failure as the caller of the API gets it: an HTTP status, a code,
/// words, and the id under which it was logged.
#[derive(Debug)]
pub struct HttpError {
    pub message: String,
    pub status: u16,
    pub code: String,
    pub trace_id: Option<String>,
    pub details: Option<serde_json::Value>,
}

/// The document of optional details.
pub open spec fn opt_json(details: Option<serde_json::Value>) -> Option<Json> {
    match details {
        Some(v) => Some(json_of(v)),
        None => None,
    }
}

/// A failure as the caller gets it, as a mathematical value.
pub struct HttpErrorView {
    pub message: Seq<char>,
    pub status: u16,
    pub code: Seq<char>,
    pub trace_id: Option<Seq<char>>,
    pub details: Option<Json>,
}

impl View for HttpError {
    type V = HttpErrorView;

    open spec fn view(&self) -> HttpErrorView {
        HttpErrorView {
            message: self.message@,
            status: self.status,
            code: self.code@,
            trace_id: opt_text(self.trace_id),
            details: opt_json(self.details),
        }
    }
}

/// The message of one broken rule of `field`: its own, or a general one
/// that names the field.
pub open spec fn rule_message(field: Seq<char>, message: Option<String>) -> Seq<char> {
    match message {
        Some(m) => m@,
        None => "Invalid value for field: "@ + field,
    }
}

/// The messages of the broken rules of one field, as a JSON list.
pub open spec fn field_messages(errors: FieldErrors) -> Json {
    Json::List(
        errors.messages@.map_values(
            |m: Option<String>| Json::Text(rule_message(errors.field@, m)),
        ),
    )
}

/// The members of the details of a failed validation: for each field the
/// list of its messages. Of a field that is listed twice the later list
/// stands.
pub open spec fn validation_members(fields: Seq<FieldErrors>) -> Map<Seq<char>, Json>
    decreases fields.len(),
{
    if fields.len() == 0 {
        Map::empty()
    } else {
        validation_members(fields.drop_last()).insert(
            fields.last().field@,
            field_messages(fields.last()),
        )
    }
}

/// The HTTP status that answers a failure. Every refused credential is
/// unauthorized: whatever a presented token is refused for, its end, its
/// form, its signature, its algorithm, or a session that is missing or
/// revoked, the status is the same. A missing session and a revoked one are
/// one failure and are answered alike in every part, so that the answer
/// does not tell which sessions exist. Only a token that could not be made
/// is a bad request.
pub open spec fn status_of(error: CoreError) -> u16 {
    match error {
        CoreError::Jwt(e) => match e {
            JwtError::EncodingError => BAD_REQUEST,
            _ => UNAUTHORIZED,
        },
        CoreError::Db(e) => match e {
            DatabaseError::NotFound(_) => NOT_FOUND,
            DatabaseError::ConstraintViolation(_) => CONFLICT,
            _ => INTERNAL_SERVER_ERROR,
        },
        CoreError::Auth(e) => match e {
            AuthError::InvalidCredentials => UNAUTHORIZED,
            AuthError::TokenExpired => UNAUTHORIZED,
            AuthError::TokenNotProvided => UNAUTHORIZED,
            AuthError::InvalidToken => UNAUTHORIZED,
            AuthError::NotAuthenticated => UNAUTHORIZED,
            AuthError::PermissionDenied => FORBIDDEN,
            AuthError::EmailAlreadyExists => CONFLICT,
            _ => BAD_REQUEST,
        },
        CoreError::Api(e) => match e {
            ApiError::NotFound => NOT_FOUND,
            ApiError::RateLimitExceeded => TOO_MANY_REQUESTS,
            ApiError::PayloadTooLarge => PAYLOAD_TOO_LARGE,
            _ => BAD_REQUEST,
        },
        CoreError::Validation(_) => UNPROCESSABLE_ENTITY,
        CoreError::Internal { .. } => INTERNAL_SERVER_ERROR,
    }
}

/// The code that the caller gets for a failure. A failure of the store that
/// is neither a missing record nor a conflict is reported as an internal
/// failure.
pub open spec fn code_of(error: CoreError) -> Seq<char> {
    match error {
        CoreError::Db(e) => match e {
            DatabaseError::NotFound(_) => "DB_NOT_FOUND"@,
            DatabaseError::ConstraintViolation(_) => "DB_CONSTRAINT_VIOLATION"@,
            _ => "INTERNAL_SERVER_ERROR"@,
        },
        _ => error.code(),
    }
}

/// The words that the caller gets for a failure. Of a failure of the store
/// or an internal failure the caller learns no more than that it happened;
/// of a missing record or a conflict, the store's message; of every refused
/// token with a bad form or signature the same words.
pub open spec fn message_of(error: CoreError) -> Seq<char> {
    match error {
        CoreError::Jwt(e) => match e {
            JwtError::TokenExpired => "JWT token has expired"@,
            JwtError::InvalidToken => "Invalid JWT token"@,
            JwtError::InvalidSignature => "Invalid JWT token"@,
            JwtError::InvalidFormat => "Invalid JWT token"@,
            _ => e.text(),
        },
        CoreError::Db(e) => match e {
            DatabaseError::NotFound(msg) => msg@,
            DatabaseError::ConstraintViolation(msg) => msg@,
            _ => "Database operation failed"@,
        },
        CoreError::Auth(e) => e.text(),
        CoreError::Api(e) => e.text(),
        CoreError::Validation(_) => "Validation failed"@,
        CoreError::Internal { .. } => "Internal server error"@,
    }
}

/// The details that the caller gets for a failure: for a failed validation
/// the messages of every field, else none.
pub open spec fn details_of(error: CoreError) -> Option<Json> {
    match error {
        CoreError::Validation(fields) => Some(Json::Object(validation_members(fields@))),
        _ => None,
    }
}

/// The messages of the broken rules of one field, as a JSON value.
fn field_messages_value(errors: &FieldErrors) -> (v: serde_json::Value)
    ensures
        json_of(v) == field_messages(*errors),
{
    let mut items: Vec<serde_json::Value> = Vec::new();
    let mut i: usize = 0;
    while i < errors.messages.len()
        invariant
            i <= errors.messages.len(),
            items.len() == i,
            forall|k: int|
                0 <= k < i ==> json_of(#[trigger] items@[k]) == Json::Text(
                    rule_message(errors.field@, errors.messages@[k]),
                ),
        decreases errors.messages.len() - i,
    {
        let item = match &errors.messages[i] {
            Some(m) => from_text(m.as_str()),
            None => from_text(
                "Invalid value for field: ".to_owned().concat(errors.field.as_str()).as_str(),
            ),
        };
        items.push(item);
        i += 1;
    }
    assert(jsons_of(items@) =~= errors.messages@.map_values(
        |m: Option<String>| Json::Text(rule_message(errors.field@, m)),
    ));
    from_list(items)
}

/// The details of a failed validation, as a JSON value.
fn validation_details(fields: &Vec<FieldErrors>) -> (v: serde_json::Value)
    ensures
        json_of(v) == Json::Object(validation_members(fields@)),
{
    let mut details = empty_object();
    let mut i: usize = 0;
    assert(fields@.subrange(0, 0) =~= Seq::<FieldErrors>::empty());
    while i < fields.len()
        invariant
            i <= fields.len(),
            json_of(details) == Json::Object(validation_members(fields@.subrange(0, i as int))),
        decreases fields.len() - i,
    {
        let ghost next = fields@.subrange(0, i + 1);
        assert(next.drop_last() =~= fields@.subrange(0, i as int));
        assert(next.last() == fields@[i as int]);
        insert(&mut details, fields[i].field.as_str(), field_messages_value(&fields[i]));
        i += 1;
    }
    assert(fields@.subrange(0, fields@.len() as int) =~= fields@);
    details
}

impl ErrorResponse {
    /// The body that reports a failure, made at the second `now`.
    pub fn new_at(
        code: String,
        message: String,
        details: Option<serde_json::Value>,
        trace_id: Option<String>,
        now: i64,
    ) -> (body: Self)
        ensures
            body.error.code == code,
            body.error.message == message,
            opt_json(body.error.details) == opt_json(details),
            body.trace_id == trace_id,
            match rfc3339_text(now as int) {
                Some(text) => body.timestamp@ == text,
                None => body.timestamp@.len() == 0,
            },
    {
        let timestamp = match rfc3339(now) {
            Some(text) => text,
            None => String::new(),
        };
        ErrorResponse { error: ErrorDetail { code, message, details }, trace_id, timestamp }
    }

    /// The body that reports a failure without details, made at the clock's
    /// current second.
    pub fn new(code: String, message: String, trace_id: Option<String>) -> (body: Self)
        ensures
            body.error.code == code,
            body.error.message == message,
            body.error.details is None,
            body.trace_id == trace_id,
            exists|now: int|
                is_timestamp(now) && #[trigger] rfc3339_text(now) == Some(body.timestamp@)
                    || body.timestamp@.len() == 0,
    {
        let now = unix_now();
        let body = Self::new_at(code, message, None, trace_id, now);
        assert(rfc3339_text(now as int) == Some(body.timestamp@) || body.timestamp@.len() == 0);
        body
    }

    /// The body that reports a failure with details, made at the clock's
    /// current second.
    pub fn with_details(
        code: String,
        message: String,
        details: serde_json::Value,
        trace_id: Option<String>,
    ) -> (body: Self)
        ensures
            body.error.code == code,
            body.error.message == message,
            opt_json(body.error.details) == Some(json_of(details)),
            body.trace_id == trace_id,
            exists|now: int|
                is_timestamp(now) && #[trigger] rfc3339_text(now) == Some(body.timestamp@)
                    || body.timestamp@.len() == 0,
    {
        let now = unix_now();
        let body = Self::new_at(code, message, Some(details), trace_id, now);
        assert(rfc3339_text(now as int) == Some(body.timestamp@) || body.timestamp@.len() == 0);
        body
    }
}

impl HttpError {
    /// A failure with the given words, status and code, under a fresh trace
    /// id.
    pub fn new(message: String, status: u16, code: String) -> (error: Self)
        ensures
            error@ == (HttpErrorView {
                message: message@,
                status,
                code: code@,
                trace_id: error@.trace_id,
                details: None,
            }),
            error@.trace_id matches Some(id) && id.len() == ID_LEN,
    {
        HttpError { message, status, code, trace_id: Some(fresh_id()), details: None }
    }

    /// A failure with the given words, status and code, under the given
    /// trace id.
    pub fn with_trace_id(message: String, status: u16, code: String, trace_id: String) -> (error:
        Self)
        ensures
            error@ == (HttpErrorView {
                message: message@,
                status,
                code: code@,
                trace_id: Some(trace_id@),
                details: None,
            }),
    {
        HttpError { message, status, code, trace_id: Some(trace_id), details: None }
    }

    /// The failure, with the given details.
    pub fn with_details(self, details: serde_json::Value) -> (error: Self)
        ensures
            error@ == (HttpErrorView { details: Some(json_of(details)), ..self@ }),
    {
        HttpError {
            message: self.message,
            status: self.status,
            code: self.code,
            trace_id: self.trace_id,
            details: Some(details),
        }
    }

    /// A failure inside the server: status 500.
    pub fn server_error(message: String) -> (error: Self)
        ensures
            error@.message == message@,
            error@.status == INTERNAL_SERVER_ERROR,
            error@.code == "INTERNAL_SERVER_ERROR"@,
            error@.trace_id matches Some(id) && id.len() == ID_LEN,
            error@.details is None,
    {
        HttpError::new(message, INTERNAL_SERVER_ERROR, "INTERNAL_SERVER_ERROR".to_owned())
    }

    /// A failure inside the server, under the given trace id: status 500.
    pub fn server_error_with_trace_id(message: String, trace_id: String) -> (error: Self)
        ensures
            error@ == (HttpErrorView {
                message: message@,
                status: INTERNAL_SERVER_ERROR,
                code: "INTERNAL_SERVER_ERROR"@,
                trace_id: Some(trace_id@),
                details: None,
            }),
    {
        HttpError::with_trace_id(
            message,
            INTERNAL_SERVER_ERROR,
            "INTERNAL_SERVER_ERROR".to_owned(),
            trace_id,
        )
    }

    /// A request that cannot be understood: status 400.
    pub fn bad_request(message: String) -> (error: Self)
        ensures
            error@.message == message@,
            error@.status == BAD_REQUEST,
            error@.code == "BAD_REQUEST"@,
            error@.trace_id matches Some(id) && id.len() == ID_LEN,
            error@.details is None,
    {
        HttpError::new(message, BAD_REQUEST, "BAD_REQUEST".to_owned())
    }

    /// A value that must be unique and is taken: status 409.
    pub fn unique_constraint_violation(message: String) -> (error: Self)
        ensures
            error@.message == message@,
            error@.status == CONFLICT,
            error@.code == "CONFLICT"@,
            error@.trace_id matches Some(id) && id.len() == ID_LEN,
            error@.details is None,
    {
        HttpError::new(message, CONFLICT, "CONFLICT".to_owned())
    }

    /// Nobody is authenticated: status 401.
    pub fn unauthorized(message: String) -> (error: Self)
        ensures
            error@.message == message@,
            error@.status == UNAUTHORIZED,
            error@.code == "UNAUTHORIZED"@,
            error@.trace_id matches Some(id) && id.len() == ID_LEN,
            error@.details is None,
    {
        HttpError::new(message, UNAUTHORIZED, "UNAUTHORIZED".to_owned())
    }

    /// The principal is not allowed: status 403.
    pub fn forbidden(message: String) -> (error: Self)
        ensures
            error@.message == message@,
            error@.status == FORBIDDEN,
            error@.code == "FORBIDDEN"@,
            error@.trace_id matches Some(id) && id.len() == ID_LEN,
            error@.details is None,
    {
        HttpError::new(message, FORBIDDEN, "FORBIDDEN".to_owned())
    }

    /// What was asked for does not exist: status 404.
    pub fn not_found(message: String) -> (error: Self)
        ensures
            error@.message == message@,
            error@.status == NOT_FOUND,
            error@.code == "NOT_FOUND"@,
            error@.trace_id matches Some(id) && id.len() == ID_LEN,
            error@.details is None,
    {
        HttpError::new(message, NOT_FOUND, "NOT_FOUND".to_owned())
    }

    /// The request is understood but its content is not acceptable: status
    /// 422.
    pub fn unprocessable_entity(message: String) -> (error: Self)
        ensures
            error@.message == message@,
            error@.status == UNPROCESSABLE_ENTITY,
            error@.code == "UNPROCESSABLE_ENTITY"@,
            error@.trace_id matches Some(id) && id.len() == ID_LEN,
            error@.details is None,
    {
        HttpError::new(message, UNPROCESSABLE_ENTITY, "UNPROCESSABLE_ENTITY".to_owned())
    }

    /// What the caller gets for a failure that was logged under `trace_id`:
    /// the status, the code, the words and the details that belong to it.
    /// Every refused credential is answered with status 401.
    pub fn from_error(error: CoreError, trace_id: String) -> (response: Self)
        ensures
            response@ == (HttpErrorView {
                message: message_of(error),
                status: status_of(error),
                code: code_of(error),
                trace_id: Some(trace_id@),
                details: details_of(error),
            }),
    {
        match &error {
            CoreError::Jwt(e) => {
                let status = match e {
                    JwtError::EncodingError => BAD_REQUEST,
                    _ => UNAUTHORIZED,
                };
                let message = match e {
                    JwtError::TokenExpired => "JWT token has expired",
                    JwtError::InvalidToken | JwtError::InvalidSignature | JwtError::InvalidFormat => "Invalid JWT token",
                    _ => e.message(),
                };
                HttpError::with_trace_id(
                    message.to_owned(),
                    status,
                    e.error_code().to_owned(),
                    trace_id,
                )
            },
            CoreError::Db(e) => match e {
                DatabaseError::NotFound(msg) => HttpError::with_trace_id(
                    msg.clone(),
                    NOT_FOUND,
                    "DB_NOT_FOUND".to_owned(),
                    trace_id,
                ),
                DatabaseError::ConstraintViolation(msg) => HttpError::with_trace_id(
                    msg.clone(),
                    CONFLICT,
                    "DB_CONSTRAINT_VIOLATION".to_owned(),
                    trace_id,
                ),
                _ => HttpError::server_error_with_trace_id(
                    "Database operation failed".to_owned(),
                    trace_id,
                ),
            },
            CoreError::Auth(e) => {
                let status = match e {
                    AuthError::InvalidCredentials | AuthError::TokenExpired
                    | AuthError::TokenNotProvided | AuthError::InvalidToken
                    | AuthError::NotAuthenticated => UNAUTHORIZED,
                    AuthError::PermissionDenied => FORBIDDEN,
                    AuthError::EmailAlreadyExists => CONFLICT,
                    _ => BAD_REQUEST,
                };
                HttpError::with_trace_id(e.message(), status, e.error_code().to_owned(), trace_id)
            },
            CoreError::Api(e) => {
                let status = match e {
                    ApiError::NotFound => NOT_FOUND,
                    ApiError::RateLimitExceeded => TOO_MANY_REQUESTS,
                    ApiError::PayloadTooLarge => PAYLOAD_TOO_LARGE,
                    _ => BAD_REQUEST,
                };
                HttpError::with_trace_id(e.message(), status, e.error_code().to_owned(), trace_id)
            },
            CoreError::Validation(fields) => {
                let details = validation_details(fields);
                HttpError::with_trace_id(
                    "Validation failed".to_owned(),
                    UNPROCESSABLE_ENTITY,
                    "VALIDATION_ERROR".to_owned(),
                    trace_id,
                ).with_details(details)
            },
            CoreError::Internal { .. } => HttpError::server_error_with_trace_id(
                "Internal server error".to_owned(),
                trace_id,
            ),
        }
    }

    /// The body of the response that reports the failure, made at the
    /// second `now`: its code, its words and its trace id, without the
    /// details.
    pub fn to_error_response_at(&self, now: i64) -> (body: ErrorResponse)
        ensures
            body.error.code == self.code,
            body.error.message == self.message,
            body.error.details is None,
            body.trace_id == self.trace_id,
            match rfc3339_text(now as int) {
                Some(text) => body.timestamp@ == text,
                None => body.timestamp@.len() == 0,
            },
    {
        ErrorResponse::new_at(
            self.code.clone(),
            self.message.clone(),
            None,
            clone_opt(&self.trace_id),
            now,
        )
    }
}

} // verus!
