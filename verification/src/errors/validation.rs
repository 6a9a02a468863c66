//! Failures of a request's fields.

use crate::json::{empty_object, from_list, from_text, insert, json_of, jsons_of, Json};
use crate::text::{decimal, decimal_text};
use vstd::prelude::*;
use vstd::string::*;

verus! {

/// Which rule a field of a request broke.
#[derive(Debug)]
pub enum ValidationError {
    EmptyField { field: String },
    InvalidFormat { field: String, reason: String },
    OutOfRange { field: String, reason: String },
    TooLong { field: String, max_length: usize },
    TooShort { field: String, min_length: usize },
    InvalidEmail,
    Multiple(Vec<ValidationError>),
}

impl ValidationError {
    /// The error's machine-readable code.
    pub open spec fn code(self) -> Seq<char> {
        match self {
            ValidationError::EmptyField { .. } => "VALIDATION_EMPTY_FIELD"@,
            ValidationError::InvalidFormat { .. } => "VALIDATION_INVALID_FORMAT"@,
            ValidationError::OutOfRange { .. } => "VALIDATION_OUT_OF_RANGE"@,
            ValidationError::TooLong { .. } => "VALIDATION_TOO_LONG"@,
            ValidationError::TooShort { .. } => "VALIDATION_TOO_SHORT"@,
            ValidationError::InvalidEmail => "VALIDATION_INVALID_EMAIL"@,
            ValidationError::Multiple(_) => "VALIDATION_MULTIPLE_ERRORS"@,
        }
    }

    /// The error in words.
    pub open spec fn text(self) -> Seq<char> {
        match self {
            ValidationError::EmptyField { field } => "Field '"@ + field@ + "' cannot be empty"@,
            ValidationError::InvalidFormat { field, reason } => "Field '"@ + field@
                + "' has invalid format: "@ + reason@,
            ValidationError::OutOfRange { field, reason } => "Field '"@ + field@
                + "' value is out of range: "@ + reason@,
            ValidationError::TooLong { field, max_length } => "Field '"@ + field@
                + "' exceeds maximum length of "@ + decimal_text(max_length as nat),
            ValidationError::TooShort { field, min_length } => "Field '"@ + field@
                + "' is below minimum length of "@ + decimal_text(min_length as nat),
            ValidationError::InvalidEmail => "Invalid email format"@,
            ValidationError::Multiple(_) => "Multiple validation errors occurred"@,
        }
    }

    /// One error as JSON: its code and its words.
    pub open spec fn entry(self) -> Json {
        Json::Object(
            Map::<Seq<char>, Json>::empty().insert("code"@, Json::Text(self.code())).insert(
                "message"@,
                Json::Text(self.text()),
            ),
        )
    }

    /// The details of several errors as JSON: the list of their entries
    /// under `errors`. A single error has no details.
    pub open spec fn details(self) -> Option<Json> {
        match self {
            ValidationError::Multiple(errors) => Some(
                Json::Object(
                    Map::<Seq<char>, Json>::empty().insert(
                        "errors"@,
                        Json::List(errors@.map_values(|e: ValidationError| e.entry())),
                    ),
                ),
            ),
            _ => None,
        }
    }

    /// The error's machine-readable code.
    pub fn error_code(&self) -> (code: &'static str)
        ensures
            code@ == self.code(),
    {
        match self {
            ValidationError::EmptyField { .. } => "VALIDATION_EMPTY_FIELD",
            ValidationError::InvalidFormat { .. } => "VALIDATION_INVALID_FORMAT",
            ValidationError::OutOfRange { .. } => "VALIDATION_OUT_OF_RANGE",
            ValidationError::TooLong { .. } => "VALIDATION_TOO_LONG",
            ValidationError::TooShort { .. } => "VALIDATION_TOO_SHORT",
            ValidationError::InvalidEmail => "VALIDATION_INVALID_EMAIL",
            ValidationError::Multiple(_) => "VALIDATION_MULTIPLE_ERRORS",
        }
    }

    /// The error in words.
    pub fn message(&self) -> (text: String)
        ensures
            text@ == self.text(),
    {
        match self {
            ValidationError::EmptyField { field } => "Field '".to_owned().concat(
                field.as_str(),
            ).concat("' cannot be empty"),
            ValidationError::InvalidFormat { field, reason } => "Field '".to_owned().concat(
                field.as_str(),
            ).concat("' has invalid format: ").concat(reason.as_str()),
            ValidationError::OutOfRange { field, reason } => "Field '".to_owned().concat(
                field.as_str(),
            ).concat("' value is out of range: ").concat(reason.as_str()),
            ValidationError::TooLong { field, max_length } => "Field '".to_owned().concat(
                field.as_str(),
            ).concat("' exceeds maximum length of ").concat(decimal(*max_length as u64).as_str()),
            ValidationError::TooShort { field, min_length } => "Field '".to_owned().concat(
                field.as_str(),
            ).concat("' is below minimum length of ").concat(decimal(*min_length as u64).as_str()),
            ValidationError::InvalidEmail => "Invalid email format".to_owned(),
            ValidationError::Multiple(_) => "Multiple validation errors occurred".to_owned(),
        }
    }

    /// The details of several errors: a JSON object that lists, under
    /// `errors`, the code and the words of each. A single error has none.
    pub fn to_details(&self) -> (details: Option<serde_json::Value>)
        ensures
            match details {
                Some(v) => self.details() == Some(json_of(v)),
                None => self.details() is None,
            },
    {
        match self {
            ValidationError::Multiple(errors) => {
                let mut entries: Vec<serde_json::Value> = Vec::new();
                let mut i: usize = 0;
                while i < errors.len()
                    invariant
                        i <= errors.len(),
                        entries.len() == i,
                        forall|k: int|
                            0 <= k < i ==> json_of(#[trigger] entries@[k]) == errors@[k].entry(),
                    decreases errors.len() - i,
                {
                    let mut entry = empty_object();
                    insert(&mut entry, "code", from_text(errors[i].error_code()));
                    insert(&mut entry, "message", from_text(errors[i].message().as_str()));
                    entries.push(entry);
                    i += 1;
                }
                assert(jsons_of(entries@) =~= errors@.map_values(|e: ValidationError| e.entry()));
                let mut details = empty_object();
                insert(&mut details, "errors", from_list(entries));
                Some(details)
            },
            _ => None,
        }
    }
}

} // verus!
