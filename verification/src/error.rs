//! What can go wrong with a request, and how each failure is reported.

use vstd::prelude::*;
use vstd::string::*;

verus! {

/// `serde_json::Error`, what its parser says of a payload it could not
/// read. Nothing is known of what it holds; it is carried as it came.
#[verifier::external_type_specification]
#[verifier::external_body]
pub struct ExJsonError(serde_json::Error);

/// Why a request failed.
#[derive(Debug)]
pub enum UrlErr {
    /// The slug that was asked for belongs to another mapping.
    SlugOccupied,
    /// Every slug that was tried was taken.
    SlugTooManyTries,
    /// The store failed.
    DBError,
    /// The structured payload could not be read.
    JsonError(serde_json::Error),
    /// No mapping has this slug.
    NotFound,
}

/// The HTTP status that reports `err`.
pub open spec fn status_of(err: UrlErr) -> u16 {
    match err {
        UrlErr::SlugOccupied => 409,
        UrlErr::SlugTooManyTries => 408,
        UrlErr::DBError => 500,
        UrlErr::JsonError(_) => 400,
        UrlErr::NotFound => 404,
    }
}

/// Whether `text` is the message that reports `err`. For a payload error
/// it is a fixed opening followed by the parser's own words.
pub open spec fn is_message_of(err: UrlErr, text: Seq<char>) -> bool {
    match err {
        UrlErr::SlugOccupied => text == "This slug is already in use."@,
        UrlErr::SlugTooManyTries => text
            == "Unable to find a random slug to use, try again later."@,
        UrlErr::DBError => text == "There was an error with the database."@,
        UrlErr::JsonError(cause) => exists|detail: String|
            #[trigger] to_string_from_display_ensures::<serde_json::Error>(&cause, detail)
                && text == json_message(detail@),
        UrlErr::NotFound => text == "Shortened URL not found."@,
    }
}

/// The message for a payload that could not be read, given the parser's words.
pub open spec fn json_message(detail: Seq<char>) -> Seq<char> {
    "Error parsing json: "@ + detail
}

impl UrlErr {
    /// The HTTP status that reports this failure.
    pub fn status_code(&self) -> (code: u16)
        ensures
            code == status_of(*self),
    {
        match self {
            UrlErr::SlugOccupied => 409,
            UrlErr::SlugTooManyTries => 408,
            UrlErr::DBError => 500,
            UrlErr::JsonError(_) => 400,
            UrlErr::NotFound => 404,
        }
    }

    /// The message that reports this failure.
    pub fn message(&self) -> (text: String)
        ensures
            is_message_of(*self, text@),
    {
        match self {
            UrlErr::SlugOccupied => "This slug is already in use.".to_owned(),
            UrlErr::SlugTooManyTries => "Unable to find a random slug to use, try again later.".to_owned(),
            UrlErr::DBError => "There was an error with the database.".to_owned(),
            UrlErr::JsonError(cause) => {
                let detail = cause.to_string();
                json_error_message(detail.as_str())
            },
            UrlErr::NotFound => "Shortened URL not found.".to_owned(),
        }
    }

    /// Message and status together, as a response carries them.
    pub fn into_response(self) -> (reply: (String, u16))
        ensures
            is_message_of(self, reply.0@),
            reply.1 == status_of(self),
    {
        let text = self.message();
        let code = self.status_code();
        (text, code)
    }
}

/// The message for a payload that could not be read, given the parser's words.
pub fn json_error_message(detail: &str) -> (text: String)
    ensures
        text@ == json_message(detail@),
{
    "Error parsing json: ".to_owned().concat(detail)
}

} // verus!
