use url_shortener::error::{json_error_message, UrlErr};

fn broken_json(input: &str) -> serde_json::Error {
    serde_json::from_str::<serde_json::Value>(input).unwrap_err()
}

#[test]
fn slug_occupied_is_a_conflict() {
    let err = UrlErr::SlugOccupied;
    assert_eq!(err.status_code(), 409);
    assert_eq!(err.message(), "This slug is already in use.");
}

#[test]
fn too_many_tries_is_a_timeout() {
    let err = UrlErr::SlugTooManyTries;
    assert_eq!(err.status_code(), 408);
    assert_eq!(err.message(), "Unable to find a random slug to use, try again later.");
}

#[test]
fn store_failure_is_a_server_error() {
    let err = UrlErr::DBError;
    assert_eq!(err.status_code(), 500);
    assert_eq!(err.message(), "There was an error with the database.");
}

#[test]
fn not_found_is_not_found() {
    let err = UrlErr::NotFound;
    assert_eq!(err.status_code(), 404);
    assert_eq!(err.message(), "Shortened URL not found.");
}

#[test]
fn unreadable_payload_is_a_bad_request() {
    let err = UrlErr::JsonError(broken_json("{"));
    assert_eq!(err.status_code(), 400);
    assert_eq!(
        err.message(),
        "Error parsing json: EOF while parsing an object at line 1 column 1"
    );
}

#[test]
fn unreadable_payload_message_carries_the_parser_words() {
    for input in ["", "{", "[1,", "{\"url\": }", "nul", "\"open"] {
        let words = broken_json(input).to_string();
        let err = UrlErr::JsonError(broken_json(input));
        assert_eq!(err.message(), format!("Error parsing json: {}", words));
        assert_ne!(err.message(), words);
    }
}

#[test]
fn json_error_message_puts_the_opening_first() {
    assert_eq!(json_error_message("oops"), "Error parsing json: oops");
    assert_eq!(json_error_message(""), "Error parsing json: ");
}

#[test]
fn into_response_pairs_message_and_status() {
    assert_eq!(
        UrlErr::SlugOccupied.into_response(),
        ("This slug is already in use.".to_string(), 409)
    );
    assert_eq!(
        UrlErr::SlugTooManyTries.into_response(),
        ("Unable to find a random slug to use, try again later.".to_string(), 408)
    );
    assert_eq!(
        UrlErr::DBError.into_response(),
        ("There was an error with the database.".to_string(), 500)
    );
    assert_eq!(
        UrlErr::NotFound.into_response(),
        ("Shortened URL not found.".to_string(), 404)
    );
    let (message, status) = UrlErr::JsonError(broken_json("[")).into_response();
    assert_eq!(status, 400);
    assert_eq!(message, format!("Error parsing json: {}", broken_json("[")));
}
