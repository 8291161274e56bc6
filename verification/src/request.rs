//! What a caller asks for when it wants a destination shortened, and how
//! the body of its request is to be read.

use vstd::prelude::*;
use crate::error::UrlErr;

verus! {

/// `headers::ContentType`, the value of a content-type header. Nothing
/// is known of what it holds.
#[verifier::external_type_specification]
#[verifier::external_body]
pub struct ExContentType(headers::ContentType);

/// Whether a content-type header names JSON: what `headers` answers when
/// the header is compared with its own `ContentType::json()`.
pub uninterp spec fn names_json(declared: headers::ContentType) -> bool;

/// `==` of `headers::ContentType`, on a header and `ContentType::json()`.
/// The comparison reads nothing but the header, so its answer has a name;
/// what the answer is on a given header is `headers`' affair, and nothing
/// is claimed of it. It cannot fail.
#[verifier::external_body]
fn is_json(declared: &headers::ContentType) -> (json: bool)
    ensures
        json == names_json(*declared),
{
    *declared == headers::ContentType::json()
}

/// How the body of a request is written.
#[derive(Debug, Clone, Copy, PartialEq, Eq)]
pub enum Encoding {
    /// The body is the destination, as it stands.
    Bare,
    /// The body is a payload with a destination and, if the caller names
    /// one, a slug.
    Structured,
}

/// The encoding of a body, given whether a content type was declared and
/// whether that type is JSON's. Only a declared JSON body is structured.
pub open spec fn encoding_of(declared_json: Option<bool>) -> Encoding {
    if declared_json == Some(true) {
        Encoding::Structured
    } else {
        Encoding::Bare
    }
}

impl Encoding {
    /// The encoding of a body, given whether a content type was declared
    /// and whether that type is JSON's.
    pub fn of(declared_json: Option<bool>) -> (e: Encoding)
        ensures
            e == encoding_of(declared_json),
    {
        match declared_json {
            Some(true) => Encoding::Structured,
            _ => Encoding::Bare,
        }
    }

    /// The encoding of a body that came with this content-type header:
    /// structured if there is a header and it names JSON, bare otherwise.
    pub fn declared_by(content_type: Option<&headers::ContentType>) -> (e: Encoding)
        ensures
            e == encoding_of(
                match content_type {
                    Some(declared) => Some(names_json(*declared)),
                    None => None,
                },
            ),
    {
        match content_type {
            Some(declared) => Encoding::of(Some(is_json(declared))),
            None => Encoding::of(None),
        }
    }
}

/// A request to shorten `url`, under `slug` if the caller names one.
#[derive(Debug, Clone, PartialEq, Eq)]
pub struct ShortReq {
    pub url: String,
    pub slug: Option<String>,
}

impl ShortReq {
    /// The request that a bare body makes: the body is the destination,
    /// and the slug is left to the library.
    pub fn bare(body: String) -> (req: ShortReq)
        ensures
            req.url == body,
            req.slug.is_none(),
    {
        ShortReq { url: body, slug: None }
    }

    /// The request that a structured payload makes, once a parser has
    /// been over it. A payload that could not be read is the caller's
    /// failure, and the parser's complaint goes back with it.
    pub fn structured(parsed: Result<ShortReq, serde_json::Error>) -> (req: Result<ShortReq, UrlErr>)
        ensures
            match parsed {
                Ok(read) => req == Ok::<ShortReq, UrlErr>(read),
                Err(cause) => req == Err::<ShortReq, UrlErr>(UrlErr::JsonError(cause)),
            },
    {
        match parsed {
            Ok(read) => Ok(read),
            Err(cause) => Err(UrlErr::JsonError(cause)),
        }
    }
}

} // verus!
