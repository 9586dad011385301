//! The media source: a URI that names what to decode.

use crate::error::VideoError;
use vstd::prelude::*;

verus! {

/// The serialization that the `url` crate gives the absolute URL written as
/// `text`, or `None` where `text` is no absolute URL.
pub uninterp spec fn normalized_uri(text: Seq<char>) -> Option<Seq<char>>;

/// `url::Url::parse`, with the parsed URL turned back into text: the result
/// is the URL's serialization, or `None` where the parser rejects the text.
#[verifier::external_body]
fn parse_uri(text: &str) -> (uri: Option<String>)
    ensures
        match uri {
            Some(s) => normalized_uri(text@) == Some(s@),
            None => normalized_uri(text@).is_none(),
        },
{
    match url::Url::parse(text) {
        Ok(url) => Some(String::from(url)),
        Err(_) => None,
    }
}

/// Resolves a source to the URI that the pipeline is given.
///
/// Succeeds exactly where `text` is an absolute URL, with its normalized
/// form; anything else is a `Uri` failure.
pub fn resolve_source(text: &str) -> (result: Result<String, VideoError>)
    ensures
        match result {
            Ok(uri) => normalized_uri(text@) == Some(uri@),
            Err(e) => e == VideoError::Uri && normalized_uri(text@).is_none(),
        },
{
    match parse_uri(text) {
        Some(uri) => Ok(uri),
        None => Err(VideoError::Uri),
    }
}

} // verus!
