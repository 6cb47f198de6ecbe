//! The suggestion proxy: the request URL for a query, and the reading of
//! what the provider sent back.
//!
//! The proxy keeps nothing between calls. The host sends one GET request to
//! the URL and hands back either the body it received, whatever the status
//! was, or what the transport said when it failed. The body is JSON of the
//! provider's own shape and is passed on as it was parsed.

use vstd::prelude::*;
use vstd::string::*;
use vstd::utf8::*;
use crate::encoding::{
    is_parameter_char, lemma_encoded_chars, lemma_percent_round_trip, percent_decoded,
    percent_encoded, url_encode,
};

verus! {

/// The provider's endpoint, up to and including the name of the query parameter.
pub const SUGGEST_ENDPOINT: &'static str =
    "https://suggestqueries.google.com/complete/search?client=firefox&q=";

/// A JSON document of the outside crate `serde_json`, carried through unread.
#[verifier::external_type_specification]
#[verifier::external_body]
pub struct ExJsonValue(serde_json::Value);

/// The parse error of the outside crate `serde_json`.
#[verifier::external_type_specification]
#[verifier::external_body]
pub struct ExJsonError(serde_json::Error);

/// What `serde_json::from_str` makes of a text: the document, or the error.
pub uninterp spec fn json_from_str(text: Seq<char>) -> Result<serde_json::Value, serde_json::Error>;

/// What `String::from_utf8_lossy` makes of a byte string.
pub uninterp spec fn utf8_lossy(bytes: Seq<u8>) -> Seq<char>;

/// `serde_json::from_str` of the outside crate, at the type `Value`. The
/// parser reads nothing but the text, so the same text always gives the same
/// document or the same error.
#[verifier::external_body]
pub(crate) fn parse_json(text: &str) -> (parsed: Result<serde_json::Value, serde_json::Error>)
    ensures
        parsed == json_from_str(text@),
{
    serde_json::from_str::<serde_json::Value>(text)
}

/// `String::from_utf8_lossy` of std. Bytes that are UTF-8 give the text they
/// encode; in any other byte string each ill-formed part is replaced by
/// U+FFFD, in a way that depends on the bytes alone.
#[verifier::external_body]
pub(crate) fn text_of_bytes(bytes: &[u8]) -> (text: String)
    ensures
        text@ == utf8_lossy(bytes@),
        valid_utf8(bytes@) ==> text@ == decode_utf8(bytes@),
{
    String::from_utf8_lossy(bytes).into_owned()
}

/// Why a fetch gave no suggestions.
#[derive(Debug)]
pub enum FetchError {
    /// The request did not get through; holds what the transport said.
    Network(String),
    /// The body is not JSON; holds the body as text and what the parser said.
    Decode { payload: String, detail: String },
}

/// A [`FetchError`] as plain values.
pub enum FetchErrorView {
    Network(Seq<char>),
    Decode { payload: Seq<char>, detail: Seq<char> },
}

impl View for FetchError {
    type V = FetchErrorView;

    open spec fn view(&self) -> FetchErrorView {
        match self {
            FetchError::Network(reason) => FetchErrorView::Network(reason@),
            FetchError::Decode { payload, detail } => FetchErrorView::Decode {
                payload: payload@,
                detail: detail@,
            },
        }
    }
}

impl FetchErrorView {
    /// The error as the front-end reads it. A transport failure is reported
    /// in the transport's words; a malformed body is named in full, followed
    /// by the parser's complaint.
    pub open spec fn message(self) -> Seq<char> {
        match self {
            FetchErrorView::Network(reason) => reason,
            FetchErrorView::Decode { payload, detail } => "malformed response `"@ + payload
                + "`: "@ + detail,
        }
    }
}

impl FetchError {
    /// The error as the front-end reads it.
    pub fn message(&self) -> (text: String)
        ensures
            text@ == self@.message(),
    {
        match self {
            FetchError::Network(reason) => reason.clone(),
            FetchError::Decode { payload, detail } => {
                let mut text = String::from_str("malformed response `");
                text.append(payload.as_str());
                text.append("`: ");
                text.append(detail.as_str());
                text
            },
        }
    }
}

/// The URL that asks the provider for suggestions on `query`.
pub open spec fn suggestion_url_of(query: Seq<char>) -> Seq<char> {
    SUGGEST_ENDPOINT@ + percent_encoded(encode_utf8(query))
}

/// The value of a parameter that starts `text`: everything before the first
/// `&` or `#`.
pub open spec fn parameter_value(text: Seq<char>) -> Seq<char>
    decreases text.len(),
{
    if text.len() == 0 || text[0] == '&' || text[0] == '#' {
        Seq::empty()
    } else {
        seq![text[0]] + parameter_value(text.drop_first())
    }
}

/// The query a suggestion URL asks about, as the provider reads it: the
/// value of the last parameter, percent-decoded and taken as UTF-8.
pub open spec fn query_of_url(url: Seq<char>) -> Option<Seq<char>> {
    let endpoint = SUGGEST_ENDPOINT@;
    if url.len() >= endpoint.len() && url.subrange(0, endpoint.len() as int) == endpoint {
        let bytes = percent_decoded(parameter_value(url.skip(endpoint.len() as int)));
        if valid_utf8(bytes) {
            Some(decode_utf8(bytes))
        } else {
            None
        }
    } else {
        None
    }
}

/// Builds the request URL: the endpoint followed by the percent-encoded query.
pub fn suggestion_url(query: &str) -> (url: String)
    ensures
        url@ == suggestion_url_of(query@),
{
    let encoded = url_encode(query);
    String::from_str(SUGGEST_ENDPOINT).concat(encoded.as_str())
}

/// Whether `outcome` is the reading of a body whose text is `payload` and
/// which the parser took as `parsed`: the document itself, or a decode error
/// that holds the text and the parser's own description of what is wrong.
pub open spec fn reads_as(
    payload: Seq<char>,
    parsed: Result<serde_json::Value, serde_json::Error>,
    outcome: Result<serde_json::Value, FetchError>,
) -> bool {
    match parsed {
        Ok(document) => outcome == Ok::<serde_json::Value, FetchError>(document),
        Err(cause) => {
            &&& outcome matches Err(FetchError::Decode { payload: named, detail })
            &&& named@ == payload
            &&& to_string_from_display_ensures::<serde_json::Error>(&cause, detail)
        },
    }
}

/// Turns the parser's verdict on a body into the result of the fetch.
pub fn read_parsed(payload: String, parsed: Result<serde_json::Value, serde_json::Error>) -> (outcome:
    Result<serde_json::Value, FetchError>)
    ensures
        reads_as(payload@, parsed, outcome),
{
    match parsed {
        Ok(document) => Ok(document),
        Err(cause) => {
            let detail = cause.to_string();
            Err(FetchError::Decode { payload, detail })
        },
    }
}

/// Reads a response body: the bytes are taken as text, ill-formed UTF-8
/// replaced, and the text is parsed as JSON.
pub fn read_body(body: &[u8]) -> (outcome: Result<serde_json::Value, FetchError>)
    ensures
        reads_as(utf8_lossy(body@), json_from_str(utf8_lossy(body@)), outcome),
        valid_utf8(body@) ==> reads_as(
            decode_utf8(body@),
            json_from_str(decode_utf8(body@)),
            outcome,
        ),
{
    let text = text_of_bytes(body);
    let parsed = parse_json(text.as_str());
    read_parsed(text, parsed)
}

/// Finishes a fetch. A transport failure is passed on in the transport's
/// words; a body is read whatever status came with it.
pub fn read_response(transport: Result<Vec<u8>, String>) -> (outcome: Result<
    serde_json::Value,
    FetchError,
>)
    ensures
        match transport {
            Ok(body) => reads_as(utf8_lossy(body@), json_from_str(utf8_lossy(body@)), outcome),
            Err(reason) => outcome matches Err(FetchError::Network(said)) && said@ == reason@,
        },
{
    match transport {
        Ok(body) => read_body(body.as_slice()),
        Err(reason) => Err(FetchError::Network(reason)),
    }
}

/// A parameter value made of parameter characters only runs to its end.
proof fn lemma_parameter_runs_to_end(text: Seq<char>)
    requires
        forall|i: int| 0 <= i < text.len() ==> is_parameter_char(#[trigger] text[i]),
    ensures
        parameter_value(text) == text,
    decreases text.len(),
{
    if text.len() > 0 {
        assert(is_parameter_char(text[0]));
        let rest = text.drop_first();
        assert forall|i: int| 0 <= i < rest.len() implies is_parameter_char(#[trigger] rest[i]) by {
            assert(rest[i] == text[i + 1]);
        }
        lemma_parameter_runs_to_end(rest);
        assert(seq![text[0]] + rest =~= text);
    }
}

/// The request URL names its query exactly: whatever the query text holds,
/// spaces, `&` and characters outside ASCII included, decoding the URL gives
/// the text back.
pub proof fn lemma_url_round_trip(query: Seq<char>)
    ensures
        query_of_url(suggestion_url_of(query)) == Some(query),
{
    let endpoint = SUGGEST_ENDPOINT@;
    let bytes = encode_utf8(query);
    let encoded = percent_encoded(bytes);
    let url = suggestion_url_of(query);
    assert(url.subrange(0, endpoint.len() as int) =~= endpoint);
    assert(url.skip(endpoint.len() as int) =~= encoded);
    lemma_encoded_chars(bytes);
    lemma_parameter_runs_to_end(encoded);
    lemma_percent_round_trip(bytes);
    encode_utf8_valid_utf8(query);
    encode_utf8_decode_utf8(query);
}

} // verus!
