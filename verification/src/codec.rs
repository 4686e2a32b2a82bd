//! The continuation codec: a continuation URL and a list of attribute
//! names travel as path segments, in URL-safe base64, and are read back
//! from them without any state kept in between.

use vstd::prelude::*;
use vstd::utf8::{decode_utf8, encode_utf8, encode_utf8_decode_utf8, encode_utf8_valid_utf8, valid_utf8};
use base64::DecodeError;
use core::str::Utf8Error;

verus! {

/// `base64::DecodeError`, carried through as it is.
#[verifier::external_type_specification]
#[verifier::external_body]
pub struct ExDecodeError(DecodeError);

/// `core::str::Utf8Error`, carried through as it is.
#[verifier::external_type_specification]
#[verifier::external_body]
pub struct ExUtf8Error(Utf8Error);

/// The URL-safe, padded base64 text of a sequence of bytes.
pub uninterp spec fn base64_url(bytes: Seq<u8>) -> Seq<char>;

/// The bytes that a text in URL-safe base64 decodes to, or `None` where
/// the decoder refuses the text.
pub uninterp spec fn base64_url_decoded(text: Seq<char>) -> Option<Seq<u8>>;

/// The JSON text, in bytes, of an array of strings.
pub uninterp spec fn json_names(names: Seq<Seq<char>>) -> Seq<u8>;

/// The array of strings that a JSON text holds, or `None` where the bytes
/// are not the JSON text of an array of strings.
pub uninterp spec fn json_names_parsed(bytes: Seq<u8>) -> Option<Seq<Seq<char>>>;

/// `base64::encode_config` with `URL_SAFE`: the encoding of `bytes`, which
/// `decode_config` with `URL_SAFE` reads back as `bytes`. The size
/// computation inside cannot overflow, since no slice is longer than
/// `isize::MAX`.
#[verifier::external_body]
fn base64_url_encode(bytes: &[u8]) -> (r: String)
    ensures
        r@ == base64_url(bytes@),
        base64_url_decoded(r@) == Some(bytes@),
{
    base64::encode_config(bytes, base64::URL_SAFE)
}

/// `base64::decode_config` with `URL_SAFE`: the bytes that `text` encodes,
/// or the error where it encodes none.
#[verifier::external_body]
fn base64_url_decode(text: &str) -> (r: Result<Vec<u8>, DecodeError>)
    ensures
        match r {
            Ok(bytes) => base64_url_decoded(text@) == Some(bytes@),
            Err(_) => base64_url_decoded(text@) is None,
        },
{
    base64::decode_config(text, base64::URL_SAFE)
}

/// `serde_json::to_vec` on a list of strings: its JSON text, which
/// `from_slice` reads back as the same list. Such a list holds nothing
/// that a serializer refuses, so the call succeeds. An error would come
/// back as its message.
#[verifier::external_body]
fn json_names_to_vec(names: &[String]) -> (r: Result<Vec<u8>, String>)
    ensures
        r is Ok,
        r matches Ok(bytes) ==> bytes@ == json_names(names.deep_view()),
        r matches Ok(bytes) ==> json_names_parsed(bytes@) == Some(names.deep_view()),
{
    match serde_json::to_vec(names) {
        Ok(bytes) => Ok(bytes),
        Err(e) => Err(e.to_string()),
    }
}

/// `serde_json::from_slice` for a list of strings: the list that the JSON
/// text holds, or the error's message where it holds none.
#[verifier::external_body]
fn json_names_from_slice(bytes: &[u8]) -> (r: Result<Vec<String>, String>)
    ensures
        match r {
            Ok(names) => json_names_parsed(bytes@) == Some(names.deep_view()),
            Err(_) => json_names_parsed(bytes@) is None,
        },
{
    match serde_json::from_slice::<Vec<String>>(bytes) {
        Ok(names) => Ok(names),
        Err(e) => Err(e.to_string()),
    }
}

/// `core::str::from_utf8`: the text whose UTF-8 encoding the bytes are, or
/// the error where they are not valid UTF-8.
pub assume_specification<'a>[ core::str::from_utf8 ](bytes: &'a [u8]) -> (r: Result<
    &'a str,
    Utf8Error,
>)
    ensures
        r is Ok <==> valid_utf8(bytes@),
        r matches Ok(text) ==> text@ == decode_utf8(bytes@),
;

/// Why a path segment could not be read.
#[derive(Debug)]
pub enum SegmentError {
    Decode(DecodeError),
    Utf(Utf8Error),
    Json(String),
}

/// The three ways in which reading a segment fails.
pub enum Failure {
    Decode,
    Utf,
    Json,
}

impl View for SegmentError {
    type V = Failure;

    open spec fn view(&self) -> Failure {
        match self {
            SegmentError::Decode(_) => Failure::Decode,
            SegmentError::Utf(_) => Failure::Utf,
            SegmentError::Json(_) => Failure::Json,
        }
    }
}

impl SegmentError {
    /// Human-readable description of the error: that of its cause.
    pub fn message(&self) -> (r: String)
        ensures
            self matches SegmentError::Json(text) ==> r@ == text@,
    {
        match self {
            SegmentError::Decode(e) => e.to_string(),
            SegmentError::Utf(e) => e.to_string(),
            SegmentError::Json(text) => text.clone(),
        }
    }
}

/// The segment that carries a text: the base64 of its UTF-8 bytes.
pub open spec fn text_segment(text: Seq<char>) -> Seq<char> {
    base64_url(encode_utf8(text))
}

/// The segment that carries a list of names: the base64 of its JSON text.
pub open spec fn names_segment(names: Seq<Seq<char>>) -> Seq<char> {
    base64_url(json_names(names))
}

/// The text that a segment carries: its base64 must decode, to valid UTF-8.
pub open spec fn segment_text(segment: Seq<char>) -> Result<Seq<char>, Failure> {
    match base64_url_decoded(segment) {
        None => Err(Failure::Decode),
        Some(bytes) => if valid_utf8(bytes) {
            Ok(decode_utf8(bytes))
        } else {
            Err(Failure::Utf)
        },
    }
}

/// The names that a segment carries: its base64 must decode, to the JSON
/// text of an array of strings.
pub open spec fn segment_names(segment: Seq<char>) -> Result<Seq<Seq<char>>, Failure> {
    match base64_url_decoded(segment) {
        None => Err(Failure::Decode),
        Some(bytes) => match json_names_parsed(bytes) {
            Some(names) => Ok(names),
            None => Err(Failure::Json),
        },
    }
}

/// Encodes a text as a path segment. Reading the segment gives the text
/// back, whatever characters it holds.
pub fn encode_text(text: &str) -> (r: String)
    ensures
        r@ == text_segment(text@),
        segment_text(r@) == Ok::<Seq<char>, Failure>(text@),
{
    proof {
        encode_utf8_valid_utf8(text@);
        encode_utf8_decode_utf8(text@);
    }
    base64_url_encode(text.as_bytes())
}

/// Reads the text that a path segment carries.
pub fn decode_text(segment: &str) -> (r: Result<String, SegmentError>)
    ensures
        match r {
            Ok(text) => segment_text(segment@) == Ok::<Seq<char>, Failure>(text@),
            Err(e) => segment_text(segment@) == Err::<Seq<char>, Failure>(e@),
        },
{
    match base64_url_decode(segment) {
        Err(e) => Err(SegmentError::Decode(e)),
        Ok(bytes) => match core::str::from_utf8(bytes.as_slice()) {
            Ok(text) => Ok(text.to_owned()),
            Err(e) => Err(SegmentError::Utf(e)),
        },
    }
}

/// Encodes a list of attribute names as a path segment. Reading the segment
/// gives the list back.
pub fn encode_names(names: &[String]) -> (r: Result<String, SegmentError>)
    ensures
        r matches Ok(segment) && segment@ == names_segment(names.deep_view()) && segment_names(
            segment@,
        ) == Ok::<Seq<Seq<char>>, Failure>(names.deep_view()),
{
    match json_names_to_vec(names) {
        Ok(bytes) => Ok(base64_url_encode(bytes.as_slice())),
        Err(e) => Err(SegmentError::Json(e)),
    }
}

/// Reads the list of attribute names that a path segment carries.
pub fn decode_names(segment: &str) -> (r: Result<Vec<String>, SegmentError>)
    ensures
        match r {
            Ok(names) => segment_names(segment@) == Ok::<Seq<Seq<char>>, Failure>(
                names.deep_view(),
            ),
            Err(e) => segment_names(segment@) == Err::<Seq<Seq<char>>, Failure>(e@),
        },
{
    match base64_url_decode(segment) {
        Err(e) => Err(SegmentError::Decode(e)),
        Ok(bytes) => match json_names_from_slice(bytes.as_slice()) {
            Ok(names) => Ok(names),
            Err(e) => Err(SegmentError::Json(e)),
        },
    }
}

} // verus!
