//! Recovery of message text from the rich-text payload.
//!
//! A message whose plain-text column is absent or empty may still carry its
//! content in a serialized rich-text payload. The payload is decoded only in
//! that case, and a payload that cannot be decoded leaves the text as it was.
use imessage_database::error::streamtyped::StreamTypedError;
use vstd::prelude::*;

verus! {

#[verifier::external_type_specification]
#[verifier::external_body]
pub struct ExStreamTypedError(StreamTypedError);

/// The plain text that imessage-database's `streamtyped` parser recovers from
/// a payload, or `None` where the parser reports an error.
pub uninterp spec fn streamtyped_text(payload: Seq<u8>) -> Option<Seq<char>>;

/// Relies on `imessage_database::util::streamtyped::parse`: it reads nothing
/// but the payload bytes, and a payload shorter than two bytes holds no start
/// pattern, so it is refused.
#[verifier::external_body]
fn parse_streamtyped(payload: Vec<u8>) -> (r: Result<String, StreamTypedError>)
    ensures
        r is Ok <==> streamtyped_text(payload@) is Some,
        r is Ok ==> streamtyped_text(payload@) == Some(r->Ok_0@),
        payload@.len() < 2 ==> r is Err,
{
    imessage_database::util::streamtyped::parse(payload)
}

/// A rich-text payload could not be decoded.
#[derive(Debug, Clone, Copy, PartialEq, Eq)]
pub struct DecodeError;

/// The view of an optional string.
pub open spec fn opt_view(s: Option<String>) -> Option<Seq<char>> {
    match s {
        Some(t) => Some(t@),
        None => None,
    }
}

/// What decoding a payload yields, as an optional text.
pub open spec fn decoded_view(d: Result<String, DecodeError>) -> Option<Seq<char>> {
    match d {
        Ok(t) => Some(t@),
        Err(_) => None,
    }
}

/// Whether a plain-text column is unusable: absent or empty.
pub open spec fn needs_recovery(text: Option<Seq<char>>) -> bool {
    text is None || text->0.len() == 0
}

/// The text of a message, given its plain-text column and what decoding its
/// payload would yield (`None` for a failed or impossible decode).
pub open spec fn resolved_text(text: Option<Seq<char>>, decoded: Option<Seq<char>>) -> Option<Seq<char>> {
    if needs_recovery(text) && decoded is Some {
        decoded
    } else {
        text
    }
}

/// What decoding an optional payload yields.
pub open spec fn payload_text(payload: Option<Vec<u8>>) -> Option<Seq<char>> {
    match payload {
        Some(p) => streamtyped_text(p@),
        None => None,
    }
}

/// A copy of an optional string.
pub fn clone_text(s: &Option<String>) -> (r: Option<String>)
    ensures
        opt_view(r) == opt_view(*s),
{
    match s {
        Some(t) => Some(t.clone()),
        None => None,
    }
}

/// Decodes the plain text held in a rich-text payload.
pub fn decode_rich_text(payload: Vec<u8>) -> (r: Result<String, DecodeError>)
    ensures
        decoded_view(r) == streamtyped_text(payload@),
{
    match parse_streamtyped(payload) {
        Ok(t) => Ok(t),
        Err(_) => Err(DecodeError),
    }
}

/// Whether the plain-text column must be recovered from the payload.
pub fn needs_text_recovery(text: &Option<String>) -> (r: bool)
    ensures
        r == needs_recovery(opt_view(*text)),
{
    match text {
        Some(t) => t.as_str().is_empty(),
        None => true,
    }
}

/// Chooses a message's text given what the decoder returned: the decoded
/// text where the plain-text column is unusable and decoding succeeded, the
/// plain-text column otherwise.
pub fn resolve_text(text: Option<String>, decoded: Result<String, DecodeError>) -> (r: Option<String>)
    ensures
        opt_view(r) == resolved_text(opt_view(text), decoded_view(decoded)),
{
    if needs_text_recovery(&text) {
        match decoded {
            Ok(d) => Some(d),
            Err(_) => text,
        }
    } else {
        text
    }
}

/// A message's text: the plain-text column when it is usable, otherwise
/// what the payload decodes to, otherwise the plain-text column unchanged.
/// The payload is decoded only when the column is unusable.
pub fn recover_text(text: Option<String>, payload: &Option<Vec<u8>>) -> (r: Option<String>)
    ensures
        opt_view(r) == resolved_text(opt_view(text), payload_text(*payload)),
{
    if needs_text_recovery(&text) {
        match payload {
            Some(p) => {
                let bytes = p.clone();
                assert(bytes@ =~= p@);
                resolve_text(text, decode_rich_text(bytes))
            },
            None => text,
        }
    } else {
        text
    }
}

/// With an unusable plain-text column, a successful decode gives the decoded
/// text and a failed one leaves the column as it was.
pub proof fn lemma_text_fallback(text: Option<Seq<char>>, decoded: Option<Seq<char>>)
    requires
        needs_recovery(text),
    ensures
        decoded is Some ==> resolved_text(text, decoded) == decoded,
        decoded is None ==> resolved_text(text, decoded) == text,
{
}

/// A usable plain-text column is never replaced.
pub proof fn lemma_usable_text_kept(text: Option<Seq<char>>, decoded: Option<Seq<char>>)
    requires
        !needs_recovery(text),
    ensures
        resolved_text(text, decoded) == text,
{
}

} // verus!
