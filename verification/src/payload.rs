use vstd::prelude::*;
use crate::errors::SinkError;

verus! {

/// The Unicode `White_Space` property of a character, as
/// `char::is_whitespace` decides it; a property of the character alone.
pub uninterp spec fn is_whitespace_char(c: char) -> bool;

/// `chars` with its maximal run of trailing whitespace removed.
pub open spec fn trimmed_end(chars: Seq<char>) -> Seq<char>
    decreases chars.len(),
{
    if chars.len() == 0 {
        chars
    } else if is_whitespace_char(chars.last()) {
        trimmed_end(chars.drop_last())
    } else {
        chars
    }
}

/// Law: trimming trailing whitespace leaves a prefix of the original
/// text; nothing is reordered or rewritten, only the tail is dropped.
pub proof fn lemma_trimmed_is_prefix(chars: Seq<char>)
    ensures
        trimmed_end(chars).len() <= chars.len(),
        trimmed_end(chars) == chars.take(trimmed_end(chars).len() as int),
    decreases chars.len(),
{
    if chars.len() == 0 {
        assert(trimmed_end(chars) =~= chars.take(trimmed_end(chars).len() as int));
    } else if is_whitespace_char(chars.last()) {
        lemma_trimmed_is_prefix(chars.drop_last());
        assert(chars.drop_last().take(trimmed_end(chars).len() as int) =~= chars.take(
            trimmed_end(chars).len() as int,
        ));
    } else {
        assert(trimmed_end(chars) =~= chars.take(trimmed_end(chars).len() as int));
    }
}

/// Relies on core::str::from_utf8: it succeeds exactly on valid UTF-8 and
/// yields the characters those bytes encode.
#[verifier::external_body]
fn decode_bytes(data: &Vec<u8>) -> (r: Option<String>)
    ensures
        r is Some <==> vstd::utf8::valid_utf8(data@),
        r matches Some(s) ==> s@ == vstd::utf8::decode_utf8(data@),
{
    match core::str::from_utf8(data.as_slice()) {
        Ok(s) => Some(s.to_owned()),
        Err(_) => None,
    }
}

/// Relies on str::trim_end: it removes exactly the trailing characters
/// with the Unicode `White_Space` property, here named `is_whitespace_char`.
#[verifier::external_body]
fn trim_trailing(s: &str) -> (r: String)
    ensures
        r@ == trimmed_end(s@),
        s@.len() > 0 && !is_whitespace_char(s@.last()) ==> r@ == s@,
{
    s.trim_end().to_owned()
}

/// What the sink makes of the formatter's bytes before enqueueing:
/// nothing for an empty result, an error for bytes that are not text,
/// otherwise the decoded text with trailing whitespace trimmed.
pub fn prepare_payload(data: &Vec<u8>) -> (r: Result<Option<String>, SinkError>)
    ensures
        (r matches Ok(p) && p is None) <==> data@.len() == 0,
        r == Err::<Option<String>, SinkError>(SinkError::MalformedPayload) <==> (data@.len() > 0
            && !vstd::utf8::valid_utf8(data@)),
        r matches Ok(Some(s)) ==> s@ == trimmed_end(vstd::utf8::decode_utf8(data@)),
        data@.len() > 0 && vstd::utf8::valid_utf8(data@) ==> (r matches Ok(p) && p is Some),
        r is Err ==> r == Err::<Option<String>, SinkError>(SinkError::MalformedPayload),
{
    if data.len() == 0 {
        Ok(None)
    } else {
        match decode_bytes(data) {
            Some(s) => Ok(Some(trim_trailing(s.as_str()))),
            None => Err(SinkError::MalformedPayload),
        }
    }
}

} // verus!
