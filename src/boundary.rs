use vstd::prelude::*;
use vstd::string::StringSliceAdditionalSpecFns;
use vstd::utf8::*;
use crate::marshal::{decode_source, framed, holds_nul, is_frame, terminate, Failure};

verus! {

/// Takes in the source of a request: a missing source gives `Missing`, bytes
/// that are not UTF-8 give `Encoding`, and anything else is read as text.
pub fn decode_request<'a>(source: Option<&'a [u8]>) -> (r: Result<&'a str, Failure>)
    ensures
        source is None ==> r == Err::<&str, Failure>(Failure::Missing),
        source matches Some(b) ==> (r is Ok <==> valid_utf8(b@)),
        source matches Some(b) && !valid_utf8(b@) ==> r == Err::<&str, Failure>(Failure::Encoding),
        r matches Ok(s) ==> source matches Some(b) && s.spec_bytes() == b@,
{
    match source {
        None => Err(Failure::Missing),
        Some(b) => decode_source(b),
    }
}

/// What an evaluation request hands back, given what evaluation produced: the
/// rendered result framed as NUL-terminated bytes, or nothing when evaluation
/// failed or its text holds a NUL character.
pub fn eval_reply(outcome: Result<&str, Failure>) -> (r: Option<Vec<u8>>)
    ensures
        outcome is Err ==> r is None,
        outcome matches Ok(t) ==> (r is Some <==> !holds_nul(t.spec_bytes())),
        outcome matches Ok(t) ==> (r is Some ==> r.unwrap()@ == framed(t@)),
        r matches Some(v) ==> is_frame(v@),
{
    match outcome {
        Err(_) => None,
        Ok(t) => match terminate(t) {
            Ok(v) => Some(v),
            Err(_) => None,
        },
    }
}

/// What a type-checking request hands back: 1 when the source was read and the
/// checker accepted it, 0 otherwise.
pub fn typecheck_reply(decoded: bool, accepted: bool) -> (r: i32)
    ensures
        r == (if decoded && accepted { 1i32 } else { 0i32 }),
{
    if decoded && accepted {
        1
    } else {
        0
    }
}

/// The version of the language this layer speaks.
pub fn version() -> (r: &'static str)
    ensures
        r@ == "0.10.0"@,
{
    "0.10.0"
}

} // verus!
