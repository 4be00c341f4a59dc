use vstd::prelude::*;
use vstd::string::StringSliceAdditionalSpecFns;
use vstd::utf8::*;

verus! {

/// Why a request across the boundary produced no result.
#[derive(Clone, Copy, Debug, PartialEq, Eq, Structural)]
pub enum Failure {
    /// No source was handed over at all.
    Missing,
    /// The source bytes are not valid UTF-8.
    Encoding,
    /// The engine could not take the source in.
    Load,
    /// Parsing, import resolution or evaluation failed.
    Evaluation,
    /// The result text holds a NUL character and cannot be framed.
    InteriorNul,
}

/// Whether a byte sequence holds a NUL byte anywhere.
pub open spec fn holds_nul(bytes: Seq<u8>) -> bool {
    exists|i: int| 0 <= i < bytes.len() && bytes[i] == 0
}

/// The framed form of a text: its UTF-8 encoding followed by one NUL byte.
pub open spec fn framed(text: Seq<char>) -> Seq<u8> {
    encode_utf8(text).push(0u8)
}

/// Whether bytes are a well-formed frame: valid UTF-8 with no NUL, then one NUL.
pub open spec fn is_frame(bytes: Seq<u8>) -> bool {
    &&& bytes.len() >= 1
    &&& bytes.last() == 0
    &&& !holds_nul(bytes.drop_last())
    &&& valid_utf8(bytes.drop_last())
}

/// Framing and decoding undo each other: the bytes of a framed text before its
/// final NUL are valid UTF-8, and they decode back to that very text.
pub proof fn frame_round_trip(text: Seq<char>)
    ensures
        framed(text).last() == 0,
        valid_utf8(framed(text).drop_last()),
        decode_utf8(framed(text).drop_last()) == text,
{
    assert(framed(text).drop_last() == encode_utf8(text));
    encode_utf8_valid_utf8(text);
    encode_utf8_decode_utf8(text);
}

/// Relies on std::str::from_utf8: it succeeds exactly on valid UTF-8, and the
/// string it returns is made of the same bytes.
#[verifier::external_body]
fn utf8_text<'a>(bytes: &'a [u8]) -> (r: Option<&'a str>)
    ensures
        r is Some <==> valid_utf8(bytes@),
        r matches Some(s) ==> s.spec_bytes() == bytes@,
{
    std::str::from_utf8(bytes).ok()
}

/// Reads source bytes as text; fails with `Encoding` exactly when they are not UTF-8.
pub fn decode_source<'a>(bytes: &'a [u8]) -> (r: Result<&'a str, Failure>)
    ensures
        r is Ok <==> valid_utf8(bytes@),
        r matches Ok(s) ==> s.spec_bytes() == bytes@,
        r matches Ok(s) ==> s@ == decode_utf8(bytes@),
        r matches Err(e) ==> e == Failure::Encoding,
{
    match utf8_text(bytes) {
        Some(s) => {
            proof {
                encode_utf8_decode_utf8(s@);
            }
            Ok(s)
        },
        None => Err(Failure::Encoding),
    }
}

/// Frames a text as its bytes followed by a NUL byte. A text that holds a NUL
/// character itself cannot be framed and gives `InteriorNul`.
pub fn terminate(text: &str) -> (r: Result<Vec<u8>, Failure>)
    ensures
        r is Err <==> holds_nul(text.spec_bytes()),
        r matches Err(e) ==> e == Failure::InteriorNul,
        r matches Ok(v) ==> v@ == framed(text@),
        r matches Ok(v) ==> is_frame(v@),
{
    let bytes = text.as_bytes();
    let mut out: Vec<u8> = Vec::new();
    let mut i: usize = 0;
    while i < bytes.len()
        invariant
            bytes@ == text.spec_bytes(),
            i <= bytes@.len(),
            out@ == bytes@.subrange(0, i as int),
            forall|j: int| 0 <= j < i ==> bytes@[j] != 0,
        decreases bytes@.len() - i,
    {
        if bytes[i] == 0 {
            return Err(Failure::InteriorNul);
        }
        out.push(bytes[i]);
        i += 1;
    }
    proof {
        assert(out@ == bytes@);
        encode_utf8_valid_utf8(text@);
    }
    out.push(0);
    proof {
        assert(out@.drop_last() == bytes@);
    }
    Ok(out)
}

} // verus!
