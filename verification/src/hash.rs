//! Input rules and the hash that seeds every identicon.
use vstd::prelude::*;

use crate::text::{char_is_alnum, is_alnum};
use crate::RenderError;
use vstd::string::StringSliceAdditionalSpecFns;

verus! {

/// Longest accepted input, in bytes.
pub const MAX_INPUT_LEN: usize = 256;

/// The characters an input may hold: ASCII letters and digits, and `-`, `_`, `.`, `@`.
pub open spec fn allowed(c: char) -> bool {
    is_alnum(c) || c == '-' || c == '_' || c == '.' || c == '@'
}

/// What validation answers for `s`: empty first, then too long (in UTF-8 bytes),
/// then any character outside the allowed set.
pub open spec fn validation(s: &str) -> Result<(), RenderError> {
    if s@.len() == 0 {
        Err(RenderError::EmptyInput)
    } else if s.spec_bytes().len() > MAX_INPUT_LEN {
        Err(RenderError::InputTooLong)
    } else if forall|i: int| 0 <= i < s@.len() ==> #[trigger] allowed(s@[i]) {
        Ok(())
    } else {
        Err(RenderError::InvalidCharset)
    }
}

/// An ASCII letter or digit, or one of `-`, `_`, `.`, `@`.
pub open spec fn ascii_name_char(c: char) -> bool {
    ||| 'a' <= c && c <= 'z'
    ||| 'A' <= c && c <= 'Z'
    ||| '0' <= c && c <= '9'
    ||| c == '-'
    ||| c == '_'
    ||| c == '.'
    ||| c == '@'
}

/// The input rules: an input is accepted exactly when it is non-empty, at most
/// 256 bytes long, and made of ASCII letters, digits, `-`, `_`, `.` and `@`;
/// an empty input is refused as empty, a longer one as too long, and any other
/// as holding an invalid character.
pub proof fn lemma_input_rules(s: &str)
    ensures
        validation(s) is Ok <==> {
            &&& s@.len() > 0
            &&& s.spec_bytes().len() <= 256
            &&& forall|i: int| 0 <= i < s@.len() ==> ascii_name_char(#[trigger] s@[i])
        },
        s@.len() == 0 ==> validation(s) == Err::<(), RenderError>(RenderError::EmptyInput),
        s@.len() > 0 && s.spec_bytes().len() > 256 ==> validation(s) == Err::<(), RenderError>(
            RenderError::InputTooLong,
        ),
        s@.len() > 0 && s.spec_bytes().len() <= 256 && validation(s) !is Ok ==> validation(s)
            == Err::<(), RenderError>(RenderError::InvalidCharset),
{
    assert forall|i: int| 0 <= i < s@.len() implies (allowed(#[trigger] s@[i]) <==> ascii_name_char(s@[i])) by {}
}

pub fn is_allowed_char(c: char) -> (b: bool)
    ensures
        b == allowed(c),
{
    char_is_alnum(c) || c == '-' || c == '_' || c == '.' || c == '@'
}

/// Checks an input against the input rules.
pub fn validate_input(input: &str) -> (r: Result<(), RenderError>)
    ensures
        r == validation(input),
        r is Ok <==> {
            &&& input@.len() > 0
            &&& input.spec_bytes().len() <= 256
            &&& forall|i: int| 0 <= i < input@.len() ==> ascii_name_char(#[trigger] input@[i])
        },
{
    proof {
        lemma_input_rules(input);
    }
    if input.is_empty() {
        return Err(RenderError::EmptyInput);
    }
    if input.as_bytes().len() > MAX_INPUT_LEN {
        return Err(RenderError::InputTooLong);
    }
    for c in it: input.chars()
        invariant
            it.seq() == input@,
            input@.len() > 0,
            input.spec_bytes().len() <= MAX_INPUT_LEN,
            forall|j: int| 0 <= j < it.index() ==> #[trigger] allowed(input@[j]),
    {
        assert(c == input@[it.index()]);
        if !is_allowed_char(c) {
            assert(!allowed(input@[it.index()]));
            return Err(RenderError::InvalidCharset);
        }
    }
    Ok(())
}

/// The BLAKE3 digest of a byte sequence.
pub uninterp spec fn blake3_hash(data: Seq<u8>) -> Seq<u8>;

/// Calls `blake3::hash` and returns the 32 bytes of the digest. Trusted: the
/// result is the digest that `blake3_hash` names, a function of the bytes alone.
#[verifier::external_body]
pub(crate) fn blake3_digest(data: &[u8]) -> (d: [u8; 32])
    ensures
        d@ == blake3_hash(data@),
{
    *blake3::hash(data).as_bytes()
}

/// The BLAKE3 digest of the UTF-8 bytes of `input`.
pub fn hash_input(input: &str) -> (h: [u8; 32])
    ensures
        h@ == blake3_hash(input.spec_bytes()),
{
    blake3_digest(input.as_bytes())
}

} // verus!
