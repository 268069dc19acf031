//! XDR base64 encoding/decoding utilities for Soroban RPC.
//!
//! Soroban RPC transmits XDR payloads as standard base64 (with padding).
//! The encoding itself is done by the `base64` crate's standard engine.

use base64::engine::general_purpose::STANDARD;
use base64::DecodeError;
use base64::Engine;
use vstd::prelude::*;

verus! {

#[verifier::external_type_specification]
#[verifier::external_body]
pub struct ExDecodeError(DecodeError);

/// What `base64::engine::general_purpose::STANDARD.encode` returns for the given bytes.
pub uninterp spec fn standard_encoding(bytes: Seq<u8>) -> Seq<char>;

/// What `base64::engine::general_purpose::STANDARD.decode` returns for the given text:
/// `Some(bytes)` on success, `None` when the text is rejected.
pub uninterp spec fn standard_decoding(text: Seq<char>) -> Option<Seq<u8>>;

/// A character of the standard base64 alphabet, or the padding character `=`.
pub open spec fn is_base64_symbol(c: char) -> bool {
    ||| ('A' <= c && c <= 'Z')
    ||| ('a' <= c && c <= 'z')
    ||| ('0' <= c && c <= '9')
    ||| c == '+'
    ||| c == '/'
    ||| c == '='
}

/// A character of the standard base64 alphabet (`A`–`Z`, `a`–`z`, `0`–`9`, `+`, `/`).
pub open spec fn is_base64_digit(c: char) -> bool {
    is_base64_symbol(c) && c != '='
}

/// The length of the standard (padded) encoding of `n` bytes: four symbols per
/// started group of three bytes.
pub open spec fn encoded_len(n: nat) -> nat {
    4 * ((n + 2) / 3)
}

/// How many `=` end the padded encoding of `n` bytes: two when one byte is
/// left over after the groups of three, one when two are, none otherwise.
pub open spec fn padding_len(n: nat) -> nat {
    if n % 3 == 0 {
        0
    } else {
        (3 - n % 3) as nat
    }
}

/// Unicode `White_Space`, the set that `char::is_whitespace` and `str::trim` use.
pub open spec fn is_white_space(c: char) -> bool {
    ||| ('\u{9}' <= c && c <= '\u{d}')
    ||| c == ' '
    ||| c == '\u{85}'
    ||| c == '\u{a0}'
    ||| c == '\u{1680}'
    ||| ('\u{2000}' <= c && c <= '\u{200a}')
    ||| c == '\u{2028}'
    ||| c == '\u{2029}'
    ||| c == '\u{202f}'
    ||| c == '\u{205f}'
    ||| c == '\u{3000}'
}

/// `s` without its leading white space.
pub open spec fn trim_start(s: Seq<char>) -> Seq<char>
    decreases s.len(),
{
    if s.len() > 0 && is_white_space(s[0]) {
        trim_start(s.drop_first())
    } else {
        s
    }
}

/// `s` without its trailing white space.
pub open spec fn trim_end(s: Seq<char>) -> Seq<char>
    decreases s.len(),
{
    if s.len() > 0 && is_white_space(s.last()) {
        trim_end(s.drop_last())
    } else {
        s
    }
}

/// `s` without leading and trailing white space, as `str::trim` returns it.
pub open spec fn trimmed(s: Seq<char>) -> Seq<char> {
    trim_end(trim_start(s))
}

/// Whether the encoding of `n` bytes has a length that fits in `usize`.
pub open spec fn encodable_len(n: nat) -> bool {
    encoded_len(n) <= usize::MAX
}

/// Errors of the XDR helpers.
#[derive(Clone, Copy, Debug, PartialEq, Eq, Structural)]
pub enum XdrError {
    /// The text is not valid standard base64 (with canonical padding).
    InvalidBase64,
}

impl XdrError {
    /// What went wrong, as a message for the user.
    pub fn message(&self) -> (res: &'static str)
        ensures
            res@ == "invalid base64-encoded XDR"@,
    {
        match self {
            XdrError::InvalidBase64 => "invalid base64-encoded XDR",
        }
    }
}

/// Encode raw XDR bytes to a base64 string (standard alphabet, with padding).
///
/// Trusted: calls `STANDARD.encode` of the `base64` crate. The contract claims
/// that the result is the standard encoding of the input, that it has four
/// symbols per started group of three bytes, all from the alphabet but for the
/// one or two `=` of padding at its end, and that the same engine decodes it back
/// to the input (the engine pads on encoding and requires canonical padding on
/// decoding). The engine panics only when the encoded length overflows `usize`,
/// which `requires` rules out.
#[verifier::external_body]
pub fn encode(xdr: &[u8]) -> (res: String)
    requires
        encodable_len(xdr@.len()),
    ensures
        res@ == standard_encoding(xdr@),
        res@.len() == encoded_len(xdr@.len()),
        forall|i: int|
            0 <= i < res@.len() - padding_len(xdr@.len()) ==> is_base64_digit(#[trigger] res@[i]),
        forall|i: int|
            res@.len() - padding_len(xdr@.len()) <= i < res@.len() ==> #[trigger] res@[i] == '=',
        forall|i: int| 0 <= i < res@.len() ==> is_base64_symbol(#[trigger] res@[i]),
        standard_decoding(res@) == Some(xdr@),
{
    STANDARD.encode(xdr)
}

/// Trusted: calls `STANDARD.decode` of the `base64` crate, whose result is named
/// by `standard_decoding`. The contract also claims that a text is accepted
/// exactly when it is the standard encoding of some bytes, namely of those it
/// decodes to: the engine requires canonical padding and rejects non-zero
/// trailing bits, and it decodes every encoding it makes.
#[verifier::external_body]
fn decode_standard(text: &str) -> (res: Result<Vec<u8>, DecodeError>)
    ensures
        match res {
            Ok(bytes) => standard_decoding(text@) == Some(bytes@) && standard_encoding(bytes@)
                == text@,
            Err(_) => standard_decoding(text@) is None && forall|bytes: Seq<u8>|
                #[trigger] standard_encoding(bytes) != text@,
        },
{
    STANDARD.decode(text)
}

/// Trusted: calls `str::trim`, which removes leading and trailing Unicode white space.
#[verifier::external_body]
fn trim_white_space(s: &str) -> (res: &str)
    ensures
        res@ == trimmed(s@),
{
    s.trim()
}

/// The library's reading of what the standard engine's decoder returned:
/// the bytes, or `InvalidBase64` whatever the decoder's complaint.
pub fn decoded(result: Result<Vec<u8>, DecodeError>) -> (res: Result<Vec<u8>, XdrError>)
    ensures
        match result {
            Ok(bytes) => res == Ok::<Vec<u8>, XdrError>(bytes),
            Err(_) => res == Err::<Vec<u8>, XdrError>(XdrError::InvalidBase64),
        },
{
    match result {
        Ok(bytes) => Ok(bytes),
        Err(_) => Err(XdrError::InvalidBase64),
    }
}

/// Decode a base64 string back to raw XDR bytes. Leading and trailing white
/// space (such as the newline RPC responses end with) is ignored; the rest is
/// accepted exactly when it is the standard encoding of some bytes, which are
/// returned.
pub fn decode(b64: &str) -> (res: Result<Vec<u8>, XdrError>)
    ensures
        match res {
            Ok(bytes) => standard_decoding(trimmed(b64@)) == Some(bytes@) && standard_encoding(
                bytes@,
            ) == trimmed(b64@),
            Err(e) => standard_decoding(trimmed(b64@)) is None && e == XdrError::InvalidBase64
                && forall|bytes: Seq<u8>| #[trigger] standard_encoding(bytes) != trimmed(b64@),
        },
{
    let text = trim_white_space(b64);
    decoded(decode_standard(text))
}

/// `s` without its leading white space starts with no white space, and
/// trimming its start again changes nothing.
proof fn lemma_trim_start(s: Seq<char>)
    ensures
        trim_start(s).len() == 0 || !is_white_space(trim_start(s)[0]),
        trim_start(trim_start(s)) == trim_start(s),
    decreases s.len(),
{
    if s.len() > 0 && is_white_space(s[0]) {
        lemma_trim_start(s.drop_first());
    }
}

/// `s` without its trailing white space is a prefix of `s` that ends with no
/// white space, and trimming its end again changes nothing.
proof fn lemma_trim_end(s: Seq<char>)
    ensures
        trim_end(s).len() <= s.len(),
        forall|i: int| 0 <= i < trim_end(s).len() ==> #[trigger] trim_end(s)[i] == s[i],
        trim_end(s).len() == 0 || !is_white_space(trim_end(s).last()),
        trim_end(trim_end(s)) == trim_end(s),
    decreases s.len(),
{
    if s.len() > 0 && is_white_space(s.last()) {
        lemma_trim_end(s.drop_last());
    }
}

/// Trimming is idempotent, so `decode` gives the same result on a text and on
/// the text already trimmed.
pub proof fn lemma_trimmed_idempotent(s: Seq<char>)
    ensures
        trimmed(trimmed(s)) == trimmed(s),
{
    let t = trim_start(s);
    let u = trim_end(t);
    lemma_trim_start(s);
    lemma_trim_end(t);
    if u.len() > 0 {
        assert(u[0] == t[0]);
        assert(trim_start(u) == u);
    } else {
        assert(trim_start(u) == u);
    }
}

/// A text made of base64 symbols has no white space to trim.
pub proof fn lemma_symbols_are_not_trimmed(s: Seq<char>)
    requires
        forall|i: int| 0 <= i < s.len() ==> is_base64_symbol(#[trigger] s[i]),
    ensures
        trimmed(s) == s,
{
    if s.len() > 0 {
        assert(is_base64_symbol(s[0]));
        assert(is_base64_symbol(s[s.len() - 1]));
    }
    assert(trim_start(s) == s);
}

/// Round-trip helper: encode then immediately decode, returning the bytes.
/// Every payload survives the encoding cycle unchanged.
pub fn roundtrip(xdr: &[u8]) -> (res: Result<Vec<u8>, XdrError>)
    requires
        encodable_len(xdr@.len()),
    ensures
        res matches Ok(bytes) && bytes@ == xdr@,
{
    let encoded = encode(xdr);
    proof {
        lemma_symbols_are_not_trimmed(encoded@);
    }
    decode(encoded.as_str())
}

} // verus!
