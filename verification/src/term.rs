//! Decoding of dynamic remote values into validated domain values.
//!
//! A remote node answers calls with loosely typed terms: integers, atoms and
//! lists. Strings arrive as lists of character codes. The decoders here turn
//! such a term into a typed value, or fail with an error that says what was
//! expected and what was found. Decoding is total: a shape mismatch at any
//! position aborts the whole decode, never a partial success.

use vstd::prelude::*;

verus! {

use vstd::string::StrSliceExecFns;
use vstd::utf8::{valid_utf8, decode_utf8, encode_utf8};

/// A dynamic value received from the remote node, before decoding.
#[derive(Debug)]
pub enum Term {
    /// A machine-word integer.
    FixInteger(i32),
    /// An integer too wide for `FixInteger`.
    BigInteger(i128),
    /// A textual identifier.
    Atom(String),
    /// An ordered list of further terms.
    List(Vec<Term>),
    /// A value of a shape the decoders give no meaning to (a tuple, a pid, a
    /// float, ...), kept as a description for error reports.
    Other(String),
}

/// Why a decode failed; carries the value that did not fit the expected shape.
#[derive(Debug)]
pub enum DecodeError {
    /// The whole term was expected to be a list of character codes.
    NotAString { got: Term },
    /// A list element was expected to be a machine-word integer.
    NotAnInteger { got: Term },
    /// An integer element does not fit in a byte.
    ByteOutOfRange { value: i32 },
    /// The byte sequence is not valid UTF-8 text.
    InvalidUtf8,
}

/// The term is an integer that fits in a byte.
pub open spec fn is_byte_term(t: Term) -> bool {
    t matches Term::FixInteger(v) && 0 <= v <= 255
}

/// The byte a well-shaped element stands for.
pub open spec fn term_byte(t: Term) -> u8
    recommends
        is_byte_term(t),
{
    match t {
        Term::FixInteger(v) => v as u8,
        _ => 0,
    }
}

/// Every element of the sequence is an integer that fits in a byte.
pub open spec fn all_byte_terms(es: Seq<Term>) -> bool {
    forall|i: int| 0 <= i < es.len() ==> is_byte_term(#[trigger] es[i])
}

/// The byte sequence a well-shaped list of elements stands for.
pub open spec fn bytes_of(es: Seq<Term>) -> Seq<u8>
    recommends
        all_byte_terms(es),
{
    es.map(|i: int, t: Term| term_byte(t))
}

/// The error reported for a list element that is not a byte.
pub open spec fn byte_error(t: Term) -> DecodeError
    recommends
        !is_byte_term(t),
{
    match t {
        Term::FixInteger(v) => DecodeError::ByteOutOfRange { value: v },
        _ => DecodeError::NotAnInteger { got: t },
    }
}

/// The term decodes as text: a list of bytes forming valid UTF-8.
pub open spec fn decodes_as_text(t: Term) -> bool {
    t matches Term::List(es) && all_byte_terms(es@) && valid_utf8(bytes_of(es@))
}

/// The text a decodable term stands for.
pub open spec fn text_of(t: Term) -> Seq<char>
    recommends
        decodes_as_text(t),
{
    match t {
        Term::List(es) => decode_utf8(bytes_of(es@)),
        _ => Seq::empty(),
    }
}

/// The error a failed text decode reports: a shape error for a non-list, the
/// error of the first offending element of a list, or a UTF-8 error.
pub open spec fn text_decode_failure(t: Term, e: DecodeError) -> bool {
    match t {
        Term::List(es) => {
            if !all_byte_terms(es@) {
                exists|i: int|
                    0 <= i < es@.len() && !is_byte_term(#[trigger] es@[i]) && all_byte_terms(
                        es@.take(i),
                    ) && e == byte_error(es@[i])
            } else {
                !valid_utf8(bytes_of(es@)) && e == (DecodeError::InvalidUtf8)
            }
        },
        _ => e == (DecodeError::NotAString { got: t }),
    }
}

/// Decode a term as a single byte: an integer in the byte range.
pub fn decode_byte(t: Term) -> (r: Result<u8, DecodeError>)
    ensures
        is_byte_term(t) ==> r == Ok::<u8, DecodeError>(term_byte(t)),
        !is_byte_term(t) ==> r == Err::<u8, DecodeError>(byte_error(t)),
{
    match t {
        Term::FixInteger(v) => {
            if 0 <= v && v <= 255 {
                Ok(v as u8)
            } else {
                Err(DecodeError::ByteOutOfRange { value: v })
            }
        },
        other => Err(DecodeError::NotAnInteger { got: other }),
    }
}

/// Relies on `String::from_utf8`: it succeeds exactly on byte sequences that
/// are valid UTF-8 and returns the text those bytes encode.
#[verifier::external_body]
fn string_from_utf8(bytes: Vec<u8>) -> (r: Option<String>)
    ensures
        r is Some <==> valid_utf8(bytes@),
        r matches Some(s) ==> s@ == decode_utf8(bytes@),
{
    String::from_utf8(bytes).ok()
}

/// Decode a term as text: the term must be a list whose every element is an
/// integer in the byte range, and the bytes must form valid UTF-8.
pub fn decode_text(t: Term) -> (r: Result<String, DecodeError>)
    ensures
        r is Ok <==> decodes_as_text(t),
        r matches Ok(s) ==> s@ == text_of(t),
        r matches Err(e) ==> text_decode_failure(t, e),
{
    match t {
        Term::List(es) => {
            let ghost all: Seq<Term> = es@;
            let mut rest = es;
            let mut bytes: Vec<u8> = Vec::new();
            while rest.len() > 0
                invariant
                    t matches Term::List(es0) && es0@ == all,
                    bytes@.len() <= all.len(),
                    all == all.take(bytes@.len() as int) + rest@,
                    all_byte_terms(all.take(bytes@.len() as int)),
                    bytes@ == bytes_of(all.take(bytes@.len() as int)),
                decreases rest@.len(),
            {
                let ghost k = bytes@.len() as int;
                let e = rest.remove(0);
                assert(e == all[k]);
                match decode_byte(e) {
                    Ok(b) => {
                        bytes.push(b);
                        assert(all.take(k + 1) =~= all.take(k).push(e));
                        assert(bytes@ =~= bytes_of(all.take(k + 1)));
                    },
                    Err(err) => {
                        proof {
                            assert(!all_byte_terms(all)) by {
                                assert(!is_byte_term(all[k]));
                            }
                            assert(exists|i: int|
                                0 <= i < all.len() && !is_byte_term(#[trigger] all[i])
                                    && all_byte_terms(all.take(i)) && err == byte_error(
                                    all[i],
                                )) by {
                                assert(0 <= k < all.len() && !is_byte_term(all[k])
                                    && all_byte_terms(all.take(k)) && err == byte_error(all[k]));
                            }
                        }
                        return Err(err);
                    },
                }
            }
            assert(all.take(bytes@.len() as int) =~= all);
            match string_from_utf8(bytes) {
                Some(s) => Ok(s),
                None => Err(DecodeError::InvalidUtf8),
            }
        },
        other => Err(DecodeError::NotAString { got: other }),
    }
}

/// Encode text back into the byte sequence it is stored as.
pub fn encode_text(s: &str) -> (r: Vec<u8>)
    ensures
        r@ == encode_utf8(s@),
{
    s.as_bytes_vec()
}

/// Round trip: decoding a well-shaped list of byte terms and re-encoding the
/// resulting text gives back the very byte sequence that was decoded.
pub proof fn lemma_text_round_trip(t: Term)
    requires
        decodes_as_text(t),
    ensures
        encode_utf8(text_of(t)) == match t {
            Term::List(es) => bytes_of(es@),
            _ => Seq::<u8>::empty(),
        },
{
    match t {
        Term::List(es) => {
            vstd::utf8::decode_utf8_encode_utf8(bytes_of(es@));
        },
        _ => {},
    }
}

} // verus!
