//! Conversion of the strings that the C API hands out.
use std::string::FromUtf8Error;
use vstd::prelude::*;
use vstd::utf8::{decode_utf8, encode_utf8, valid_utf8};

use crate::error::CreationError;

verus! {

/// Calls `String::from_utf8`, which, as its documentation states, returns
/// the string the bytes encode when they are valid UTF-8, and an error when
/// they are not.
#[verifier::external_body]
fn string_from_utf8(bytes: Vec<u8>) -> (r: Result<String, FromUtf8Error>)
    ensures
        match r {
            Ok(s) => valid_utf8(bytes@) && s@ == decode_utf8(bytes@),
            Err(_) => !valid_utf8(bytes@),
        },
{
    String::from_utf8(bytes)
}

/// The characters of a string that `String::from_utf8_lossy` makes of the
/// bytes: each maximal invalid UTF-8 sequence is replaced by U+FFFD.
pub uninterp spec fn utf8_lossy(bytes: Seq<u8>) -> Seq<char>;

/// Calls `String::from_utf8_lossy`; it gives the decoded characters when the
/// bytes are valid UTF-8, and in any case a string that depends on the bytes
/// alone.
#[verifier::external_body]
fn string_from_utf8_lossy(bytes: &[u8]) -> (r: String)
    ensures
        r@ == utf8_lossy(bytes@),
        valid_utf8(bytes@) ==> r@ == decode_utf8(bytes@),
{
    String::from_utf8_lossy(bytes).into_owned()
}

/// Makes a Rust string of the bytes of a string that the C API handed out;
/// `None` stands for a null string or a null data pointer.
///
/// Fails with [`CreationError::NullReference`] on a null string and with
/// [`CreationError::RustStringCreationError`] when the bytes are not UTF-8.
pub fn string_from_ul_bytes(data: Option<&[u8]>) -> (r: Result<String, CreationError>)
    ensures
        match data {
            None => r matches Err(CreationError::NullReference),
            Some(bytes) => match r {
                Ok(s) => valid_utf8(bytes@) && s@ == decode_utf8(bytes@),
                Err(e) => !valid_utf8(bytes@) && e is RustStringCreationError,
            },
        },
{
    match data {
        None => Err(CreationError::NullReference),
        Some(bytes) => {
            let owned = vstd::slice::slice_to_vec(bytes);
            match string_from_utf8(owned) {
                Ok(s) => Ok(s),
                Err(e) => Err(CreationError::RustStringCreationError(e)),
            }
        },
    }
}

/// The version string of WebKit that the C API handed out: an empty string
/// for a null pointer, otherwise the bytes decoded with invalid sequences
/// replaced by U+FFFD.
pub fn webkit_version_from_c(data: Option<&[u8]>) -> (r: String)
    ensures
        match data {
            None => r@ == Seq::<char>::empty(),
            Some(bytes) => r@ == utf8_lossy(bytes@),
        },
{
    match data {
        None => String::new(),
        Some(bytes) => string_from_utf8_lossy(bytes),
    }
}

/// No byte of the sequence is zero.
pub open spec fn has_no_nul(bytes: Seq<u8>) -> bool {
    forall|i: int| 0 <= i < bytes.len() ==> bytes[i] != 0u8
}

/// The bytes of a C string that holds a Rust string: its UTF-8 bytes
/// followed by a zero byte.
///
/// Fails with [`CreationError::CStringCreationError`] when the string holds a
/// zero byte; the error names the first one and gives back the bytes.
pub fn c_string_bytes(s: &str) -> (r: Result<Vec<u8>, CreationError>)
    ensures
        match r {
            Ok(v) => has_no_nul(encode_utf8(s@)) && v@ == encode_utf8(s@).push(0u8),
            Err(CreationError::CStringCreationError { nul_position, bytes }) => {
                &&& nul_position < encode_utf8(s@).len()
                &&& encode_utf8(s@)[nul_position as int] == 0u8
                &&& has_no_nul(encode_utf8(s@).take(nul_position as int))
                &&& bytes@ == encode_utf8(s@)
            },
            Err(_) => false,
        },
{
    let b = s.as_bytes();
    let mut out: Vec<u8> = Vec::new();
    let mut i: usize = 0;
    while i < b.len()
        invariant
            b@ == encode_utf8(s@),
            i <= b.len(),
            out@ == b@.take(i as int),
            has_no_nul(b@.take(i as int)),
        decreases b.len() - i,
    {
        if b[i] == 0u8 {
            return Err(
                CreationError::CStringCreationError { nul_position: i, bytes: vstd::slice::slice_to_vec(b) },
            );
        }
        out.push(b[i]);
        i = i + 1;
        assert(b@.take(i as int) =~= b@.take((i - 1) as int).push(b@[i - 1]));
    }
    assert(b@.take(i as int) =~= b@);
    out.push(0u8);
    Ok(out)
}

} // verus!
