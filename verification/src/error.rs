//! Errors that can occur when creating objects of the library.
use std::string::FromUtf8Error;
use vstd::prelude::*;

verus! {

/// The error `String::from_utf8` returns for bytes that are not UTF-8.
#[verifier::external_type_specification]
#[verifier::external_body]
pub struct ExFromUtf8Error(FromUtf8Error);

/// Errors can occur when creating some of the structs.
#[derive(Debug)]
pub enum CreationError {
    /// Ultralight library returned null pointer, and couldn't create the object.
    NullReference,
    /// Ultralight returned null pointer when trying to create an Ultralight string
    /// from a Rust string.
    UlStringCreationError(String),
    /// Ultralight string contained invalid UTF-8, and couldn't convert it to a
    /// valid Rust string.
    RustStringCreationError(FromUtf8Error),
    /// A string contained a null byte at `nul_position`, and couldn't be converted
    /// to a C string without losing data; `bytes` are the bytes of the string.
    CStringCreationError { nul_position: usize, bytes: Vec<u8> },
}

} // verus!
