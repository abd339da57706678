//! The type of a JavaScript typed array.
use vstd::prelude::*;
use vstd::string::StringExecFns;

use crate::version::{decimal, push_decimal};

verus! {

/// An enum identifying the Typed Array type of a typed array object.
#[derive(Debug, Clone, Copy, PartialEq, Eq, Hash)]
pub enum JSTypedArrayType {
    Int8Array,
    Int16Array,
    Int32Array,
    Uint8Array,
    Uint8ClampedArray,
    Uint16Array,
    Uint32Array,
    Float32Array,
    Float64Array,
    ArrayBuffer,
    /// The object is not a typed array (named `None` in the C API).
    NotTypedArray,
    BigInt64Array,
    BigUint64Array,
}

impl JSTypedArrayType {
    /// The C API value of this variant (`kJSTypedArrayType*`).
    pub open spec fn spec_raw(self) -> u32 {
        match self {
            JSTypedArrayType::Int8Array => 0,
            JSTypedArrayType::Int16Array => 1,
            JSTypedArrayType::Int32Array => 2,
            JSTypedArrayType::Uint8Array => 3,
            JSTypedArrayType::Uint8ClampedArray => 4,
            JSTypedArrayType::Uint16Array => 5,
            JSTypedArrayType::Uint32Array => 6,
            JSTypedArrayType::Float32Array => 7,
            JSTypedArrayType::Float64Array => 8,
            JSTypedArrayType::ArrayBuffer => 9,
            JSTypedArrayType::NotTypedArray => 10,
            JSTypedArrayType::BigInt64Array => 11,
            JSTypedArrayType::BigUint64Array => 12,
        }
    }

    /// The C API value of this variant (`kJSTypedArrayType*`).
    pub fn to_raw(&self) -> (r: u32)
        ensures
            r == self.spec_raw(),
    {
        match self {
            JSTypedArrayType::Int8Array => 0,
            JSTypedArrayType::Int16Array => 1,
            JSTypedArrayType::Int32Array => 2,
            JSTypedArrayType::Uint8Array => 3,
            JSTypedArrayType::Uint8ClampedArray => 4,
            JSTypedArrayType::Uint16Array => 5,
            JSTypedArrayType::Uint32Array => 6,
            JSTypedArrayType::Float32Array => 7,
            JSTypedArrayType::Float64Array => 8,
            JSTypedArrayType::ArrayBuffer => 9,
            JSTypedArrayType::NotTypedArray => 10,
            JSTypedArrayType::BigInt64Array => 11,
            JSTypedArrayType::BigUint64Array => 12,
        }
    }

    /// The variant with the given C API value; `None` for an unknown value.
    pub fn from_raw(raw: u32) -> (r: Option<JSTypedArrayType>)
        ensures
            match r {
                Some(v) => v.spec_raw() == raw,
                None => forall|v: JSTypedArrayType| v.spec_raw() != raw,
            },
    {
        if raw == 0 {
            Some(JSTypedArrayType::Int8Array)
        } else if raw == 1 {
            Some(JSTypedArrayType::Int16Array)
        } else if raw == 2 {
            Some(JSTypedArrayType::Int32Array)
        } else if raw == 3 {
            Some(JSTypedArrayType::Uint8Array)
        } else if raw == 4 {
            Some(JSTypedArrayType::Uint8ClampedArray)
        } else if raw == 5 {
            Some(JSTypedArrayType::Uint16Array)
        } else if raw == 6 {
            Some(JSTypedArrayType::Uint32Array)
        } else if raw == 7 {
            Some(JSTypedArrayType::Float32Array)
        } else if raw == 8 {
            Some(JSTypedArrayType::Float64Array)
        } else if raw == 9 {
            Some(JSTypedArrayType::ArrayBuffer)
        } else if raw == 10 {
            Some(JSTypedArrayType::NotTypedArray)
        } else if raw == 11 {
            Some(JSTypedArrayType::BigInt64Array)
        } else if raw == 12 {
            Some(JSTypedArrayType::BigUint64Array)
        } else {
            None
        }
    }
}

/// Decoding the C API value of a variant gives the variant back.
pub proof fn lemma_js_typed_array_type_raw_roundtrip(v: JSTypedArrayType)
    ensures
        forall|w: JSTypedArrayType| w.spec_raw() == v.spec_raw() ==> w == v,
{
}

/// Whether the type of an object, if it could be read, is a typed array type:
/// `false` when reading it failed or the object is not a typed array.
pub fn is_typed_array_type(ty: Option<JSTypedArrayType>) -> (r: bool)
    ensures
        r == (ty is Some && ty != Some(JSTypedArrayType::NotTypedArray)),
{
    match ty {
        None => false,
        Some(JSTypedArrayType::NotTypedArray) => false,
        Some(_) => true,
    }
}

/// The message of the JavaScript error that reading the type of a typed array
/// gives when the C API reports a value it does not define.
pub open spec fn unknown_typed_array_message(raw: u32) -> Seq<char> {
    "Unknown typed array type: "@ + decimal(raw as nat)
}

/// The type of a typed array for the value the C API reported, or, for a value
/// it does not define, the message of the error that reading the type gives.
pub fn typed_array_type_from_raw(raw: u32) -> (r: Result<JSTypedArrayType, String>)
    ensures
        match r {
            Ok(t) => t.spec_raw() == raw,
            Err(m) => (forall|v: JSTypedArrayType| v.spec_raw() != raw) && m@
                == unknown_typed_array_message(raw),
        },
{
    match JSTypedArrayType::from_raw(raw) {
        Some(t) => Ok(t),
        None => {
            let mut m = String::from_str("Unknown typed array type: ");
            push_decimal(&mut m, raw);
            Err(m)
        },
    }
}

/// The C API value of each variant (`kJSTypedArrayType*`): `Int8Array` is 0, `Int16Array` is 1,
/// `Int32Array` is 2, `Uint8Array` is 3, `Uint8ClampedArray` is 4, `Uint16Array` is 5,
/// `Uint32Array` is 6, `Float32Array` is 7, `Float64Array` is 8, `ArrayBuffer` is 9,
/// `NotTypedArray` is 10, `BigInt64Array` is 11, `BigUint64Array` is 12.
pub proof fn lemma_js_typed_array_type_raw_values()
    ensures
        JSTypedArrayType::Int8Array.spec_raw() == 0,
        JSTypedArrayType::Int16Array.spec_raw() == 1,
        JSTypedArrayType::Int32Array.spec_raw() == 2,
        JSTypedArrayType::Uint8Array.spec_raw() == 3,
        JSTypedArrayType::Uint8ClampedArray.spec_raw() == 4,
        JSTypedArrayType::Uint16Array.spec_raw() == 5,
        JSTypedArrayType::Uint32Array.spec_raw() == 6,
        JSTypedArrayType::Float32Array.spec_raw() == 7,
        JSTypedArrayType::Float64Array.spec_raw() == 8,
        JSTypedArrayType::ArrayBuffer.spec_raw() == 9,
        JSTypedArrayType::NotTypedArray.spec_raw() == 10,
        JSTypedArrayType::BigInt64Array.spec_raw() == 11,
        JSTypedArrayType::BigUint64Array.spec_raw() == 12,
{
}

} // verus!
