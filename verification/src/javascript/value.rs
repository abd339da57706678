//! The type of a JavaScript value.
use vstd::prelude::*;

verus! {

/// An enum identifying the type of a JavaScript value.
#[derive(Debug, Clone, Copy, PartialEq, Eq, Hash)]
pub enum JSType {
    Undefined,
    Null,
    Boolean,
    Number,
    String,
    Object,
    Symbol,
}

impl JSType {
    /// The C API value of this variant (`kJSType*`).
    pub open spec fn spec_raw(self) -> u32 {
        match self {
            JSType::Undefined => 0,
            JSType::Null => 1,
            JSType::Boolean => 2,
            JSType::Number => 3,
            JSType::String => 4,
            JSType::Object => 5,
            JSType::Symbol => 6,
        }
    }

    /// The C API value of this variant (`kJSType*`).
    pub fn to_raw(&self) -> (r: u32)
        ensures
            r == self.spec_raw(),
    {
        match self {
            JSType::Undefined => 0,
            JSType::Null => 1,
            JSType::Boolean => 2,
            JSType::Number => 3,
            JSType::String => 4,
            JSType::Object => 5,
            JSType::Symbol => 6,
        }
    }

    /// The variant with the given C API value; `None` for an unknown value.
    pub fn from_raw(raw: u32) -> (r: Option<JSType>)
        ensures
            match r {
                Some(v) => v.spec_raw() == raw,
                None => forall|v: JSType| v.spec_raw() != raw,
            },
    {
        if raw == 0 {
            Some(JSType::Undefined)
        } else if raw == 1 {
            Some(JSType::Null)
        } else if raw == 2 {
            Some(JSType::Boolean)
        } else if raw == 3 {
            Some(JSType::Number)
        } else if raw == 4 {
            Some(JSType::String)
        } else if raw == 5 {
            Some(JSType::Object)
        } else if raw == 6 {
            Some(JSType::Symbol)
        } else {
            None
        }
    }
}

/// Decoding the C API value of a variant gives the variant back.
pub proof fn lemma_js_type_raw_roundtrip(v: JSType)
    ensures
        forall|w: JSType| w.spec_raw() == v.spec_raw() ==> w == v,
{
}

/// The C API value of each variant (`kJSType*`): `Undefined` is 0, `Null` is 1, `Boolean` is 2,
/// `Number` is 3, `String` is 4, `Object` is 5, `Symbol` is 6.
pub proof fn lemma_js_type_raw_values()
    ensures
        JSType::Undefined.spec_raw() == 0,
        JSType::Null.spec_raw() == 1,
        JSType::Boolean.spec_raw() == 2,
        JSType::Number.spec_raw() == 3,
        JSType::String.spec_raw() == 4,
        JSType::Object.spec_raw() == 5,
        JSType::Symbol.spec_raw() == 6,
{
}

} // verus!
