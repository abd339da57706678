//! Attributes of JavaScript object properties.
use vstd::prelude::*;

verus! {

/// The value of `kJSPropertyAttributeReadOnly` in the C API.
pub const JS_PROPERTY_READ_ONLY: u32 = 2;
/// The value of `kJSPropertyAttributeDontEnum` in the C API.
pub const JS_PROPERTY_DONT_ENUM: u32 = 4;
/// The value of `kJSPropertyAttributeDontDelete` in the C API.
pub const JS_PROPERTY_DONT_DELETE: u32 = 8;

/// The attributes of a property set on a JavaScript object.
#[derive(Debug, Clone, Copy, PartialEq, Eq)]
pub struct JSPropertyAttributes {
    /// The property cannot be written to.
    pub read_only: bool,
    /// The property is not listed when the object's properties are enumerated.
    pub dont_enum: bool,
    /// The property cannot be deleted.
    pub dont_delete: bool,
}

impl Default for JSPropertyAttributes {
    fn default() -> (r: JSPropertyAttributes)
        ensures
            r == (JSPropertyAttributes { read_only: false, dont_enum: false, dont_delete: false }),
    {
        JSPropertyAttributes { read_only: false, dont_enum: false, dont_delete: false }
    }
}

impl JSPropertyAttributes {
    /// Attributes with no attribute set.
    pub fn new() -> (r: JSPropertyAttributes)
        ensures
            r == (JSPropertyAttributes { read_only: false, dont_enum: false, dont_delete: false }),
    {
        JSPropertyAttributes::default()
    }

    /// Sets whether the property is read only.
    pub fn read_only(self, read_only: bool) -> (r: JSPropertyAttributes)
        ensures
            r == (JSPropertyAttributes { read_only, ..self }),
    {
        JSPropertyAttributes { read_only, ..self }
    }

    /// Sets whether the property is left out of enumeration.
    pub fn dont_enum(self, dont_enum: bool) -> (r: JSPropertyAttributes)
        ensures
            r == (JSPropertyAttributes { dont_enum, ..self }),
    {
        JSPropertyAttributes { dont_enum, ..self }
    }

    /// Sets whether the property cannot be deleted.
    pub fn dont_delete(self, dont_delete: bool) -> (r: JSPropertyAttributes)
        ensures
            r == (JSPropertyAttributes { dont_delete, ..self }),
    {
        JSPropertyAttributes { dont_delete, ..self }
    }

    /// The attribute bit mask of the C API: the sum of the bits of the attributes that are set.
    pub open spec fn spec_to_raw(&self) -> u32 {
        (crate::event::flag_bit(self.read_only, JS_PROPERTY_READ_ONLY) + crate::event::flag_bit(
            self.dont_enum,
            JS_PROPERTY_DONT_ENUM,
        ) + crate::event::flag_bit(self.dont_delete, JS_PROPERTY_DONT_DELETE)) as u32
    }

    /// The attribute bit mask of the C API.
    pub fn to_raw(&self) -> (r: u32)
        ensures
            r == self.spec_to_raw(),
    {
        let mut raw: u32 = 0;
        if self.read_only {
            raw |= JS_PROPERTY_READ_ONLY;
            assert(raw == 2) by (bit_vector)
                requires
                    raw == 0u32 | 2u32,
            ;
        }
        let ghost r0 = raw;
        if self.dont_enum {
            raw |= JS_PROPERTY_DONT_ENUM;
            assert(raw == r0 + 4) by (bit_vector)
                requires
                    r0 < 4,
                    raw == r0 | 4u32,
            ;
        }
        let ghost r1 = raw;
        if self.dont_delete {
            raw |= JS_PROPERTY_DONT_DELETE;
            assert(raw == r1 + 8) by (bit_vector)
                requires
                    r1 < 8,
                    raw == r1 | 8u32,
            ;
        }
        raw
    }
}

/// Different attribute sets give different bit masks, so the mask loses no attribute.
pub proof fn lemma_property_attributes_raw_injective(a: JSPropertyAttributes, b: JSPropertyAttributes)
    requires
        a.spec_to_raw() == b.spec_to_raw(),
    ensures
        a == b,
{
}

/// Each attribute sets its own bit of the C API mask
/// (`kJSPropertyAttribute*`): read only the bit `2`, don't enumerate `4` and
/// don't delete `8`; no other bit is set, so no attributes give `0`
/// (`kJSPropertyAttributeNone`).
pub proof fn lemma_property_attributes_bits(a: JSPropertyAttributes)
    ensures
        (a.spec_to_raw() & 2u32 != 0) == a.read_only,
        (a.spec_to_raw() & 4u32 != 0) == a.dont_enum,
        (a.spec_to_raw() & 8u32 != 0) == a.dont_delete,
        a.spec_to_raw() & !14u32 == 0,
{
    crate::event::lemma_four_flag_bits(false, a.read_only, a.dont_enum, a.dont_delete);
    let m = a.spec_to_raw();
    assert(m & !15u32 == 0 && m & 1u32 == 0 ==> m & !14u32 == 0) by (bit_vector);
}

} // verus!
