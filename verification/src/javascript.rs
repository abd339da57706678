//! Values that describe JavaScriptCore objects and values.
pub mod object;
pub mod typed_array;
pub mod value;

pub use object::JSPropertyAttributes;
pub use typed_array::JSTypedArrayType;
pub use value::JSType;
