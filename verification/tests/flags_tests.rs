use ul_next::event::{KeyEventModifiers, KeyEventType, MouseButton, MouseEventType, ScrollEventType};
use ul_next::javascript::{JSPropertyAttributes, JSType, JSTypedArrayType};
use ul_next::javascript::typed_array::{is_typed_array_type, typed_array_type_from_raw};
use ul_next::platform::LogLevel;
use ul_next::view::{ConsoleMessageLevel, ConsoleMessageSource};
use ul_next::window::WindowFlags;

#[test]
fn key_modifiers_mask() {
    let none = KeyEventModifiers { alt: false, ctrl: false, meta: false, shift: false };
    assert_eq!(none.to_u32(), 0);
    assert_eq!(KeyEventModifiers { alt: true, ..none }.to_u32(), 1);
    assert_eq!(KeyEventModifiers { ctrl: true, ..none }.to_u32(), 2);
    assert_eq!(KeyEventModifiers { meta: true, ..none }.to_u32(), 4);
    assert_eq!(KeyEventModifiers { shift: true, ..none }.to_u32(), 8);
    assert_eq!(KeyEventModifiers { alt: true, ctrl: true, meta: true, shift: true }.to_u32(), 15);
    assert_eq!(KeyEventModifiers { alt: true, shift: true, ..none }.to_u32(), 9);
}

#[test]
fn window_flags_mask() {
    let f = WindowFlags { borderless: false, titled: true, resizable: true, maximizable: true, hidden: false };
    assert_eq!(f.to_u32(), 14);
    let all = WindowFlags { borderless: true, titled: true, resizable: true, maximizable: true, hidden: true };
    assert_eq!(all.to_u32(), 31);
    let core = ul_next::app_core::WindowFlags {
        borderless: true,
        titled: false,
        resizable: false,
        maximizable: false,
        hidden: true,
    };
    assert_eq!(core.to_u32(), 17);
}

#[test]
fn property_attributes() {
    let a = JSPropertyAttributes::new();
    assert_eq!(a, JSPropertyAttributes::default());
    assert_eq!(a.to_raw(), 0);
    assert_eq!(a.read_only(true).to_raw(), 2);
    assert_eq!(a.dont_enum(true).to_raw(), 4);
    assert_eq!(a.dont_delete(true).to_raw(), 8);
    let all = a.read_only(true).dont_enum(true).dont_delete(true);
    assert_eq!(all.to_raw(), 14);
    assert_eq!(all.read_only(false).to_raw(), 12);
}

#[test]
fn event_raw_values() {
    assert_eq!(KeyEventType::RawKeyDown.to_raw(), 2);
    assert_eq!(KeyEventType::from_raw(3), Some(KeyEventType::Char));
    assert_eq!(KeyEventType::from_raw(4), None);
    assert_eq!(MouseEventType::MouseUp.to_raw(), 2);
    assert_eq!(MouseButton::from_raw(0), Some(MouseButton::NoButton));
    assert_eq!(MouseButton::Right.to_raw(), 3);
    assert_eq!(ScrollEventType::from_raw(1), Some(ScrollEventType::ScrollByPage));
}

#[test]
fn javascript_raw_values() {
    assert_eq!(JSType::from_raw(4), Some(JSType::String));
    assert_eq!(JSType::from_raw(7), None);
    assert_eq!(JSType::Symbol.to_raw(), 6);
    assert_eq!(JSTypedArrayType::from_raw(10), Some(JSTypedArrayType::NotTypedArray));
    assert_eq!(JSTypedArrayType::from_raw(12), Some(JSTypedArrayType::BigUint64Array));
    assert_eq!(JSTypedArrayType::from_raw(13), None);
    assert!(is_typed_array_type(Some(JSTypedArrayType::Uint8Array)));
    assert!(!is_typed_array_type(Some(JSTypedArrayType::NotTypedArray)));
    assert!(!is_typed_array_type(None));
}

#[test]
fn log_and_console_raw_values() {
    assert_eq!(LogLevel::from_raw(0), Some(LogLevel::Error));
    assert_eq!(LogLevel::from_raw(2), Some(LogLevel::Info));
    assert_eq!(LogLevel::from_raw(3), None);
    assert_eq!(ConsoleMessageLevel::from_raw(1), Some(ConsoleMessageLevel::Log));
    assert_eq!(ConsoleMessageLevel::from_raw(0), None);
    assert_eq!(ConsoleMessageSource::from_raw(10), Some(ConsoleMessageSource::Other));
    assert_eq!(ConsoleMessageSource::JS.to_raw(), 1);
}

#[test]
fn typed_array_type_from_raw_known_and_unknown() {
    assert_eq!(typed_array_type_from_raw(3), Ok(JSTypedArrayType::Uint8Array));
    assert_eq!(typed_array_type_from_raw(10), Ok(JSTypedArrayType::NotTypedArray));
    assert_eq!(
        typed_array_type_from_raw(42),
        Err("Unknown typed array type: 42".to_string())
    );
}
