//! Values that describe the events a view receives.
use vstd::prelude::*;

verus! {

/// The type of a key event.
#[derive(Debug, Clone, Copy, PartialEq, Eq)]
pub enum KeyEventType {
    /// Key-Down event type. (Does not trigger accelerator commands in WebCore)
    KeyDown,
    /// Key-Up event type. Use this when a physical key is released.
    KeyUp,
    /// Raw Key-Down type. Use this when a physical key is pressed.
    RawKeyDown,
    /// Character input event type, when the OS generates text from a physical key being pressed.
    Char,
}

impl KeyEventType {
    /// The C API value of this variant (`kKeyEventType_*`).
    pub open spec fn spec_raw(self) -> u32 {
        match self {
            KeyEventType::KeyDown => 0,
            KeyEventType::KeyUp => 1,
            KeyEventType::RawKeyDown => 2,
            KeyEventType::Char => 3,
        }
    }

    /// The C API value of this variant (`kKeyEventType_*`).
    pub fn to_raw(&self) -> (r: u32)
        ensures
            r == self.spec_raw(),
    {
        match self {
            KeyEventType::KeyDown => 0,
            KeyEventType::KeyUp => 1,
            KeyEventType::RawKeyDown => 2,
            KeyEventType::Char => 3,
        }
    }

    /// The variant with the given C API value; `None` for an unknown value.
    pub fn from_raw(raw: u32) -> (r: Option<KeyEventType>)
        ensures
            match r {
                Some(v) => v.spec_raw() == raw,
                None => forall|v: KeyEventType| v.spec_raw() != raw,
            },
    {
        if raw == 0 {
            Some(KeyEventType::KeyDown)
        } else if raw == 1 {
            Some(KeyEventType::KeyUp)
        } else if raw == 2 {
            Some(KeyEventType::RawKeyDown)
        } else if raw == 3 {
            Some(KeyEventType::Char)
        } else {
            None
        }
    }
}

/// Decoding the C API value of a variant gives the variant back.
pub proof fn lemma_key_event_type_raw_roundtrip(v: KeyEventType)
    ensures
        forall|w: KeyEventType| w.spec_raw() == v.spec_raw() ==> w == v,
{
}

/// The type of a mouse event.
#[derive(Debug, Clone, Copy, PartialEq, Eq)]
pub enum MouseEventType {
    /// Mouse moved event type
    MouseMoved,
    /// Mouse button pressed event type
    MouseDown,
    /// Mouse button released event type
    MouseUp,
}

impl MouseEventType {
    /// The C API value of this variant (`kMouseEventType_*`).
    pub open spec fn spec_raw(self) -> u32 {
        match self {
            MouseEventType::MouseMoved => 0,
            MouseEventType::MouseDown => 1,
            MouseEventType::MouseUp => 2,
        }
    }

    /// The C API value of this variant (`kMouseEventType_*`).
    pub fn to_raw(&self) -> (r: u32)
        ensures
            r == self.spec_raw(),
    {
        match self {
            MouseEventType::MouseMoved => 0,
            MouseEventType::MouseDown => 1,
            MouseEventType::MouseUp => 2,
        }
    }

    /// The variant with the given C API value; `None` for an unknown value.
    pub fn from_raw(raw: u32) -> (r: Option<MouseEventType>)
        ensures
            match r {
                Some(v) => v.spec_raw() == raw,
                None => forall|v: MouseEventType| v.spec_raw() != raw,
            },
    {
        if raw == 0 {
            Some(MouseEventType::MouseMoved)
        } else if raw == 1 {
            Some(MouseEventType::MouseDown)
        } else if raw == 2 {
            Some(MouseEventType::MouseUp)
        } else {
            None
        }
    }
}

/// Decoding the C API value of a variant gives the variant back.
pub proof fn lemma_mouse_event_type_raw_roundtrip(v: MouseEventType)
    ensures
        forall|w: MouseEventType| w.spec_raw() == v.spec_raw() ==> w == v,
{
}

/// The type of button that was pressed or released.
#[derive(Debug, Clone, Copy, PartialEq, Eq)]
pub enum MouseButton {
    /// No button (named `None` in the C API).
    NoButton,
    Left,
    Middle,
    Right,
}

impl MouseButton {
    /// The C API value of this variant (`kMouseButton_*`).
    pub open spec fn spec_raw(self) -> u32 {
        match self {
            MouseButton::NoButton => 0,
            MouseButton::Left => 1,
            MouseButton::Middle => 2,
            MouseButton::Right => 3,
        }
    }

    /// The C API value of this variant (`kMouseButton_*`).
    pub fn to_raw(&self) -> (r: u32)
        ensures
            r == self.spec_raw(),
    {
        match self {
            MouseButton::NoButton => 0,
            MouseButton::Left => 1,
            MouseButton::Middle => 2,
            MouseButton::Right => 3,
        }
    }

    /// The variant with the given C API value; `None` for an unknown value.
    pub fn from_raw(raw: u32) -> (r: Option<MouseButton>)
        ensures
            match r {
                Some(v) => v.spec_raw() == raw,
                None => forall|v: MouseButton| v.spec_raw() != raw,
            },
    {
        if raw == 0 {
            Some(MouseButton::NoButton)
        } else if raw == 1 {
            Some(MouseButton::Left)
        } else if raw == 2 {
            Some(MouseButton::Middle)
        } else if raw == 3 {
            Some(MouseButton::Right)
        } else {
            None
        }
    }
}

/// Decoding the C API value of a variant gives the variant back.
pub proof fn lemma_mouse_button_raw_roundtrip(v: MouseButton)
    ensures
        forall|w: MouseButton| w.spec_raw() == v.spec_raw() ==> w == v,
{
}

/// The type of a scroll event.
#[derive(Debug, Clone, Copy, PartialEq, Eq)]
pub enum ScrollEventType {
    /// The delta value is interpreted as number of pixels
    ScrollByPixel,
    /// The delta value is interpreted as number of pages
    ScrollByPage,
}

impl ScrollEventType {
    /// The C API value of this variant (`kScrollEventType_*`).
    pub open spec fn spec_raw(self) -> u32 {
        match self {
            ScrollEventType::ScrollByPixel => 0,
            ScrollEventType::ScrollByPage => 1,
        }
    }

    /// The C API value of this variant (`kScrollEventType_*`).
    pub fn to_raw(&self) -> (r: u32)
        ensures
            r == self.spec_raw(),
    {
        match self {
            ScrollEventType::ScrollByPixel => 0,
            ScrollEventType::ScrollByPage => 1,
        }
    }

    /// The variant with the given C API value; `None` for an unknown value.
    pub fn from_raw(raw: u32) -> (r: Option<ScrollEventType>)
        ensures
            match r {
                Some(v) => v.spec_raw() == raw,
                None => forall|v: ScrollEventType| v.spec_raw() != raw,
            },
    {
        if raw == 0 {
            Some(ScrollEventType::ScrollByPixel)
        } else if raw == 1 {
            Some(ScrollEventType::ScrollByPage)
        } else {
            None
        }
    }
}

/// Decoding the C API value of a variant gives the variant back.
pub proof fn lemma_scroll_event_type_raw_roundtrip(v: ScrollEventType)
    ensures
        forall|w: ScrollEventType| w.spec_raw() == v.spec_raw() ==> w == v,
{
}

/// Modifiers that can be pressed with a key.
#[derive(Debug, Clone, Copy, PartialEq, Eq)]
pub struct KeyEventModifiers {
    /// Whether or not an ALT key is down
    pub alt: bool,
    /// Whether or not a Control key is down
    pub ctrl: bool,
    /// Whether or not a meta key (Command-key on Mac, Windows-key on Win) is down
    pub meta: bool,
    /// Whether or not a Shift key is down
    pub shift: bool,
}

/// `bit` when `on`, `0` otherwise.
pub open spec fn flag_bit(on: bool, bit: u32) -> u32 {
    if on {
        bit
    } else {
        0
    }
}

impl KeyEventModifiers {
    /// The modifier bit mask of the C API: ALT is bit 0, Control bit 1, meta
    /// bit 2 and Shift bit 3.
    pub open spec fn spec_to_u32(&self) -> u32 {
        (flag_bit(self.alt, 1) + flag_bit(self.ctrl, 2) + flag_bit(self.meta, 4) + flag_bit(
            self.shift,
            8,
        )) as u32
    }

    /// The modifier bit mask of the C API.
    pub fn to_u32(&self) -> (r: u32)
        ensures
            r == self.spec_to_u32(),
    {
        let mut n: u32 = 0;
        if self.alt {
            n |= 1 << 0;
            assert(n == 1) by (bit_vector)
                requires
                    n == 0u32 | (1u32 << 0u32),
            ;
        }
        let ghost n0 = n;
        if self.ctrl {
            n |= 1 << 1;
            assert(n == n0 + 2) by (bit_vector)
                requires
                    n0 < 2,
                    n == n0 | (1u32 << 1u32),
            ;
        }
        let ghost n1 = n;
        if self.meta {
            n |= 1 << 2;
            assert(n == n1 + 4) by (bit_vector)
                requires
                    n1 < 4,
                    n == n1 | (1u32 << 2u32),
            ;
        }
        let ghost n2 = n;
        if self.shift {
            n |= 1 << 3;
            assert(n == n2 + 8) by (bit_vector)
                requires
                    n2 < 8,
                    n == n2 | (1u32 << 3u32),
            ;
        }
        n
    }
}

/// Different modifier sets give different bit masks, so the mask loses no modifier.
pub proof fn lemma_key_event_modifiers_mask_injective(a: KeyEventModifiers, b: KeyEventModifiers)
    requires
        a.spec_to_u32() == b.spec_to_u32(),
    ensures
        a == b,
{
}

/// The bit mask of four flags with the bits 1, 2, 4 and 8: each flag sets its
/// own bit and no other bit is set.
pub proof fn lemma_four_flag_bits(a: bool, b: bool, c: bool, d: bool)
    ensures
        ({
            let m = (flag_bit(a, 1) + flag_bit(b, 2) + flag_bit(c, 4) + flag_bit(d, 8)) as u32;
            &&& (m & 1u32 != 0) == a
            &&& (m & 2u32 != 0) == b
            &&& (m & 4u32 != 0) == c
            &&& (m & 8u32 != 0) == d
            &&& m & !15u32 == 0
        }),
{
    let m = (flag_bit(a, 1) + flag_bit(b, 2) + flag_bit(c, 4) + flag_bit(d, 8)) as u32;
    assert(
        (m & 1u32 != 0) == a && (m & 2u32 != 0) == b && (m & 4u32 != 0) == c && (m & 8u32 != 0)
            == d && m & !15u32 == 0
    ) by (bit_vector)
        requires
            m == ((if a { 1u32 } else { 0u32 }) + (if b { 2u32 } else { 0u32 }) + (if c {
                4u32
            } else {
                0u32
            }) + (if d { 8u32 } else { 0u32 })) as u32,
    ;
}

/// The bit mask of five flags with the bits 1, 2, 4, 8 and 16: each flag sets
/// its own bit and no other bit is set.
pub proof fn lemma_five_flag_bits(a: bool, b: bool, c: bool, d: bool, e: bool)
    ensures
        ({
            let m = (flag_bit(a, 1) + flag_bit(b, 2) + flag_bit(c, 4) + flag_bit(d, 8) + flag_bit(
                e,
                16,
            )) as u32;
            &&& (m & 1u32 != 0) == a
            &&& (m & 2u32 != 0) == b
            &&& (m & 4u32 != 0) == c
            &&& (m & 8u32 != 0) == d
            &&& (m & 16u32 != 0) == e
            &&& m & !31u32 == 0
        }),
{
    let m = (flag_bit(a, 1) + flag_bit(b, 2) + flag_bit(c, 4) + flag_bit(d, 8) + flag_bit(e, 16))
        as u32;
    assert(
        (m & 1u32 != 0) == a && (m & 2u32 != 0) == b && (m & 4u32 != 0) == c && (m & 8u32 != 0)
            == d && (m & 16u32 != 0) == e && m & !31u32 == 0
    ) by (bit_vector)
        requires
            m == ((if a { 1u32 } else { 0u32 }) + (if b { 2u32 } else { 0u32 }) + (if c {
                4u32
            } else {
                0u32
            }) + (if d { 8u32 } else { 0u32 }) + (if e { 16u32 } else { 0u32 })) as u32,
    ;
}

/// Each modifier sets its own bit of the C API mask (`kKeyModifier_*`): ALT
/// the bit `1`, Control `2`, meta `4` and Shift `8`; no other bit is set.
pub proof fn lemma_key_event_modifiers_bits(m: KeyEventModifiers)
    ensures
        (m.spec_to_u32() & 1u32 != 0) == m.alt,
        (m.spec_to_u32() & 2u32 != 0) == m.ctrl,
        (m.spec_to_u32() & 4u32 != 0) == m.meta,
        (m.spec_to_u32() & 8u32 != 0) == m.shift,
        m.spec_to_u32() & !15u32 == 0,
{
    lemma_four_flag_bits(m.alt, m.ctrl, m.meta, m.shift);
}

/// The C API value of each variant (`kKeyEventType_*`): `KeyDown` is 0, `KeyUp` is 1,
/// `RawKeyDown` is 2, `Char` is 3.
pub proof fn lemma_key_event_type_raw_values()
    ensures
        KeyEventType::KeyDown.spec_raw() == 0,
        KeyEventType::KeyUp.spec_raw() == 1,
        KeyEventType::RawKeyDown.spec_raw() == 2,
        KeyEventType::Char.spec_raw() == 3,
{
}

/// The C API value of each variant (`kMouseEventType_*`): `MouseMoved` is 0, `MouseDown` is 1,
/// `MouseUp` is 2.
pub proof fn lemma_mouse_event_type_raw_values()
    ensures
        MouseEventType::MouseMoved.spec_raw() == 0,
        MouseEventType::MouseDown.spec_raw() == 1,
        MouseEventType::MouseUp.spec_raw() == 2,
{
}

/// The C API value of each variant (`kMouseButton_*`): `NoButton` is 0, `Left` is 1, `Middle`
/// is 2, `Right` is 3.
pub proof fn lemma_mouse_button_raw_values()
    ensures
        MouseButton::NoButton.spec_raw() == 0,
        MouseButton::Left.spec_raw() == 1,
        MouseButton::Middle.spec_raw() == 2,
        MouseButton::Right.spec_raw() == 3,
{
}

/// The C API value of each variant (`kScrollEventType_*`): `ScrollByPixel` is 0, `ScrollByPage`
/// is 1.
pub proof fn lemma_scroll_event_type_raw_values()
    ensures
        ScrollEventType::ScrollByPixel.spec_raw() == 0,
        ScrollEventType::ScrollByPage.spec_raw() == 1,
{
}

} // verus!
