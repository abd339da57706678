//! Options of a window that displays web content in an application.
use vstd::prelude::*;

verus! {

/// Window creation flags
#[derive(Debug, Clone, Copy, PartialEq, Eq)]
pub struct WindowFlags {
    /// Whether the window has borders or not
    pub borderless: bool,
    /// Whether the window has title or not
    pub titled: bool,
    /// Whether the window is resizable or not
    pub resizable: bool,
    /// Whether the window is maximizable or not
    pub maximizable: bool,
    /// The initial hide/show state of the window
    pub hidden: bool,
}

/// The value of `kWindowFlags_Borderless` in the C API.
pub const WINDOW_FLAG_BORDERLESS: u32 = 1;

/// The value of `kWindowFlags_Titled` in the C API.
pub const WINDOW_FLAG_TITLED: u32 = 2;

/// The value of `kWindowFlags_Resizable` in the C API.
pub const WINDOW_FLAG_RESIZABLE: u32 = 4;

/// The value of `kWindowFlags_Maximizable` in the C API.
pub const WINDOW_FLAG_MAXIMIZABLE: u32 = 8;

/// The value of `kWindowFlags_Hidden` in the C API.
pub const WINDOW_FLAG_HIDDEN: u32 = 16;

impl WindowFlags {
    /// The flag bit mask of the C API: the sum of the bits of the flags that are set.
    pub open spec fn spec_to_u32(&self) -> u32 {
        (crate::event::flag_bit(self.borderless, WINDOW_FLAG_BORDERLESS) + crate::event::flag_bit(self.titled, WINDOW_FLAG_TITLED) + crate::event::flag_bit(self.resizable, WINDOW_FLAG_RESIZABLE) + crate::event::flag_bit(self.maximizable, WINDOW_FLAG_MAXIMIZABLE) + crate::event::flag_bit(self.hidden, WINDOW_FLAG_HIDDEN)) as u32
    }

    /// The flag bit mask of the C API.
    pub fn to_u32(&self) -> (r: u32)
        ensures
            r == self.spec_to_u32(),
    {
        let mut n: u32 = 0;
        let ghost n0 = n;
        if self.borderless {
            n |= WINDOW_FLAG_BORDERLESS;
            assert(n == n0 + 1u32) by (bit_vector)
                requires
                    n0 < 1u32,
                    n == n0 | 1u32,
            ;
        }
        let ghost n1 = n;
        if self.titled {
            n |= WINDOW_FLAG_TITLED;
            assert(n == n1 + 2u32) by (bit_vector)
                requires
                    n1 < 2u32,
                    n == n1 | 2u32,
            ;
        }
        let ghost n2 = n;
        if self.resizable {
            n |= WINDOW_FLAG_RESIZABLE;
            assert(n == n2 + 4u32) by (bit_vector)
                requires
                    n2 < 4u32,
                    n == n2 | 4u32,
            ;
        }
        let ghost n3 = n;
        if self.maximizable {
            n |= WINDOW_FLAG_MAXIMIZABLE;
            assert(n == n3 + 8u32) by (bit_vector)
                requires
                    n3 < 8u32,
                    n == n3 | 8u32,
            ;
        }
        let ghost n4 = n;
        if self.hidden {
            n |= WINDOW_FLAG_HIDDEN;
            assert(n == n4 + 16u32) by (bit_vector)
                requires
                    n4 < 16u32,
                    n == n4 | 16u32,
            ;
        }
        n
    }
}

/// Different flag sets give different bit masks, so the mask loses no flag.
pub proof fn lemma_window_flags_mask_injective(a: WindowFlags, b: WindowFlags)
    requires
        a.spec_to_u32() == b.spec_to_u32(),
    ensures
        a == b,
{
}

/// Each flag sets its own bit of the C API mask (`kWindowFlags_*`):
/// borderless the bit `1`, titled `2`, resizable `4`, maximizable `8` and
/// hidden `16`; no other bit is set.
pub proof fn lemma_window_flags_bits(w: WindowFlags)
    ensures
        (w.spec_to_u32() & 1u32 != 0) == w.borderless,
        (w.spec_to_u32() & 2u32 != 0) == w.titled,
        (w.spec_to_u32() & 4u32 != 0) == w.resizable,
        (w.spec_to_u32() & 8u32 != 0) == w.maximizable,
        (w.spec_to_u32() & 16u32 != 0) == w.hidden,
        w.spec_to_u32() & !31u32 == 0,
{
    crate::event::lemma_five_flag_bits(w.borderless, w.titled, w.resizable, w.maximizable, w.hidden);
}

} // verus!
