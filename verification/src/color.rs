use vstd::prelude::*;

verus! {

/// An RGB color packed as `0xRRGGBB`.
#[derive(Debug, Clone, Copy, PartialEq, Eq, Structural)]
pub struct Color {
    value: u32,
}

impl Color {
    /// The packed color value.
    pub closed spec fn spec_value(self) -> u32 {
        self.value
    }

    /// Wrap a packed `0xRRGGBB` value.
    pub fn hex(hex: u32) -> (color: Color)
        ensures
            color.spec_value() == hex,
    {
        Color { value: hex }
    }

    pub fn value(&self) -> (packed: u32)
        ensures
            packed == self.spec_value(),
    {
        self.value
    }

    /// Pure white.
    pub fn white() -> (color: Color)
        ensures
            color.spec_value() == 0xffffff,
    {
        Color { value: 0xffffff }
    }
}

} // verus!
