use vstd::prelude::*;

verus! {

/// An RGB triple as the firmware understands it: one full byte per channel.
/// Every combination of the three bytes is valid; there is no normalization.
#[derive(Clone, Copy, Debug, PartialEq, Eq, Structural)]
pub struct RGBColor {
    pub red: u8,
    pub green: u8,
    pub blue: u8,
}

impl RGBColor {
    pub fn new(red: u8, green: u8, blue: u8) -> (c: RGBColor)
        ensures
            c == (RGBColor { red, green, blue }),
    {
        RGBColor { red, green, blue }
    }

    /// The default color a fresh connection reports before any write
    /// has been confirmed.
    pub fn black() -> (c: RGBColor)
        ensures
            c == (RGBColor { red: 0, green: 0, blue: 0 }),
    {
        RGBColor { red: 0, green: 0, blue: 0 }
    }
}

} // verus!
