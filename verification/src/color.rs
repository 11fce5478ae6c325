//! Intensity-to-colour mapping for spectrogram display.
//!
//! The renderer scales a normalised magnitude to an 8-bit component
//! (applying its gamma-like exponent on the way); this module turns that
//! component into the red-dominant colour triple used for the intensity
//! map, and supplies the defined fallback colour for the degenerate case
//! in which every magnitude is equal (maximum equals minimum), where no
//! normalisation is possible.

use vstd::prelude::*;

verus! {

/// An 8-bit-per-channel colour.
#[derive(Clone, Copy, Debug, PartialEq, Eq, Structural)]
pub struct Rgb {
    pub red: u8,
    pub green: u8,
    pub blue: u8,
}

/// The colour triple for one display intensity: the component itself on
/// the red channel, and the component reduced by a fifth on the green and
/// blue channels.
pub fn color_from_component(component: u8) -> (col: Rgb)
    ensures
        col.red == component,
        col.green == component - component / 5,
        col.blue == component - component / 5,
{
    Rgb { red: component, green: component - component / 5, blue: component - component / 5 }
}

/// The defined constant colour for a constant-magnitude dataset: zero
/// intensity on every channel, never an undefined normalisation.
pub fn degenerate_color() -> (col: Rgb)
    ensures
        col == (Rgb { red: 0u8, green: 0u8, blue: 0u8 }),
        col == color_from_component_spec(0),
{
    Rgb { red: 0, green: 0, blue: 0 }
}

/// What `color_from_component` returns, as a mathematical function.
pub open spec fn color_from_component_spec(component: u8) -> Rgb {
    Rgb {
        red: component,
        green: (component - component / 5) as u8,
        blue: (component - component / 5) as u8,
    }
}

} // verus!
