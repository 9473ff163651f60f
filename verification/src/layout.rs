//! What an overlay says and how much room it asks for.

use vstd::prelude::*;

verus! {

/// The room an overlay asks for: a share of the screen in percent, and a
/// least size in cells.
#[derive(Clone, Copy, Debug, PartialEq, Eq, Structural)]
pub struct Dimensions {
    pub percent_x: u16,
    pub percent_y: u16,
    pub min_x: u16,
    pub min_y: u16,
}

/// An overlay: its size, its title and its text.
#[derive(Clone, Copy, Debug)]
pub struct Popup {
    pub dimensions: Dimensions,
    pub title: &'static str,
    pub text: &'static str,
}

impl Dimensions {
    /// The size every overlay of the session uses.
    pub open spec fn standard() -> Dimensions {
        Dimensions { percent_x: 20, percent_y: 15, min_x: 35, min_y: 5 }
    }

    /// The share of the height, in percent, left free above and below.
    pub fn vertical_padding(&self) -> (p: u16)
        requires
            self.percent_y <= 100,
        ensures
            p == (100 - self.percent_y) / 2,
    {
        (100 - self.percent_y) / 2
    }

    /// The share of the width, in percent, left free on either side.
    pub fn horizontal_padding(&self) -> (p: u16)
        requires
            self.percent_x <= 100,
        ensures
            p == (100 - self.percent_x) / 2,
    {
        (100 - self.percent_x) / 2
    }
}

} // verus!
