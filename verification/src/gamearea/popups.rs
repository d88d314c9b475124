//! The popup that announces a find, and where it is placed next to the
//! player's cell.
use vstd::prelude::*;

verus! {

/// A popup announcing what the player found.
pub struct PopUp;

/// Where the popup stands vertically relative to the player's cell.
#[derive(Clone, Copy, Debug, PartialEq, Eq, Structural)]
pub enum Vertical {
    /// Its bottom edge at the top of the player's cell.
    Above,
    /// Its top edge at the bottom of the player's cell.
    Below,
}

/// Where the popup stands horizontally relative to the player's cell.
#[derive(Clone, Copy, Debug, PartialEq, Eq, Structural)]
pub enum Horizontal {
    /// Its right edge at the left of the player's cell.
    LeftOf,
    /// Its left edge at the right of the player's cell.
    RightOf,
}

/// The side of the player's cell on which a popup is shown.
#[derive(Clone, Copy, Debug, PartialEq, Eq, Structural)]
pub struct Placement {
    pub vertical: Vertical,
    pub horizontal: Horizontal,
}

impl PopUp {
    /// The message shown in a popup for a found symbol.
    pub fn gen_popups(_thing: String) -> (message: String)
        ensures
            message@ == "Temp Holder Value"@,
    {
        String::from_str("Temp Holder Value")
    }

    /// Where to show a popup: above the player's cell when it fits between
    /// the cell and the top of the play area, else below; left of the cell
    /// when it fits between the cell and the play area's left edge, else
    /// right.
    pub fn placement(fits_left: bool, fits_above: bool) -> (p: Placement)
        ensures
            p.vertical == (if fits_above { Vertical::Above } else { Vertical::Below }),
            p.horizontal == (if fits_left { Horizontal::LeftOf } else { Horizontal::RightOf }),
    {
        if fits_left && fits_above {
            Placement { vertical: Vertical::Above, horizontal: Horizontal::LeftOf }
        } else if fits_left && !fits_above {
            Placement { vertical: Vertical::Below, horizontal: Horizontal::LeftOf }
        } else if !fits_left && fits_above {
            Placement { vertical: Vertical::Above, horizontal: Horizontal::RightOf }
        } else {
            Placement { vertical: Vertical::Below, horizontal: Horizontal::RightOf }
        }
    }
}

} // verus!
