//! Style tags offered to the presentation layer: which palette the table is
//! drawn with, and which visual variant a button or a container takes. The
//! color values behind each tag are presentation data and live with the
//! renderer, outside the engine.

use vstd::prelude::*;

verus! {

/// The two table palettes a renderer may draw with.
#[derive(Clone, Copy, PartialEq, Eq, Structural, Debug)]
pub enum TwentyOneTheme {
    Green,
    Burgundy,
}

impl Default for TwentyOneTheme {
    /// The table is drawn burgundy unless another palette is chosen.
    fn default() -> (t: Self)
        ensures
            t == TwentyOneTheme::Burgundy,
    {
        TwentyOneTheme::Burgundy
    }
}

/// The visual variant of a button.
#[derive(Clone, Copy, PartialEq, Eq, Structural, Debug)]
pub enum ButtonStyle {
    Table,
    Menu,
}

impl Default for ButtonStyle {
    /// Buttons sit on the table unless placed in a menu.
    fn default() -> (s: Self)
        ensures
            s == ButtonStyle::Table,
    {
        ButtonStyle::Table
    }
}

/// The visual variant of a container.
#[derive(Clone, Copy, PartialEq, Eq, Structural, Debug)]
pub enum ContainerStyle {
    Table,
    Menu,
}

impl Default for ContainerStyle {
    /// Containers sit on the table unless placed in a menu.
    fn default() -> (s: Self)
        ensures
            s == ContainerStyle::Table,
    {
        ContainerStyle::Table
    }
}

} // verus!
