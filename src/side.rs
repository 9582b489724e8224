use vstd::prelude::*;

verus! {

/// The edge of the window that a panel is docked to.
#[derive(Clone, Copy, Debug, PartialEq, Eq, Hash, Structural)]
pub enum PanelSide {
    Left,
    Right,
    Top,
    Bottom,
}

impl PanelSide {
    /// Left and right panels grow along the horizontal axis and stack their
    /// strip buttons vertically.
    pub open spec fn is_vertical_spec(self) -> bool {
        self == PanelSide::Left || self == PanelSide::Right
    }

    pub fn is_vertical(self) -> (r: bool)
        ensures
            r == self.is_vertical_spec(),
    {
        match self {
            PanelSide::Left | PanelSide::Right => true,
            PanelSide::Top | PanelSide::Bottom => false,
        }
    }
}

} // verus!
