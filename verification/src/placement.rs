//! Axis orientation and the sides of the plot rectangle an axis can sit on.

use vstd::prelude::*;

verus! {

/// Which of the two axes of the plot a configuration speaks of.
///
/// The horizontal axis runs along the bottom or top edge of the plot;
/// the vertical axis runs along the left or right edge.
#[derive(Debug, Clone, Copy, PartialEq, Eq, Structural)]
pub enum Axis {
    Horizontal,
    Vertical,
}

/// Placement of the horizontal axis.
#[derive(Debug, Clone, Copy, PartialEq, Eq, Structural)]
pub enum VPlacement {
    Top,
    Bottom,
}

/// Placement of the vertical axis.
#[derive(Debug, Clone, Copy, PartialEq, Eq, Structural)]
pub enum HPlacement {
    Left,
    Right,
}

/// Placement of an axis.
#[derive(Debug, Clone, Copy, PartialEq, Eq, Structural)]
pub enum Placement {
    /// Bottom for the horizontal axis, left for the vertical axis:
    /// the side nearest the origin.
    LeftBottom,
    /// Top for the horizontal axis, right for the vertical axis:
    /// the far side.
    RightTop,
}

/// The placement a vertical-axis side maps to.
pub open spec fn placement_of_h(p: HPlacement) -> Placement {
    match p {
        HPlacement::Left => Placement::LeftBottom,
        HPlacement::Right => Placement::RightTop,
    }
}

/// The placement a horizontal-axis side maps to.
pub open spec fn placement_of_v(p: VPlacement) -> Placement {
    match p {
        VPlacement::Top => Placement::RightTop,
        VPlacement::Bottom => Placement::LeftBottom,
    }
}

impl From<HPlacement> for Placement {
    fn from(placement: HPlacement) -> (r: Self) {
        match placement {
            HPlacement::Left => Placement::LeftBottom,
            HPlacement::Right => Placement::RightTop,
        }
    }
}

impl vstd::std_specs::convert::FromSpecImpl<HPlacement> for Placement {
    open spec fn obeys_from_spec() -> bool {
        true
    }

    open spec fn from_spec(t: HPlacement) -> Self {
        placement_of_h(t)
    }
}

impl From<VPlacement> for Placement {
    fn from(placement: VPlacement) -> (r: Self) {
        match placement {
            VPlacement::Top => Placement::RightTop,
            VPlacement::Bottom => Placement::LeftBottom,
        }
    }
}

impl vstd::std_specs::convert::FromSpecImpl<VPlacement> for Placement {
    open spec fn obeys_from_spec() -> bool {
        true
    }

    open spec fn from_spec(t: VPlacement) -> Self {
        placement_of_v(t)
    }
}

/// The two side-to-placement maps together cover every side of the plot
/// rectangle: left and bottom are the near-origin sides, right and top the
/// far sides, and no two sides of one axis share a placement.
pub proof fn lemma_placement_mapping()
    ensures
        placement_of_h(HPlacement::Left) == Placement::LeftBottom,
        placement_of_h(HPlacement::Right) == Placement::RightTop,
        placement_of_v(VPlacement::Top) == Placement::RightTop,
        placement_of_v(VPlacement::Bottom) == Placement::LeftBottom,
        forall|a: HPlacement, b: HPlacement|
            placement_of_h(a) == placement_of_h(b) ==> a == b,
        forall|a: VPlacement, b: VPlacement|
            placement_of_v(a) == placement_of_v(b) ==> a == b,
{
}

} // verus!
