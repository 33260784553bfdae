//! Axis configuration and the screen space an axis reserves.

use vstd::prelude::*;
use crate::placement::{Axis, Placement};

verus! {

/// The height of one line of axis text, in screen points. A fixed
/// approximation: it can drift from the true font metrics if the embedding
/// GUI changes the font size, and callers must then recompute thickness.
pub const LINE_HEIGHT: u64 = 12;

/// Axis configuration: the title text, the digit bound for tick labels, and
/// the side of the plot the axis sits on.
///
/// Built fluently: start from [`AxisHints::default_for`] and chain
/// [`AxisHints::label`], [`AxisHints::max_digits`] and
/// [`AxisHints::placement`].
#[derive(Debug, Clone)]
pub struct AxisHints {
    /// The axis title. Empty by default; an empty title reserves less space.
    pub label: String,
    /// The maximum number of digits a tick label should carry. Bounds the
    /// default formatter's precision and drives the vertical axis's width.
    pub digits: usize,
    /// Which side of the plot rectangle the axis sits on.
    pub placement: Placement,
    /// Which of the two axes this configuration speaks of.
    pub axis: Axis,
}

/// The screen space an axis reserves, in points. A horizontal axis is one
/// line high, or three when it carries a title; a vertical axis is one line
/// per expected label digit, plus one line for a title, since its tick
/// labels stack horizontally.
pub open spec fn spec_thickness(h: AxisHints) -> int {
    match h.axis {
        Axis::Horizontal => {
            if h.label@.len() == 0 {
                LINE_HEIGHT as int
            } else {
                3 * LINE_HEIGHT as int
            }
        },
        Axis::Vertical => {
            if h.label@.len() == 0 {
                h.digits as int * LINE_HEIGHT as int
            } else {
                (h.digits as int + 1) * LINE_HEIGHT as int
            }
        },
    }
}

impl AxisHints {
    /// The default configuration for one axis: no title, five digits, placed
    /// on the near-origin side.
    pub fn default_for(axis: Axis) -> (r: Self)
        ensures
            r.label@ == Seq::<char>::empty(),
            r.digits == 5,
            r.placement == Placement::LeftBottom,
            r.axis == axis,
    {
        AxisHints { label: String::new(), digits: 5, placement: Placement::LeftBottom, axis }
    }

    /// Specify the axis title.
    pub fn label(self, label: String) -> (r: Self)
        ensures
            r.label == label,
            r.digits == self.digits,
            r.placement == self.placement,
            r.axis == self.axis,
    {
        AxisHints { label, ..self }
    }

    /// Specify the maximum number of digits for tick labels. The default
    /// formatter rounds to this many decimal places, and the width reserved
    /// for a vertical axis grows with it.
    pub fn max_digits(self, digits: usize) -> (r: Self)
        ensures
            r.label == self.label,
            r.digits == digits,
            r.placement == self.placement,
            r.axis == self.axis,
    {
        AxisHints { digits, ..self }
    }

    /// Specify the side of the plot the axis sits on. For a horizontal axis
    /// convert a `VPlacement`, for a vertical axis an `HPlacement`.
    pub fn placement(self, placement: Placement) -> (r: Self)
        ensures
            r.label == self.label,
            r.digits == self.digits,
            r.placement == placement,
            r.axis == self.axis,
    {
        AxisHints { placement, ..self }
    }

    /// The screen space to reserve for this axis, in points.
    pub fn thickness(&self) -> (r: u64)
        requires
            self.digits as int * LINE_HEIGHT as int + LINE_HEIGHT as int <= u64::MAX as int,
        ensures
            r as int == spec_thickness(*self),
    {
        match self.axis {
            Axis::Horizontal => {
                if self.label.as_str().is_empty() {
                    LINE_HEIGHT
                } else {
                    3 * LINE_HEIGHT
                }
            },
            Axis::Vertical => {
                let d = self.digits as u64;
                if self.label.as_str().is_empty() {
                    d * LINE_HEIGHT
                } else {
                    (d + 1) * LINE_HEIGHT
                }
            },
        }
    }
}

} // verus!
