//! Per-frame layout decisions of the axis widget.
//!
//! The embedding GUI code measures the frame (is the axis rectangle visible,
//! what text does the formatter give each tick, how many screen points lie
//! between adjacent ticks) and asks for a [`RenderPlan`]: where the title
//! goes, where tick labels anchor on the rectangle, and which tick labels
//! are drawn at what contrast. All screen-space arithmetic on the plan's
//! offsets is left to the caller; the offsets themselves are exact rational
//! multiples of the laid-out text's size, expressed in quarters.

use vstd::prelude::*;
use crate::hints::AxisHints;
use crate::placement::{Axis, Placement};

verus! {

/// The point of the axis rectangle a title position is measured from.
#[derive(Debug, Clone, Copy, PartialEq, Eq, Structural)]
pub enum TitleAnchor {
    /// The midpoint of the rectangle's bottom edge.
    CenterBottom,
    /// The midpoint of the rectangle's top edge.
    CenterTop,
    /// The midpoint of the rectangle's left edge.
    LeftCenter,
    /// The midpoint of the rectangle's right edge.
    RightCenter,
}

/// Where and how the axis title is drawn: the anchor point on the axis
/// rectangle, an offset from it, and whether the title is rotated a quarter
/// turn counter-clockwise (vertical axes only).
///
/// The offset is measured in quarters of the laid-out title's width `w` and
/// height `h`: the title's top-left corner sits at
/// `anchor + (dx_quarter_widths * w + dx_quarter_heights * h) / 4` along x,
/// and likewise for y.
#[derive(Debug, Clone, Copy, PartialEq, Eq, Structural)]
pub struct TitleLayout {
    pub anchor: TitleAnchor,
    pub dx_quarter_widths: i8,
    pub dx_quarter_heights: i8,
    pub dy_quarter_widths: i8,
    pub dy_quarter_heights: i8,
    pub rotated: bool,
}

/// The title geometry for each axis and placement: a horizontal axis centres
/// its title on the bottom or top edge, lifted by five quarters of the title
/// height above the bottom edge or dropped one quarter below the top edge; a
/// vertical axis rotates its title a quarter turn and hangs it half a title
/// width below the left or right edge midpoint, shifted left by six quarters
/// of the title height on the right side.
pub open spec fn spec_title_layout(axis: Axis, placement: Placement) -> TitleLayout {
    match axis {
        Axis::Horizontal => match placement {
            Placement::LeftBottom => TitleLayout {
                anchor: TitleAnchor::CenterBottom,
                dx_quarter_widths: -2i8,
                dx_quarter_heights: 0i8,
                dy_quarter_widths: 0i8,
                dy_quarter_heights: -5i8,
                rotated: false,
            },
            Placement::RightTop => TitleLayout {
                anchor: TitleAnchor::CenterTop,
                dx_quarter_widths: -2i8,
                dx_quarter_heights: 0i8,
                dy_quarter_widths: 0i8,
                dy_quarter_heights: 1i8,
                rotated: false,
            },
        },
        Axis::Vertical => match placement {
            Placement::LeftBottom => TitleLayout {
                anchor: TitleAnchor::LeftCenter,
                dx_quarter_widths: 0i8,
                dx_quarter_heights: 0i8,
                dy_quarter_widths: 2i8,
                dy_quarter_heights: 0i8,
                rotated: true,
            },
            Placement::RightTop => TitleLayout {
                anchor: TitleAnchor::RightCenter,
                dx_quarter_widths: 0i8,
                dx_quarter_heights: -6i8,
                dy_quarter_widths: 2i8,
                dy_quarter_heights: 0i8,
                rotated: true,
            },
        },
    }
}

/// Computes the title geometry for one axis and placement.
pub fn title_layout(axis: Axis, placement: Placement) -> (r: TitleLayout)
    ensures
        r == spec_title_layout(axis, placement),
{
    match axis {
        Axis::Horizontal => match placement {
            Placement::LeftBottom => TitleLayout {
                anchor: TitleAnchor::CenterBottom,
                dx_quarter_widths: -2,
                dx_quarter_heights: 0,
                dy_quarter_widths: 0,
                dy_quarter_heights: -5,
                rotated: false,
            },
            Placement::RightTop => TitleLayout {
                anchor: TitleAnchor::CenterTop,
                dx_quarter_widths: -2,
                dx_quarter_heights: 0,
                dy_quarter_widths: 0,
                dy_quarter_heights: 1,
                rotated: false,
            },
        },
        Axis::Vertical => match placement {
            Placement::LeftBottom => TitleLayout {
                anchor: TitleAnchor::LeftCenter,
                dx_quarter_widths: 0,
                dx_quarter_heights: 0,
                dy_quarter_widths: 2,
                dy_quarter_heights: 0,
                rotated: true,
            },
            Placement::RightTop => TitleLayout {
                anchor: TitleAnchor::RightCenter,
                dx_quarter_widths: 0,
                dx_quarter_heights: -6,
                dy_quarter_widths: 2,
                dy_quarter_heights: 0,
                rotated: true,
            },
        },
    }
}

/// The edge of the axis rectangle a tick label is anchored to. Along the
/// other dimension the label is centred on the tick's projected screen
/// position.
#[derive(Debug, Clone, Copy, PartialEq, Eq, Structural)]
pub enum TickLabelAnchor {
    /// The label's top sits on the rectangle's top edge (horizontal axis,
    /// near-origin side).
    TopEdge,
    /// The label's bottom sits on the rectangle's bottom edge, so its top is
    /// one label height above it (horizontal axis, far side).
    BottomEdgeInside,
    /// The label's right end sits on the rectangle's right edge, so its left
    /// end is one label width before it (vertical axis, near-origin side).
    RightEdgeInside,
    /// The label's left end sits on the rectangle's left edge (vertical
    /// axis, far side).
    LeftEdge,
}

/// The tick-label edge for each axis and placement.
pub open spec fn spec_tick_label_anchor(axis: Axis, placement: Placement) -> TickLabelAnchor {
    match axis {
        Axis::Horizontal => match placement {
            Placement::LeftBottom => TickLabelAnchor::TopEdge,
            Placement::RightTop => TickLabelAnchor::BottomEdgeInside,
        },
        Axis::Vertical => match placement {
            Placement::LeftBottom => TickLabelAnchor::RightEdgeInside,
            Placement::RightTop => TickLabelAnchor::LeftEdge,
        },
    }
}

/// Computes the tick-label edge for one axis and placement.
pub fn tick_label_anchor(axis: Axis, placement: Placement) -> (r: TickLabelAnchor)
    ensures
        r == spec_tick_label_anchor(axis, placement),
{
    match axis {
        Axis::Horizontal => match placement {
            Placement::LeftBottom => TickLabelAnchor::TopEdge,
            Placement::RightTop => TickLabelAnchor::BottomEdgeInside,
        },
        Axis::Vertical => match placement {
            Placement::LeftBottom => TickLabelAnchor::RightEdgeInside,
            Placement::RightTop => TickLabelAnchor::LeftEdge,
        },
    }
}

/// Below or at this on-screen spacing between adjacent ticks, in hundredths
/// of a point, a tick label is skipped as too cramped to read.
pub const MIN_TEXT_SPACING_CENTIPOINTS: u64 = 2000;

/// At or above this spacing, in hundredths of a point, tick labels are drawn
/// at full contrast.
pub const FULL_CONTRAST_SPACING_CENTIPOINTS: u64 = 4000;

/// The denominator of a drawn label's contrast strength: a label drawn at
/// strength `n` has contrast `n / STRENGTH_DENOMINATOR` of full.
pub const STRENGTH_DENOMINATOR: u64 = 2000;

/// The contrast-strength numerator for a spacing above the skip threshold:
/// the spacing remapped linearly from the cramped-to-clear band onto
/// `0..=STRENGTH_DENOMINATOR`, clamped at full contrast.
pub open spec fn spec_strength_num(spacing: u64) -> u64
    recommends
        spacing > MIN_TEXT_SPACING_CENTIPOINTS,
{
    if spacing >= FULL_CONTRAST_SPACING_CENTIPOINTS {
        STRENGTH_DENOMINATOR
    } else {
        (spacing - MIN_TEXT_SPACING_CENTIPOINTS) as u64
    }
}

/// Decides whether a tick label at the given on-screen spacing (in
/// hundredths of a point) is drawn at all, and at what contrast. A spacing
/// at or below the skip threshold yields `None`; anything above is drawn,
/// with a strength that rises linearly to full contrast at twice the
/// threshold.
pub fn tick_strength(spacing: u64) -> (r: Option<u64>)
    ensures
        (r is None) <==> spacing <= MIN_TEXT_SPACING_CENTIPOINTS,
        spacing > MIN_TEXT_SPACING_CENTIPOINTS ==> r == Some(spec_strength_num(spacing)),
        r is Some ==> 1 <= r->0 <= STRENGTH_DENOMINATOR,
        spacing >= FULL_CONTRAST_SPACING_CENTIPOINTS ==> r == Some(STRENGTH_DENOMINATOR),
{
    if spacing <= MIN_TEXT_SPACING_CENTIPOINTS {
        None
    } else if spacing >= FULL_CONTRAST_SPACING_CENTIPOINTS {
        Some(STRENGTH_DENOMINATOR)
    } else {
        Some(spacing - MIN_TEXT_SPACING_CENTIPOINTS)
    }
}

/// One tick as the frame measures it: the label text the formatter produced
/// for it, and the on-screen spacing of its tick tier in hundredths of a
/// point.
#[derive(Debug, Clone)]
pub struct TickInput {
    /// The formatted label. An empty string suppresses this tick's label.
    pub text: String,
    /// Screen points between adjacent ticks of this tick's tier, times one
    /// hundred.
    pub spacing_centipoints: u64,
}

/// One tick label the frame should draw: which input tick it belongs to and
/// the contrast-strength numerator to draw it with.
#[derive(Debug, Clone, Copy, PartialEq, Eq, Structural)]
pub struct TickLabelPlan {
    /// The index of the tick in the input list.
    pub index: usize,
    /// The contrast strength, over [`STRENGTH_DENOMINATOR`].
    pub strength_num: u64,
}

/// Whether a measured tick's label is drawn: it has text, and its tier is
/// not too cramped.
pub open spec fn spec_tick_kept(t: TickInput) -> bool {
    t.text@.len() > 0 && t.spacing_centipoints > MIN_TEXT_SPACING_CENTIPOINTS
}

/// The tick labels drawn for a measured tick list, in input order: exactly
/// the kept ticks, each with its contrast strength.
pub open spec fn spec_label_plans(ts: Seq<TickInput>) -> Seq<TickLabelPlan>
    decreases ts.len(),
{
    if ts.len() == 0 {
        Seq::<TickLabelPlan>::empty()
    } else {
        spec_label_plans(ts.drop_last()) + (if spec_tick_kept(ts.last()) {
            seq![
                TickLabelPlan {
                    index: (ts.len() - 1) as usize,
                    strength_num: spec_strength_num(ts.last().spacing_centipoints),
                },
            ]
        } else {
            Seq::<TickLabelPlan>::empty()
        })
    }
}

/// Everything the axis widget draws in one frame: the title's geometry when
/// the axis rectangle is visible at all, the edge tick labels anchor to, and
/// the tick labels to draw. Without a value-to-screen transform no tick can
/// be positioned, so the tick list is absent and no labels are planned.
#[derive(Debug, Clone)]
pub struct RenderPlan {
    /// The title geometry; absent when the axis rectangle is not visible.
    pub title: Option<TitleLayout>,
    /// The edge of the axis rectangle tick labels anchor to.
    pub tick_anchor: TickLabelAnchor,
    /// The tick labels to draw, in input order.
    pub labels: Vec<TickLabelPlan>,
}

/// Plans one frame of the axis widget. `visible` says whether the axis
/// rectangle survives clipping; `ticks` carries the measured tick list, or
/// nothing when no value-to-screen transform exists this frame. An invisible
/// rectangle draws nothing; a visible one always draws the title, and draws
/// exactly the kept tick labels when ticks could be measured.
pub fn render_plan(hints: &AxisHints, visible: bool, ticks: Option<&Vec<TickInput>>) -> (r:
    RenderPlan)
    ensures
        r.tick_anchor == spec_tick_label_anchor(hints.axis, hints.placement),
        visible ==> r.title == Some(spec_title_layout(hints.axis, hints.placement)),
        !visible ==> r.title is None && r.labels@ == Seq::<TickLabelPlan>::empty(),
        visible && ticks is None ==> r.labels@ == Seq::<TickLabelPlan>::empty(),
        visible ==> (ticks matches Some(ts) ==> r.labels@ == spec_label_plans(ts@)),
{
    let anchor = tick_label_anchor(hints.axis, hints.placement);
    if !visible {
        let labels: Vec<TickLabelPlan> = Vec::new();
        proof {
            assert(labels@ =~= Seq::<TickLabelPlan>::empty());
        }
        return RenderPlan { title: None, tick_anchor: anchor, labels };
    }
    let title = title_layout(hints.axis, hints.placement);
    let mut labels: Vec<TickLabelPlan> = Vec::new();
    match ticks {
        None => {
            proof {
                assert(labels@ =~= Seq::<TickLabelPlan>::empty());
            }
        },
        Some(ts) => {
            let mut i: usize = 0;
            proof {
                assert(ts@.take(0) =~= Seq::<TickInput>::empty());
            }
            while i < ts.len()
                invariant
                    i <= ts@.len(),
                    labels@ == spec_label_plans(ts@.take(i as int)),
                decreases ts@.len() - i,
            {
                let t = &ts[i];
                if !t.text.as_str().is_empty() {
                    match tick_strength(t.spacing_centipoints) {
                        Some(n) => {
                            labels.push(TickLabelPlan { index: i, strength_num: n });
                        },
                        None => {},
                    }
                }
                proof {
                    assert(ts@.take(i + 1).drop_last() =~= ts@.take(i as int));
                    assert(ts@.take(i + 1).last() == ts@[i as int]);
                    assert(labels@ =~= spec_label_plans(ts@.take(i + 1)));
                }
                i += 1;
            }
            proof {
                assert(ts@.take(ts@.len() as int) =~= ts@);
            }
        },
    }
    RenderPlan { title: Some(title), tick_anchor: anchor, labels }
}

} // verus!
