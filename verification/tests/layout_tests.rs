use plot_axis::hints::AxisHints;
use plot_axis::layout::{
    render_plan, tick_label_anchor, tick_strength, title_layout, TickInput, TickLabelAnchor,
    TitleAnchor,
};
use plot_axis::placement::{Axis, HPlacement, Placement, VPlacement};

#[test]
fn placement_mapping_is_fixed() {
    assert_eq!(Placement::from(HPlacement::Left), Placement::LeftBottom);
    assert_eq!(Placement::from(HPlacement::Right), Placement::RightTop);
    assert_eq!(Placement::from(VPlacement::Top), Placement::RightTop);
    assert_eq!(Placement::from(VPlacement::Bottom), Placement::LeftBottom);
}

#[test]
fn thickness_horizontal() {
    let bare = AxisHints::default_for(Axis::Horizontal);
    assert_eq!(bare.thickness(), 12);
    let titled = AxisHints::default_for(Axis::Horizontal).label("time".to_string());
    assert_eq!(titled.thickness(), 36);
}

#[test]
fn thickness_vertical_scales_with_digits() {
    let bare = AxisHints::default_for(Axis::Vertical);
    assert_eq!(bare.thickness(), 60);
    let titled = AxisHints::default_for(Axis::Vertical)
        .label("value".to_string())
        .max_digits(5);
    assert_eq!(titled.thickness(), 72);
}

#[test]
fn builder_chain_sets_every_field() {
    let h = AxisHints::default_for(Axis::Vertical)
        .label("y".to_string())
        .max_digits(3)
        .placement(Placement::from(HPlacement::Right));
    assert_eq!(h.label, "y");
    assert_eq!(h.digits, 3);
    assert_eq!(h.placement, Placement::RightTop);
    assert_eq!(h.axis, Axis::Vertical);
}

#[test]
fn tick_strength_boundaries() {
    // spacing of exactly 20 points is skipped
    assert_eq!(tick_strength(2000), None);
    assert_eq!(tick_strength(0), None);
    // 20.01 points is drawn at near-zero contrast
    assert_eq!(tick_strength(2001), Some(1));
    // halfway through the band
    assert_eq!(tick_strength(3000), Some(1000));
    // 40 points and beyond is full contrast
    assert_eq!(tick_strength(4000), Some(2000));
    assert_eq!(tick_strength(10_000), Some(2000));
}

#[test]
fn title_layout_table() {
    let h_lb = title_layout(Axis::Horizontal, Placement::LeftBottom);
    assert_eq!(h_lb.anchor, TitleAnchor::CenterBottom);
    assert_eq!(h_lb.dx_quarter_widths, -2);
    assert_eq!(h_lb.dy_quarter_heights, -5);
    assert!(!h_lb.rotated);

    let h_rt = title_layout(Axis::Horizontal, Placement::RightTop);
    assert_eq!(h_rt.anchor, TitleAnchor::CenterTop);
    assert_eq!(h_rt.dy_quarter_heights, 1);
    assert!(!h_rt.rotated);

    let v_lb = title_layout(Axis::Vertical, Placement::LeftBottom);
    assert_eq!(v_lb.anchor, TitleAnchor::LeftCenter);
    assert_eq!(v_lb.dy_quarter_widths, 2);
    assert_eq!(v_lb.dx_quarter_heights, 0);
    assert!(v_lb.rotated);

    let v_rt = title_layout(Axis::Vertical, Placement::RightTop);
    assert_eq!(v_rt.anchor, TitleAnchor::RightCenter);
    assert_eq!(v_rt.dx_quarter_heights, -6);
    assert_eq!(v_rt.dy_quarter_widths, 2);
    assert!(v_rt.rotated);
}

#[test]
fn tick_label_anchor_table() {
    assert_eq!(
        tick_label_anchor(Axis::Horizontal, Placement::LeftBottom),
        TickLabelAnchor::TopEdge
    );
    assert_eq!(
        tick_label_anchor(Axis::Horizontal, Placement::RightTop),
        TickLabelAnchor::BottomEdgeInside
    );
    assert_eq!(
        tick_label_anchor(Axis::Vertical, Placement::LeftBottom),
        TickLabelAnchor::RightEdgeInside
    );
    assert_eq!(
        tick_label_anchor(Axis::Vertical, Placement::RightTop),
        TickLabelAnchor::LeftEdge
    );
}

#[test]
fn invisible_rect_draws_nothing() {
    let hints = AxisHints::default_for(Axis::Horizontal);
    let ticks = vec![TickInput { text: "1".to_string(), spacing_centipoints: 5000 }];
    let plan = render_plan(&hints, false, Some(&ticks));
    assert!(plan.title.is_none());
    assert!(plan.labels.is_empty());
}

#[test]
fn no_transform_draws_title_but_no_tick_labels() {
    let hints = AxisHints::default_for(Axis::Horizontal);
    let plan = render_plan(&hints, true, None);
    assert!(plan.title.is_some());
    assert_eq!(plan.labels.len(), 0);
}

#[test]
fn plan_keeps_spaced_labelled_ticks_only() {
    let hints = AxisHints::default_for(Axis::Vertical);
    let ticks = vec![
        TickInput { text: "0".to_string(), spacing_centipoints: 5000 },
        TickInput { text: String::new(), spacing_centipoints: 5000 },
        TickInput { text: "2".to_string(), spacing_centipoints: 2000 },
        TickInput { text: "3".to_string(), spacing_centipoints: 2600 },
    ];
    let plan = render_plan(&hints, true, Some(&ticks));
    assert_eq!(plan.labels.len(), 2);
    assert_eq!(plan.labels[0].index, 0);
    assert_eq!(plan.labels[0].strength_num, 2000);
    assert_eq!(plan.labels[1].index, 3);
    assert_eq!(plan.labels[1].strength_num, 600);
    assert_eq!(plan.tick_anchor, TickLabelAnchor::RightEdgeInside);
}
