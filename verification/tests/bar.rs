use chart_resolver::bar::{get_bar_label_position, BarLabelPosition};
use chart_resolver::wire::{ChartView, ChartViewBarLabelPosition};

fn chart_view_empty() -> ChartView {
    ChartView {
        kind: 0,
        colors: None,
        bar_label_visible: Some(false),
        bar_label_position: ChartViewBarLabelPosition::UnspecifiedBarLabelPosition.as_i32(),
        point_visible: Some(false),
        point_type: 0,
        point_label_visible: Some(false),
        point_label_position: 0,
        values: None,
    }
}

#[test]
fn get_bar_label_position_center() {
    let mut view = chart_view_empty();
    view.bar_label_position = ChartViewBarLabelPosition::Center.as_i32();

    assert_eq!(
        BarLabelPosition::Center,
        get_bar_label_position(&view).unwrap()
    );
}

#[test]
fn get_bar_label_position_end_inside() {
    let mut view = chart_view_empty();
    view.bar_label_position = ChartViewBarLabelPosition::EndInside.as_i32();

    assert_eq!(
        BarLabelPosition::EndInside,
        get_bar_label_position(&view).unwrap()
    );
}

#[test]
fn get_bar_label_position_end_outside() {
    let mut view = chart_view_empty();
    view.bar_label_position = ChartViewBarLabelPosition::EndOutside.as_i32();

    assert_eq!(
        BarLabelPosition::EndOutside,
        get_bar_label_position(&view).unwrap()
    );
}

#[test]
fn get_bar_label_position_start_inside() {
    let mut view = chart_view_empty();
    view.bar_label_position = ChartViewBarLabelPosition::StartInside.as_i32();

    assert_eq!(
        BarLabelPosition::StartInside,
        get_bar_label_position(&view).unwrap()
    );
}

#[test]
fn get_bar_label_position_start_outside() {
    let mut view = chart_view_empty();
    view.bar_label_position = ChartViewBarLabelPosition::StartOutside.as_i32();

    assert_eq!(
        BarLabelPosition::StartOutside,
        get_bar_label_position(&view).unwrap()
    );
}

#[test]
#[should_panic]
fn get_bar_label_position_unknown() {
    let view = chart_view_empty();

    get_bar_label_position(&view).unwrap();
}
