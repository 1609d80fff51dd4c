use chart_resolver::point::{
    get_point_label_position, get_point_type, PointLabelPosition, PointType,
};
use chart_resolver::wire::{ChartView, ChartViewPointLabelPosition, ChartViewPointType};

fn chart_view_empty() -> ChartView {
    ChartView {
        kind: 0,
        colors: None,
        bar_label_visible: Some(false),
        bar_label_position: 0,
        point_visible: Some(false),
        point_type: ChartViewPointType::UnspecifiedPointType.as_i32(),
        point_label_visible: Some(false),
        point_label_position: ChartViewPointLabelPosition::UnspecifiedPointLabelPosition.as_i32(),
        values: None,
    }
}

#[test]
fn get_point_label_position_top() {
    let mut view = chart_view_empty();
    view.point_label_position = ChartViewPointLabelPosition::Top.as_i32();

    assert_eq!(
        PointLabelPosition::Top,
        get_point_label_position(&view).unwrap()
    );
}

#[test]
fn get_point_label_position_top_left() {
    let mut view = chart_view_empty();
    view.point_label_position = ChartViewPointLabelPosition::TopLeft.as_i32();

    assert_eq!(
        PointLabelPosition::TopLeft,
        get_point_label_position(&view).unwrap()
    );
}

#[test]
fn get_point_label_position_top_right() {
    let mut view = chart_view_empty();
    view.point_label_position = ChartViewPointLabelPosition::TopRight.as_i32();

    assert_eq!(
        PointLabelPosition::TopRight,
        get_point_label_position(&view).unwrap()
    );
}

#[test]
fn get_point_label_position_left() {
    let mut view = chart_view_empty();
    view.point_label_position = ChartViewPointLabelPosition::Left.as_i32();

    assert_eq!(
        PointLabelPosition::Left,
        get_point_label_position(&view).unwrap()
    );
}

#[test]
fn get_point_label_position_right() {
    let mut view = chart_view_empty();
    view.point_label_position = ChartViewPointLabelPosition::Right.as_i32();

    assert_eq!(
        PointLabelPosition::Right,
        get_point_label_position(&view).unwrap()
    );
}

#[test]
fn get_point_label_position_bottom() {
    let mut view = chart_view_empty();
    view.point_label_position = ChartViewPointLabelPosition::Bottom.as_i32();

    assert_eq!(
        PointLabelPosition::Bottom,
        get_point_label_position(&view).unwrap()
    );
}

#[test]
fn get_point_label_position_bottom_left() {
    let mut view = chart_view_empty();
    view.point_label_position = ChartViewPointLabelPosition::BottomLeft.as_i32();

    assert_eq!(
        PointLabelPosition::BottomLeft,
        get_point_label_position(&view).unwrap()
    );
}

#[test]
fn get_point_label_position_bottom_right() {
    let mut view = chart_view_empty();
    view.point_label_position = ChartViewPointLabelPosition::BottomRight.as_i32();

    assert_eq!(
        PointLabelPosition::BottomRight,
        get_point_label_position(&view).unwrap()
    );
}

#[test]
#[should_panic]
fn get_point_label_position_unknown() {
    let view = chart_view_empty();

    get_point_label_position(&view).unwrap();
}

#[test]
fn get_point_type_circle() {
    let mut view = chart_view_empty();
    view.point_type = ChartViewPointType::Circle.as_i32();

    assert_eq!(PointType::Circle, get_point_type(&view).unwrap());
}

#[test]
fn get_point_type_square() {
    let mut view = chart_view_empty();
    view.point_type = ChartViewPointType::Square.as_i32();

    assert_eq!(PointType::Square, get_point_type(&view).unwrap());
}

#[test]
fn get_point_type_x() {
    let mut view = chart_view_empty();
    view.point_type = ChartViewPointType::X.as_i32();

    assert_eq!(PointType::X, get_point_type(&view).unwrap());
}

#[test]
#[should_panic]
fn get_point_type_unknown() {
    let view = chart_view_empty();

    get_point_type(&view).unwrap();
}
