use chart_resolver::bar::get_bar_label_position;
use chart_resolver::chart::resolve_chart;
use chart_resolver::color::get_view_colors;
use chart_resolver::error::RendererError;
use chart_resolver::point::{get_point_label_position, get_point_type};
use chart_resolver::scale::{get_band_h_scale, get_h_scale, get_linear_h_scale};
use chart_resolver::value::{get_bars_values, get_scalar_values};
use chart_resolver::view::{
    get_area_view, get_horizontal_bar_view, get_line_view, get_scatter_view,
    get_vertical_bar_view, get_views,
};
use chart_resolver::wire::{
    BarsDataset, ChartAxes, ChartElementColor, ChartMargins, ChartScale, ChartScaleKind,
    ChartSizes, ChartView, ChartViewBarLabelPosition, ChartViewBarsColors, ChartViewBarsValues,
    ChartViewColors, ChartViewKind, ChartViewPointLabelPosition, ChartViewPointType,
    ChartViewPointsValues, ChartViewScalarValues, ColorValue, Point, RenderChartRequest, Values,
};

fn hex_color(hex: &str) -> Option<ChartElementColor> {
    Some(ChartElementColor {
        color_value: Some(ColorValue::ColorHex(hex.to_string())),
    })
}

fn full_colors() -> Option<ChartViewColors> {
    Some(ChartViewColors {
        fill_color: hex_color("#2b4b49"),
        stroke_color: hex_color("#226974"),
        point_fill_color: hex_color("#1a888b"),
        point_stroke_color: hex_color("#50c5b6"),
    })
}

fn linear_scale() -> ChartScale {
    ChartScale {
        kind: ChartScaleKind::Linear.as_i32(),
        range_start: Some(0),
        range_end: Some(100),
        domain_num_start: 200_f32.to_bits(),
        domain_num_end: 800_f32.to_bits(),
        domain_categories: Vec::new(),
        no_boundaries_offset: false,
        inner_padding: Some(0.1_f32.to_bits()),
        outer_padding: Some(0.1_f32.to_bits()),
    }
}

fn band_scale() -> ChartScale {
    ChartScale {
        kind: ChartScaleKind::Band.as_i32(),
        range_start: Some(0),
        range_end: Some(100),
        domain_num_start: 0_f32.to_bits(),
        domain_num_end: 0_f32.to_bits(),
        domain_categories: vec!["a".to_string(), "b".to_string()],
        no_boundaries_offset: false,
        inner_padding: Some(0.1_f32.to_bits()),
        outer_padding: Some(0.1_f32.to_bits()),
    }
}

fn scalar_values() -> Values {
    Values::ScalarValues(ChartViewScalarValues {
        values: vec![4_f32.to_bits(), 8_f32.to_bits()],
    })
}

fn points_values() -> Values {
    Values::PointsValues(ChartViewPointsValues {
        points: vec![Point {
            x: 2_f32.to_bits(),
            y: 4_f32.to_bits(),
        }],
    })
}

fn bars_values() -> Values {
    Values::BarsValues(ChartViewBarsValues {
        bars_datasets: vec![BarsDataset {
            values: vec![16_f32.to_bits(), 32_f32.to_bits()],
            colors: Some(ChartViewBarsColors {
                fill: hex_color("#a496c4"),
                stroke: hex_color("#7d69ac"),
            }),
        }],
    })
}

fn styled_view(values: Values) -> ChartView {
    ChartView {
        kind: 0,
        colors: full_colors(),
        bar_label_visible: Some(true),
        bar_label_position: ChartViewBarLabelPosition::Center.as_i32(),
        point_visible: Some(true),
        point_type: ChartViewPointType::Circle.as_i32(),
        point_label_visible: Some(true),
        point_label_position: ChartViewPointLabelPosition::Top.as_i32(),
        values: Some(values),
    }
}

#[test]
fn view_colors_bundle_missing() {
    assert_eq!(
        Err(RendererError::ViewColorsAreNotSpecified),
        get_view_colors(&None)
    );
}

#[test]
fn view_values_missing() {
    let mut view = styled_view(scalar_values());
    view.values = None;
    assert_eq!(
        Err(RendererError::ViewValuesAreNotSpecified),
        get_scalar_values(&view)
    );
}

#[test]
fn area_view_rejects_bars_payload() {
    let view = styled_view(bars_values());
    assert_eq!(
        Err(RendererError::ExpectedScalarValues),
        get_area_view(&view, &band_scale(), &linear_scale())
    );
}

#[test]
fn line_view_rejects_points_payload() {
    let view = styled_view(points_values());
    assert_eq!(
        Err(RendererError::ExpectedScalarValues),
        get_line_view(&view, &band_scale(), &linear_scale())
    );
}

#[test]
fn scatter_view_rejects_scalar_payload() {
    let view = styled_view(scalar_values());
    assert_eq!(
        Err(RendererError::ExpectedPointsValues),
        get_scatter_view(&view, &linear_scale(), &linear_scale())
    );
}

#[test]
fn horizontal_bar_view_rejects_points_payload() {
    let view = styled_view(points_values());
    assert_eq!(
        Err(RendererError::ExpectedBarsValues),
        get_horizontal_bar_view(&view, &linear_scale(), &band_scale())
    );
}

#[test]
fn vertical_bar_view_rejects_scalar_payload() {
    let view = styled_view(scalar_values());
    assert_eq!(
        Err(RendererError::ExpectedBarsValues),
        get_vertical_bar_view(&view, &band_scale(), &linear_scale())
    );
}

#[test]
fn bars_dataset_colors_missing() {
    let view = styled_view(Values::BarsValues(ChartViewBarsValues {
        bars_datasets: vec![BarsDataset {
            values: vec![1_f32.to_bits()],
            colors: None,
        }],
    }));
    assert_eq!(
        Err(RendererError::ColorsForBarsValuesAreNotSpecified),
        get_bars_values(&view)
    );
}

#[test]
fn bars_dataset_fill_color_missing() {
    let view = styled_view(Values::BarsValues(ChartViewBarsValues {
        bars_datasets: vec![BarsDataset {
            values: vec![1_f32.to_bits()],
            colors: Some(ChartViewBarsColors {
                fill: None,
                stroke: hex_color("#7d69ac"),
            }),
        }],
    }));
    assert_eq!(
        Err(RendererError::FillColorForBarsValuesIsNotSpecified),
        get_bars_values(&view)
    );
}

#[test]
fn bars_dataset_stroke_color_missing() {
    let view = styled_view(Values::BarsValues(ChartViewBarsValues {
        bars_datasets: vec![BarsDataset {
            values: vec![1_f32.to_bits()],
            colors: Some(ChartViewBarsColors {
                fill: hex_color("#a496c4"),
                stroke: None,
            }),
        }],
    }));
    assert_eq!(
        Err(RendererError::StrokeColorForBarsValuesIsNotSpecified),
        get_bars_values(&view)
    );
}

#[test]
fn bar_label_position_unknown_tag() {
    let mut view = styled_view(bars_values());
    view.bar_label_position = 9;
    assert_eq!(
        Err(RendererError::BarLabelPositionIsUnknown),
        get_bar_label_position(&view)
    );
}

#[test]
fn point_label_position_unknown_tag() {
    let mut view = styled_view(scalar_values());
    view.point_label_position = 9;
    assert_eq!(
        Err(RendererError::PointLabelPositionIsUnknown),
        get_point_label_position(&view)
    );
}

#[test]
fn point_type_unknown_tag() {
    let mut view = styled_view(scalar_values());
    view.point_type = 4;
    assert_eq!(Err(RendererError::PointTypeIsUnknown), get_point_type(&view));
}

#[test]
fn horizontal_axis_missing() {
    let axes = ChartAxes {
        axis_top: None,
        axis_top_label: String::new(),
        axis_bottom: None,
        axis_bottom_label: String::new(),
        axis_left: Some(linear_scale()),
        axis_left_label: String::new(),
        axis_right: None,
        axis_right_label: String::new(),
    };
    assert_eq!(
        Err(RendererError::TopOrBottomAxisShouldBeSpecified),
        get_h_scale(&axes)
    );
}

fn without_color_slot(
    fill: bool,
    stroke: bool,
    point_fill: bool,
    point_stroke: bool,
) -> Option<ChartViewColors> {
    Some(ChartViewColors {
        fill_color: if fill { hex_color("#2b4b49") } else { None },
        stroke_color: if stroke { hex_color("#226974") } else { None },
        point_fill_color: if point_fill { hex_color("#1a888b") } else { None },
        point_stroke_color: if point_stroke {
            hex_color("#50c5b6")
        } else {
            None
        },
    })
}

#[test]
fn area_view_fill_color_missing() {
    let mut view = styled_view(scalar_values());
    view.colors = without_color_slot(false, true, true, true);
    assert_eq!(
        Err(RendererError::FillColorForAreaViewIsNotSpecified),
        get_area_view(&view, &band_scale(), &linear_scale())
    );
}

#[test]
fn area_view_stroke_color_missing() {
    let mut view = styled_view(scalar_values());
    view.colors = without_color_slot(true, false, true, true);
    assert_eq!(
        Err(RendererError::StrokeColorForAreaViewIsNotSpecified),
        get_area_view(&view, &band_scale(), &linear_scale())
    );
}

#[test]
fn area_view_point_fill_color_missing() {
    let mut view = styled_view(scalar_values());
    view.colors = without_color_slot(true, true, false, true);
    assert_eq!(
        Err(RendererError::PointFillColorForAreaViewIsNotSpecified),
        get_area_view(&view, &band_scale(), &linear_scale())
    );
}

#[test]
fn area_view_point_stroke_color_missing() {
    let mut view = styled_view(scalar_values());
    view.colors = without_color_slot(true, true, true, false);
    assert_eq!(
        Err(RendererError::PointStrokeColorForAreaViewIsNotSpecified),
        get_area_view(&view, &band_scale(), &linear_scale())
    );
}

#[test]
fn area_view_point_visibility_missing() {
    let mut view = styled_view(scalar_values());
    view.point_visible = None;
    assert_eq!(
        Err(RendererError::PointVisibilityForAreaViewIsNotSpecified),
        get_area_view(&view, &band_scale(), &linear_scale())
    );
}

#[test]
fn area_view_point_label_visibility_missing() {
    let mut view = styled_view(scalar_values());
    view.point_label_visible = None;
    assert_eq!(
        Err(RendererError::PointLabelVisibilityForAreaViewIsNotSpecified),
        get_area_view(&view, &band_scale(), &linear_scale())
    );
}

#[test]
fn line_view_stroke_color_missing() {
    let mut view = styled_view(scalar_values());
    view.colors = without_color_slot(true, false, true, true);
    assert_eq!(
        Err(RendererError::StrokeColorForLineViewIsNotSpecified),
        get_line_view(&view, &band_scale(), &linear_scale())
    );
}

#[test]
fn line_view_point_fill_color_missing() {
    let mut view = styled_view(scalar_values());
    view.colors = without_color_slot(true, true, false, true);
    assert_eq!(
        Err(RendererError::PointFillColorForLineViewIsNotSpecified),
        get_line_view(&view, &band_scale(), &linear_scale())
    );
}

#[test]
fn line_view_point_stroke_color_missing() {
    let mut view = styled_view(scalar_values());
    view.colors = without_color_slot(true, true, true, false);
    assert_eq!(
        Err(RendererError::PointStrokeColorForLineViewIsNotSpecified),
        get_line_view(&view, &band_scale(), &linear_scale())
    );
}

#[test]
fn line_view_point_visibility_missing() {
    let mut view = styled_view(scalar_values());
    view.point_visible = None;
    assert_eq!(
        Err(RendererError::PointVisibilityForLineViewIsNotSpecified),
        get_line_view(&view, &band_scale(), &linear_scale())
    );
}

#[test]
fn line_view_point_label_visibility_missing() {
    let mut view = styled_view(scalar_values());
    view.point_label_visible = None;
    assert_eq!(
        Err(RendererError::PointLabelVisibilityForLineViewIsNotSpecified),
        get_line_view(&view, &band_scale(), &linear_scale())
    );
}

#[test]
fn scatter_view_point_fill_color_missing() {
    let mut view = styled_view(points_values());
    view.colors = without_color_slot(true, true, false, true);
    assert_eq!(
        Err(RendererError::PointFillColorForScatterViewIsNotSpecified),
        get_scatter_view(&view, &linear_scale(), &linear_scale())
    );
}

#[test]
fn scatter_view_point_stroke_color_missing() {
    let mut view = styled_view(points_values());
    view.colors = without_color_slot(true, true, true, false);
    assert_eq!(
        Err(RendererError::PointStrokeColorForScatterViewIsNotSpecified),
        get_scatter_view(&view, &linear_scale(), &linear_scale())
    );
}

#[test]
fn scatter_view_point_visibility_missing() {
    let mut view = styled_view(points_values());
    view.point_visible = None;
    assert_eq!(
        Err(RendererError::PointVisibilityForScatterViewIsNotSpecified),
        get_scatter_view(&view, &linear_scale(), &linear_scale())
    );
}

#[test]
fn scatter_view_point_label_visibility_missing() {
    let mut view = styled_view(points_values());
    view.point_label_visible = None;
    assert_eq!(
        Err(RendererError::PointLabelVisibilityForScatterViewIsNotSpecified),
        get_scatter_view(&view, &linear_scale(), &linear_scale())
    );
}

#[test]
fn horizontal_bar_view_label_visibility_missing() {
    let mut view = styled_view(bars_values());
    view.bar_label_visible = None;
    assert_eq!(
        Err(RendererError::BarLabelVisibilityForHorizontalBarViewIsNotSpecified),
        get_horizontal_bar_view(&view, &linear_scale(), &band_scale())
    );
}

#[test]
fn vertical_bar_view_label_visibility_missing() {
    let mut view = styled_view(bars_values());
    view.bar_label_visible = None;
    assert_eq!(
        Err(RendererError::BarLabelVisibilityForVerticalBarViewIsNotSpecified),
        get_vertical_bar_view(&view, &band_scale(), &linear_scale())
    );
}

#[test]
fn area_view_rejects_linear_horizontal_axis() {
    let view = styled_view(scalar_values());
    assert_eq!(
        Err(RendererError::HorizontalAxisForAreaViewIsNotBand),
        get_area_view(&view, &linear_scale(), &linear_scale())
    );
}

#[test]
fn area_view_rejects_band_vertical_axis() {
    let view = styled_view(scalar_values());
    assert_eq!(
        Err(RendererError::VerticalAxisForAreaViewIsNotLinear),
        get_area_view(&view, &band_scale(), &band_scale())
    );
}

#[test]
fn line_view_rejects_linear_horizontal_axis() {
    let view = styled_view(scalar_values());
    assert_eq!(
        Err(RendererError::HorizontalAxisForLineViewIsNotBand),
        get_line_view(&view, &linear_scale(), &linear_scale())
    );
}

#[test]
fn line_view_rejects_band_vertical_axis() {
    let view = styled_view(scalar_values());
    assert_eq!(
        Err(RendererError::VerticalAxisForLineViewIsNotLinear),
        get_line_view(&view, &band_scale(), &band_scale())
    );
}

#[test]
fn scatter_view_rejects_band_horizontal_axis() {
    let view = styled_view(points_values());
    assert_eq!(
        Err(RendererError::HorizontalAxisForScatterViewIsNotLinear),
        get_scatter_view(&view, &band_scale(), &linear_scale())
    );
}

#[test]
fn scatter_view_rejects_band_vertical_axis() {
    let view = styled_view(points_values());
    assert_eq!(
        Err(RendererError::VerticalAxisForScatterViewIsNotLinear),
        get_scatter_view(&view, &linear_scale(), &band_scale())
    );
}

#[test]
fn horizontal_bar_view_rejects_band_horizontal_axis() {
    let view = styled_view(bars_values());
    assert_eq!(
        Err(RendererError::HorizontalAxisForHorizontalBarViewIsNotLinear),
        get_horizontal_bar_view(&view, &band_scale(), &band_scale())
    );
}

#[test]
fn horizontal_bar_view_rejects_linear_vertical_axis() {
    let view = styled_view(bars_values());
    assert_eq!(
        Err(RendererError::VerticalAxisForHorizontalBarViewIsNotBand),
        get_horizontal_bar_view(&view, &linear_scale(), &linear_scale())
    );
}

#[test]
fn vertical_bar_view_rejects_linear_horizontal_axis() {
    let view = styled_view(bars_values());
    assert_eq!(
        Err(RendererError::HorizontalAxisForVerticalBarViewIsNotBand),
        get_vertical_bar_view(&view, &linear_scale(), &linear_scale())
    );
}

#[test]
fn vertical_bar_view_rejects_band_vertical_axis() {
    let view = styled_view(bars_values());
    assert_eq!(
        Err(RendererError::VerticalAxisForVerticalBarViewIsNotLinear),
        get_vertical_bar_view(&view, &band_scale(), &band_scale())
    );
}

#[test]
fn view_kind_unknown() {
    let view = styled_view(scalar_values());
    assert_eq!(
        Err(RendererError::ViewKindIsUnknown),
        get_views(&vec![view], &band_scale(), &linear_scale())
    );
}

#[test]
fn scale_range_start_missing() {
    let mut scale = linear_scale();
    scale.range_start = None;
    assert_eq!(
        Err(RendererError::ScaleRangeStartIsNotSpecified),
        get_linear_h_scale(&scale)
    );
}

#[test]
fn scale_range_end_missing() {
    let mut scale = linear_scale();
    scale.range_end = None;
    assert_eq!(
        Err(RendererError::ScaleRangeEndIsNotSpecified),
        get_linear_h_scale(&scale)
    );
}

#[test]
fn band_scale_inner_padding_missing() {
    let mut scale = band_scale();
    scale.inner_padding = None;
    assert_eq!(
        Err(RendererError::BandScaleInnerPaddingIsNotSpecified),
        get_band_h_scale(&scale)
    );
}

#[test]
fn band_scale_outer_padding_missing() {
    let mut scale = band_scale();
    scale.outer_padding = None;
    assert_eq!(
        Err(RendererError::BandScaleOuterPaddingIsNotSpecified),
        get_band_h_scale(&scale)
    );
}

fn axes_only_request(axes: ChartAxes) -> RenderChartRequest {
    RenderChartRequest {
        request_id: "req-err".to_string(),
        title: String::new(),
        sizes: Some(ChartSizes {
            width: Some(100),
            height: Some(100),
        }),
        margins: Some(ChartMargins {
            margin_top: Some(0),
            margin_bottom: Some(0),
            margin_left: Some(0),
            margin_right: Some(0),
        }),
        axes: Some(axes),
        views: Vec::new(),
    }
}

fn unknown_kind_scale() -> ChartScale {
    let mut scale = linear_scale();
    scale.kind = 0;
    scale
}

#[test]
fn top_axis_of_unknown_kind_rejected() {
    let req = axes_only_request(ChartAxes {
        axis_top: Some(unknown_kind_scale()),
        axis_top_label: String::new(),
        axis_bottom: None,
        axis_bottom_label: String::new(),
        axis_left: Some(linear_scale()),
        axis_left_label: String::new(),
        axis_right: None,
        axis_right_label: String::new(),
    });
    assert_eq!(
        Err(RendererError::TopAxisIsSetButItsNotBandOrLinear),
        resolve_chart(req)
    );
}

#[test]
fn bottom_axis_of_unknown_kind_rejected() {
    let req = axes_only_request(ChartAxes {
        axis_top: None,
        axis_top_label: String::new(),
        axis_bottom: Some(unknown_kind_scale()),
        axis_bottom_label: String::new(),
        axis_left: Some(linear_scale()),
        axis_left_label: String::new(),
        axis_right: None,
        axis_right_label: String::new(),
    });
    assert_eq!(
        Err(RendererError::BottomAxisIsSetButItsNotBandOrLinear),
        resolve_chart(req)
    );
}

#[test]
fn left_axis_of_unknown_kind_rejected() {
    let req = axes_only_request(ChartAxes {
        axis_top: Some(band_scale()),
        axis_top_label: String::new(),
        axis_bottom: None,
        axis_bottom_label: String::new(),
        axis_left: Some(unknown_kind_scale()),
        axis_left_label: String::new(),
        axis_right: None,
        axis_right_label: String::new(),
    });
    assert_eq!(
        Err(RendererError::LeftAxisIsSetButItsNotBandOrLinear),
        resolve_chart(req)
    );
}

#[test]
fn right_axis_of_unknown_kind_rejected() {
    let req = axes_only_request(ChartAxes {
        axis_top: Some(band_scale()),
        axis_top_label: String::new(),
        axis_bottom: None,
        axis_bottom_label: String::new(),
        axis_left: Some(linear_scale()),
        axis_left_label: String::new(),
        axis_right: Some(unknown_kind_scale()),
        axis_right_label: String::new(),
    });
    assert_eq!(
        Err(RendererError::RightAxisIsSetButItsNotBandOrLinear),
        resolve_chart(req)
    );
}
