use chart_resolver::bar::BarLabelPosition;
use chart_resolver::chart::{resolve_chart, ResolvedScale};
use chart_resolver::error::RendererError;
use chart_resolver::margin::{get_margins, Margins};
use chart_resolver::size::{get_sizes, Sizes};
use chart_resolver::view::ResolvedView;
use chart_resolver::wire::{
    BarsDataset, ChartAxes, ChartElementColor, ChartMargins, ChartScale, ChartScaleKind,
    ChartSizes, ChartView, ChartViewBarLabelPosition, ChartViewBarsColors, ChartViewBarsValues,
    ChartViewColors, ChartViewKind, ChartViewPointLabelPosition, ChartViewPointType,
    ChartViewScalarValues, ColorValue, RenderChartRequest, Values,
};

fn hex_color(hex: &str) -> Option<ChartElementColor> {
    Some(ChartElementColor {
        color_value: Some(ColorValue::ColorHex(hex.to_string())),
    })
}

fn band_scale_ab() -> ChartScale {
    ChartScale {
        kind: ChartScaleKind::Band.as_i32(),
        range_start: Some(0),
        range_end: Some(930),
        domain_num_start: 0_f32.to_bits(),
        domain_num_end: 0_f32.to_bits(),
        domain_categories: vec!["a".to_string(), "b".to_string()],
        no_boundaries_offset: false,
        inner_padding: Some(0.1_f32.to_bits()),
        outer_padding: Some(0.1_f32.to_bits()),
    }
}

fn linear_scale_200_800() -> ChartScale {
    ChartScale {
        kind: ChartScaleKind::Linear.as_i32(),
        range_start: Some(0),
        range_end: Some(710),
        domain_num_start: 200_f32.to_bits(),
        domain_num_end: 800_f32.to_bits(),
        domain_categories: Vec::new(),
        no_boundaries_offset: false,
        inner_padding: Some(0.1_f32.to_bits()),
        outer_padding: Some(0.1_f32.to_bits()),
    }
}

fn vertical_bar_view() -> ChartView {
    ChartView {
        kind: ChartViewKind::VerticalBar.as_i32(),
        colors: Some(ChartViewColors {
            fill_color: None,
            stroke_color: None,
            point_fill_color: None,
            point_stroke_color: None,
        }),
        bar_label_visible: Some(true),
        bar_label_position: ChartViewBarLabelPosition::StartInside.as_i32(),
        point_visible: None,
        point_type: 0,
        point_label_visible: None,
        point_label_position: 0,
        values: Some(Values::BarsValues(ChartViewBarsValues {
            bars_datasets: vec![
                BarsDataset {
                    values: vec![64_f32.to_bits(), 32_f32.to_bits()],
                    colors: Some(ChartViewBarsColors {
                        fill: hex_color("#028c02"),
                        stroke: hex_color("#02b502"),
                    }),
                },
                BarsDataset {
                    values: vec![64_f32.to_bits(), 32_f32.to_bits()],
                    colors: Some(ChartViewBarsColors {
                        fill: hex_color("#028c02"),
                        stroke: hex_color("#02b502"),
                    }),
                },
            ],
        })),
    }
}

fn vertical_bar_request() -> RenderChartRequest {
    RenderChartRequest {
        request_id: "req-1".to_string(),
        title: "chart".to_string(),
        sizes: Some(ChartSizes {
            width: Some(1000),
            height: Some(800),
        }),
        margins: Some(ChartMargins {
            margin_top: Some(20),
            margin_bottom: Some(70),
            margin_left: Some(40),
            margin_right: Some(30),
        }),
        axes: Some(ChartAxes {
            axis_top: None,
            axis_top_label: String::new(),
            axis_bottom: Some(band_scale_ab()),
            axis_bottom_label: "x".to_string(),
            axis_left: Some(linear_scale_200_800()),
            axis_left_label: "y".to_string(),
            axis_right: None,
            axis_right_label: String::new(),
        }),
        views: vec![vertical_bar_view()],
    }
}

#[test]
fn resolve_chart_vertical_bar_scenario() {
    let chart = resolve_chart(vertical_bar_request()).unwrap();

    assert_eq!("chart".to_string(), chart.title);
    assert_eq!(1000, chart.width);
    assert_eq!(800, chart.height);
    assert_eq!(20, chart.margin_top);
    assert_eq!(70, chart.margin_bottom);
    assert_eq!(40, chart.margin_left);
    assert_eq!(30, chart.margin_right);
    assert_eq!(1, chart.views.len());
    match &chart.views[0] {
        ResolvedView::VerticalBar(v) => {
            assert_eq!(
                vec!["a".to_string(), "b".to_string()],
                v.x_scale.categories
            );
            assert_eq!(0.1_f32.to_bits(), v.x_scale.inner_padding);
            assert_eq!(0.1_f32.to_bits(), v.x_scale.outer_padding);
            assert_eq!(200_f32.to_bits(), v.y_scale.domain_start);
            assert_eq!(800_f32.to_bits(), v.y_scale.domain_end);
            assert!(v.bar_label_visible);
            assert_eq!(BarLabelPosition::StartInside, v.bar_label_position);
            assert_eq!(2, v.data.len());
        }
        other => panic!("expected a vertical bar view, got {:?}", other),
    }
    assert!(chart.axis_top.is_none());
    assert!(chart.axis_right.is_none());
    let bottom = chart.axis_bottom.unwrap();
    assert_eq!("x".to_string(), bottom.label);
    assert!(matches!(bottom.scale, ResolvedScale::Band(_)));
    let left = chart.axis_left.unwrap();
    assert_eq!("y".to_string(), left.label);
    match left.scale {
        ResolvedScale::Linear(l) => {
            assert_eq!(200_f32.to_bits(), l.domain_start);
            assert_eq!(800_f32.to_bits(), l.domain_end);
        }
        other => panic!("expected a linear scale, got {:?}", other),
    }
}

#[test]
fn resolve_chart_fails_without_vertical_axis() {
    let mut req = vertical_bar_request();
    let axes = req.axes.as_mut().unwrap();
    axes.axis_left = None;
    axes.axis_right = None;

    let err = resolve_chart(req).unwrap_err();

    assert_eq!(RendererError::LeftOrRightAxisShouldBeSpecified, err);
    assert_eq!(
        "left or right axis should be specified".to_string(),
        err.message()
    );
}

fn full_colors() -> Option<ChartViewColors> {
    Some(ChartViewColors {
        fill_color: hex_color("#2b4b49"),
        stroke_color: hex_color("#226974"),
        point_fill_color: hex_color("#1a888b"),
        point_stroke_color: hex_color("#50c5b6"),
    })
}

fn point_styled_view(kind: ChartViewKind, values: Values) -> ChartView {
    ChartView {
        kind: kind.as_i32(),
        colors: full_colors(),
        bar_label_visible: Some(true),
        bar_label_position: ChartViewBarLabelPosition::Center.as_i32(),
        point_visible: Some(true),
        point_type: ChartViewPointType::Circle.as_i32(),
        point_label_visible: Some(true),
        point_label_position: ChartViewPointLabelPosition::Top.as_i32(),
        values: Some(values),
    }
}

fn scalar_values() -> Values {
    Values::ScalarValues(ChartViewScalarValues {
        values: vec![4_f32.to_bits(), 8_f32.to_bits()],
    })
}

fn bars_values() -> Values {
    Values::BarsValues(ChartViewBarsValues {
        bars_datasets: vec![BarsDataset {
            values: vec![16_f32.to_bits(), 32_f32.to_bits()],
            colors: Some(ChartViewBarsColors {
                fill: hex_color("#a496c4"),
                stroke: hex_color("#7d69ac"),
            }),
        }],
    })
}

// No single axis pair satisfies all five view kinds at once: a scatter
// view demands a linear horizontal axis of the very axis an area view
// demands band, so a request holding one view of every kind always fails
// the cross-field kind/role check. The round trip is therefore exercised
// with five views of the kinds compatible with a band horizontal and a
// linear vertical axis.
#[test]
fn resolve_chart_keeps_five_views_in_request_order() {
    let mut req = vertical_bar_request();
    req.views = vec![
        point_styled_view(ChartViewKind::Area, scalar_values()),
        point_styled_view(ChartViewKind::Line, scalar_values()),
        point_styled_view(ChartViewKind::VerticalBar, bars_values()),
        point_styled_view(ChartViewKind::Line, scalar_values()),
        point_styled_view(ChartViewKind::Area, scalar_values()),
    ];

    let chart = resolve_chart(req).unwrap();

    assert_eq!(5, chart.views.len());
    assert!(matches!(chart.views[0], ResolvedView::Area(_)));
    assert!(matches!(chart.views[1], ResolvedView::Line(_)));
    assert!(matches!(chart.views[2], ResolvedView::VerticalBar(_)));
    assert!(matches!(chart.views[3], ResolvedView::Line(_)));
    assert!(matches!(chart.views[4], ResolvedView::Area(_)));
}

// The same request with one view of each of the five kinds fails on the
// first view whose roles the shared axes cannot satisfy.
#[test]
fn resolve_chart_rejects_five_incompatible_kinds() {
    let mut req = vertical_bar_request();
    req.views = vec![
        point_styled_view(ChartViewKind::Area, scalar_values()),
        point_styled_view(ChartViewKind::HorizontalBar, bars_values()),
        point_styled_view(ChartViewKind::Line, scalar_values()),
        point_styled_view(ChartViewKind::Scatter, scalar_values()),
        point_styled_view(ChartViewKind::VerticalBar, bars_values()),
    ];

    assert_eq!(
        Err(RendererError::HorizontalAxisForHorizontalBarViewIsNotLinear),
        resolve_chart(req)
    );
}

#[test]
fn get_margins_basic() {
    let margins = get_margins(Some(ChartMargins {
        margin_top: Some(20),
        margin_bottom: Some(70),
        margin_left: Some(40),
        margin_right: Some(30),
    }))
    .unwrap();

    assert_eq!(
        Margins {
            top: 20,
            bottom: 70,
            left: 40,
            right: 30
        },
        margins
    );
}

#[test]
fn get_margins_missing_bundle() {
    assert_eq!(
        Err(RendererError::ChartMarginsAreNotSpecified),
        get_margins(None)
    );
}

#[test]
fn get_margins_missing_top() {
    assert_eq!(
        Err(RendererError::ChartTopMarginIsNotSpecified),
        get_margins(Some(ChartMargins {
            margin_top: None,
            margin_bottom: Some(70),
            margin_left: Some(40),
            margin_right: Some(30),
        }))
    );
}

#[test]
fn get_margins_missing_bottom() {
    assert_eq!(
        Err(RendererError::ChartBottomMarginIsNotSpecified),
        get_margins(Some(ChartMargins {
            margin_top: Some(20),
            margin_bottom: None,
            margin_left: Some(40),
            margin_right: Some(30),
        }))
    );
}

#[test]
fn get_margins_missing_left() {
    assert_eq!(
        Err(RendererError::ChartLeftMarginIsNotSpecified),
        get_margins(Some(ChartMargins {
            margin_top: Some(20),
            margin_bottom: Some(70),
            margin_left: None,
            margin_right: Some(30),
        }))
    );
}

#[test]
fn get_margins_missing_right() {
    assert_eq!(
        Err(RendererError::ChartRightMarginIsNotSpecified),
        get_margins(Some(ChartMargins {
            margin_top: Some(20),
            margin_bottom: Some(70),
            margin_left: Some(40),
            margin_right: None,
        }))
    );
}

#[test]
fn get_sizes_basic() {
    let sizes = get_sizes(Some(ChartSizes {
        width: Some(1000),
        height: Some(800),
    }))
    .unwrap();

    assert_eq!(
        Sizes {
            width: 1000,
            height: 800
        },
        sizes
    );
}

#[test]
fn get_sizes_missing_bundle() {
    assert_eq!(
        Err(RendererError::ChartSizesAreNotSpecified),
        get_sizes(None)
    );
}

#[test]
fn get_sizes_missing_width() {
    assert_eq!(
        Err(RendererError::ChartWidthIsNotSpecified),
        get_sizes(Some(ChartSizes {
            width: None,
            height: Some(800),
        }))
    );
}

#[test]
fn get_sizes_missing_height() {
    assert_eq!(
        Err(RendererError::ChartHeightIsNotSpecified),
        get_sizes(Some(ChartSizes {
            width: Some(1000),
            height: None,
        }))
    );
}

#[test]
fn resolve_chart_reports_missing_margin_slot() {
    let mut req = vertical_bar_request();
    req.margins = Some(ChartMargins {
        margin_top: Some(20),
        margin_bottom: Some(70),
        margin_left: None,
        margin_right: Some(30),
    });

    assert_eq!(
        Err(RendererError::ChartLeftMarginIsNotSpecified),
        resolve_chart(req)
    );
}

#[test]
fn resolve_chart_reports_missing_sizes() {
    let mut req = vertical_bar_request();
    req.sizes = None;

    assert_eq!(
        Err(RendererError::ChartSizesAreNotSpecified),
        resolve_chart(req)
    );
}

#[test]
fn resolve_chart_reports_missing_axes() {
    let mut req = vertical_bar_request();
    req.axes = None;

    assert_eq!(
        Err(RendererError::ChartAxesAreNotSpecified),
        resolve_chart(req)
    );
}

#[test]
fn error_messages_exact() {
    assert_eq!(
        "top or bottom axis should be specified".to_string(),
        RendererError::TopOrBottomAxisShouldBeSpecified.message()
    );
    assert_eq!(
        "expected scalar values for view".to_string(),
        RendererError::ExpectedScalarValues.message()
    );
    assert_eq!(
        "view kind is unknown".to_string(),
        RendererError::ViewKindIsUnknown.message()
    );
    assert_eq!(
        "inner padding for band scale is not specified".to_string(),
        RendererError::BandScaleInnerPaddingIsNotSpecified.message()
    );
    assert_eq!(
        "horizontal axis for area view is set but it's not of band kind".to_string(),
        RendererError::HorizontalAxisForAreaViewIsNotBand.message()
    );
    assert_eq!(
        "vertical axis for horizontal bar view is set but it's not of band kind".to_string(),
        RendererError::VerticalAxisForHorizontalBarViewIsNotBand.message()
    );
}
