use chart_resolver::color::Color;
use chart_resolver::value::{get_bars_values, get_points_values, get_scalar_values, BarsValues};
use chart_resolver::wire::{
    BarsDataset, ChartElementColor, ChartView, ChartViewBarsColors, ChartViewBarsValues,
    ChartViewPointsValues, ChartViewScalarValues, ColorValue, Point, Values,
};

fn chart_view_empty() -> ChartView {
    ChartView {
        kind: 0,
        colors: None,
        bar_label_visible: Some(false),
        bar_label_position: 0,
        point_visible: Some(false),
        point_type: 0,
        point_label_visible: Some(false),
        point_label_position: 0,
        values: None,
    }
}

fn hex_color(hex: &str) -> Option<ChartElementColor> {
    Some(ChartElementColor {
        color_value: Some(ColorValue::ColorHex(hex.to_string())),
    })
}

#[test]
fn get_scalar_values_basic() {
    let mut view = chart_view_empty();
    view.values = Some(Values::ScalarValues(ChartViewScalarValues {
        values: vec![1_f32.to_bits(), 2_f32.to_bits()],
    }));

    let scalar_values = get_scalar_values(&view).unwrap();

    assert_eq!(vec![1_f32.to_bits(), 2_f32.to_bits()], scalar_values);
}

#[test]
fn get_bars_values_basic() {
    let expected_bars_values = vec![
        BarsValues {
            values: vec![1_f32.to_bits(), 2_f32.to_bits()],
            fill_color: Color::Hex("#FA4988".to_string()),
            stroke_color: Color::Hex("#9C0412".to_string()),
        },
        BarsValues {
            values: vec![3_f32.to_bits(), 4_f32.to_bits()],
            fill_color: Color::Hex("#A9DEF2".to_string()),
            stroke_color: Color::Hex("#004F84".to_string()),
        },
    ];

    let mut view = chart_view_empty();
    view.values = Some(Values::BarsValues(ChartViewBarsValues {
        bars_datasets: vec![
            BarsDataset {
                values: vec![1_f32.to_bits(), 2_f32.to_bits()],
                colors: Some(ChartViewBarsColors {
                    fill: hex_color("#FA4988"),
                    stroke: hex_color("#9C0412"),
                }),
            },
            BarsDataset {
                values: vec![3_f32.to_bits(), 4_f32.to_bits()],
                colors: Some(ChartViewBarsColors {
                    fill: hex_color("#A9DEF2"),
                    stroke: hex_color("#004F84"),
                }),
            },
        ],
    }));

    let bars_values = get_bars_values(&view).unwrap();

    for (i, bars_value) in bars_values.iter().enumerate() {
        assert_eq!(expected_bars_values[i].values(), bars_value.values());
        assert_eq!(
            expected_bars_values[i].fill_color(),
            bars_value.fill_color()
        );
        assert_eq!(
            expected_bars_values[i].stroke_color(),
            bars_value.stroke_color()
        );
    }
}

#[test]
fn get_points_values_basic() {
    let mut view = chart_view_empty();
    view.values = Some(Values::PointsValues(ChartViewPointsValues {
        points: vec![
            Point {
                x: 1_f32.to_bits(),
                y: 2_f32.to_bits(),
            },
            Point {
                x: 3_f32.to_bits(),
                y: 4_f32.to_bits(),
            },
        ],
    }));

    let points_values = get_points_values(&view).unwrap();

    assert_eq!(
        vec![
            (1_f32.to_bits(), 2_f32.to_bits()),
            (3_f32.to_bits(), 4_f32.to_bits())
        ],
        points_values
    );
}

#[test]
#[should_panic]
fn get_scalar_values_err() {
    let view = chart_view_empty();

    get_scalar_values(&view).unwrap();
}

#[test]
#[should_panic]
fn get_bars_values_err() {
    let view = chart_view_empty();

    get_bars_values(&view).unwrap();
}

#[test]
#[should_panic]
fn get_points_values_err() {
    let view = chart_view_empty();

    get_points_values(&view).unwrap();
}
