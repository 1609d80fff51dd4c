use chart_resolver::color::{get_color, get_view_colors};
use chart_resolver::wire::{ChartElementColor, ChartViewColors, ColorValue, Rgb};

fn color_hex() -> Option<ChartElementColor> {
    Some(ChartElementColor {
        color_value: Some(ColorValue::ColorHex("#0E0C50".to_string())),
    })
}

fn color_rgb() -> Option<ChartElementColor> {
    Some(ChartElementColor {
        color_value: Some(ColorValue::ColorRgb(Rgb {
            r: 14,
            g: 12,
            b: 80,
        })),
    })
}

#[test]
fn get_color_hex() {
    let chart_element_color = color_hex();

    let color = get_color(&chart_element_color);

    assert_eq!("#0E0C50".to_string(), color.unwrap().to_string())
}

#[test]
fn get_color_rgb() {
    let chart_element_color = color_rgb();

    let color = get_color(&chart_element_color);

    assert_eq!("rgb(14,12,80)".to_string(), color.unwrap().to_string())
}

#[test]
fn get_colors_basic() {
    let chart_view_colors = ChartViewColors {
        fill_color: color_hex(),
        stroke_color: color_rgb(),
        point_fill_color: color_hex(),
        point_stroke_color: color_rgb(),
    };

    let view_colors = get_view_colors(&Some(chart_view_colors)).unwrap();

    assert_eq!(
        "#0E0C50".to_string(),
        view_colors.fill_color.unwrap().to_string()
    );
    assert_eq!(
        "rgb(14,12,80)".to_string(),
        view_colors.stroke_color.unwrap().to_string()
    );
    assert_eq!(
        "#0E0C50".to_string(),
        view_colors.point_fill_color.unwrap().to_string()
    );
    assert_eq!(
        "rgb(14,12,80)".to_string(),
        view_colors.point_stroke_color.unwrap().to_string()
    );
}

#[test]
fn get_color_absent_slot_resolves_to_nothing() {
    assert_eq!(None, get_color(&None));
    assert_eq!(
        None,
        get_color(&Some(ChartElementColor { color_value: None }))
    );
}

#[test]
fn get_color_rgb_truncates_wide_components() {
    let chart_element_color = Some(ChartElementColor {
        color_value: Some(ColorValue::ColorRgb(Rgb {
            r: 270,
            g: 256,
            b: 511,
        })),
    });

    let color = get_color(&chart_element_color);

    assert_eq!("rgb(14,0,255)".to_string(), color.unwrap().to_string())
}

#[test]
fn color_string_decimal_channels_exact() {
    let chart_element_color = Some(ChartElementColor {
        color_value: Some(ColorValue::ColorRgb(Rgb { r: 0, g: 7, b: 10 })),
    });
    assert_eq!(
        "rgb(0,7,10)".to_string(),
        get_color(&chart_element_color).unwrap().to_string()
    );

    let chart_element_color = Some(ChartElementColor {
        color_value: Some(ColorValue::ColorRgb(Rgb {
            r: 99,
            g: 100,
            b: 255,
        })),
    });
    assert_eq!(
        "rgb(99,100,255)".to_string(),
        get_color(&chart_element_color).unwrap().to_string()
    );
}
