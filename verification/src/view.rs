//! Resolution of views: the dispatcher over the five view kinds.
//!
//! Each kind validates its own required fields — payload shape, scale
//! roles, mandatory colors, visibility flags and enumerations — and
//! assembles a self-sufficient resolved view bound to its scales, colors
//! and data. Any failure aborts the resolution of that view and is
//! surfaced verbatim; a list of views is resolved in order, stopping at
//! the first failing view.

use vstd::prelude::*;

use crate::bar::{spec_get_bar_label_position, get_bar_label_position, BarLabelPosition};
use crate::color::{get_view_colors, spec_get_view_colors, Color, SpecColor};
use crate::error::RendererError;
use crate::point::{
    get_point_label_position, get_point_type, spec_get_point_label_position, spec_get_point_type,
    PointLabelPosition, PointType,
};
use crate::scale::{
    get_band_h_scale, get_band_v_scale, get_linear_h_scale, get_linear_v_scale,
    spec_get_band_scale, spec_get_linear_scale, BandScale, LinearScale, SpecBandScale,
};
use crate::value::{
    get_bars_values, get_points_values, get_scalar_values, spec_get_bars_values,
    spec_get_points_values, spec_get_scalar_values, BarsValues, SpecResolvedBars,
};
use crate::wire::{
    ChartScale, ChartScaleKind, ChartView, FloatBits, SpecChartScale, SpecChartView,
};

verus! {

/// A resolved area view: scalar data over a band horizontal scale and a
/// linear vertical scale, with all four colors and all point attributes.
#[derive(Clone, Debug, PartialEq, Eq)]
pub struct AreaView {
    pub x_scale: BandScale,
    pub y_scale: LinearScale,
    pub fill_color: Color,
    pub stroke_color: Color,
    pub point_fill_color: Color,
    pub point_stroke_color: Color,
    pub point_type: PointType,
    pub point_visible: bool,
    pub point_label_visible: bool,
    pub point_label_position: PointLabelPosition,
    pub data: Vec<FloatBits>,
}

/// Spec model of [`AreaView`].
pub struct SpecAreaView {
    pub x_scale: SpecBandScale,
    pub y_scale: LinearScale,
    pub fill_color: SpecColor,
    pub stroke_color: SpecColor,
    pub point_fill_color: SpecColor,
    pub point_stroke_color: SpecColor,
    pub point_type: PointType,
    pub point_visible: bool,
    pub point_label_visible: bool,
    pub point_label_position: PointLabelPosition,
    pub data: Seq<FloatBits>,
}

impl DeepView for AreaView {
    type V = SpecAreaView;

    open spec fn deep_view(&self) -> SpecAreaView {
        SpecAreaView {
            x_scale: self.x_scale.deep_view(),
            y_scale: self.y_scale,
            fill_color: self.fill_color.deep_view(),
            stroke_color: self.stroke_color.deep_view(),
            point_fill_color: self.point_fill_color.deep_view(),
            point_stroke_color: self.point_stroke_color.deep_view(),
            point_type: self.point_type,
            point_visible: self.point_visible,
            point_label_visible: self.point_label_visible,
            point_label_position: self.point_label_position,
            data: self.data.deep_view(),
        }
    }
}

/// A resolved line view: scalar data over a band horizontal scale and a
/// linear vertical scale, with stroke and point colors and all point
/// attributes.
#[derive(Clone, Debug, PartialEq, Eq)]
pub struct LineView {
    pub x_scale: BandScale,
    pub y_scale: LinearScale,
    pub stroke_color: Color,
    pub point_fill_color: Color,
    pub point_stroke_color: Color,
    pub point_type: PointType,
    pub point_visible: bool,
    pub point_label_visible: bool,
    pub point_label_position: PointLabelPosition,
    pub data: Vec<FloatBits>,
}

/// Spec model of [`LineView`].
pub struct SpecLineView {
    pub x_scale: SpecBandScale,
    pub y_scale: LinearScale,
    pub stroke_color: SpecColor,
    pub point_fill_color: SpecColor,
    pub point_stroke_color: SpecColor,
    pub point_type: PointType,
    pub point_visible: bool,
    pub point_label_visible: bool,
    pub point_label_position: PointLabelPosition,
    pub data: Seq<FloatBits>,
}

impl DeepView for LineView {
    type V = SpecLineView;

    open spec fn deep_view(&self) -> SpecLineView {
        SpecLineView {
            x_scale: self.x_scale.deep_view(),
            y_scale: self.y_scale,
            stroke_color: self.stroke_color.deep_view(),
            point_fill_color: self.point_fill_color.deep_view(),
            point_stroke_color: self.point_stroke_color.deep_view(),
            point_type: self.point_type,
            point_visible: self.point_visible,
            point_label_visible: self.point_label_visible,
            point_label_position: self.point_label_position,
            data: self.data.deep_view(),
        }
    }
}

/// A resolved scatter view: point data over two linear scales, with point
/// colors and all point attributes.
#[derive(Clone, Debug, PartialEq, Eq)]
pub struct ScatterView {
    pub x_scale: LinearScale,
    pub y_scale: LinearScale,
    pub point_fill_color: Color,
    pub point_stroke_color: Color,
    pub point_type: PointType,
    pub point_visible: bool,
    pub point_label_visible: bool,
    pub point_label_position: PointLabelPosition,
    pub data: Vec<(FloatBits, FloatBits)>,
}

/// Spec model of [`ScatterView`].
pub struct SpecScatterView {
    pub x_scale: LinearScale,
    pub y_scale: LinearScale,
    pub point_fill_color: SpecColor,
    pub point_stroke_color: SpecColor,
    pub point_type: PointType,
    pub point_visible: bool,
    pub point_label_visible: bool,
    pub point_label_position: PointLabelPosition,
    pub data: Seq<(FloatBits, FloatBits)>,
}

impl DeepView for ScatterView {
    type V = SpecScatterView;

    open spec fn deep_view(&self) -> SpecScatterView {
        SpecScatterView {
            x_scale: self.x_scale,
            y_scale: self.y_scale,
            point_fill_color: self.point_fill_color.deep_view(),
            point_stroke_color: self.point_stroke_color.deep_view(),
            point_type: self.point_type,
            point_visible: self.point_visible,
            point_label_visible: self.point_label_visible,
            point_label_position: self.point_label_position,
            data: self.data.deep_view(),
        }
    }
}

/// A resolved horizontal bar view: bars data over a linear horizontal
/// scale and a band vertical scale, with bar label attributes.
#[derive(Clone, Debug, PartialEq, Eq)]
pub struct HorizontalBarView {
    pub x_scale: LinearScale,
    pub y_scale: BandScale,
    pub bar_label_visible: bool,
    pub bar_label_position: BarLabelPosition,
    pub data: Vec<BarsValues>,
}

/// Spec model of [`HorizontalBarView`].
pub struct SpecHorizontalBarView {
    pub x_scale: LinearScale,
    pub y_scale: SpecBandScale,
    pub bar_label_visible: bool,
    pub bar_label_position: BarLabelPosition,
    pub data: Seq<SpecResolvedBars>,
}

impl DeepView for HorizontalBarView {
    type V = SpecHorizontalBarView;

    open spec fn deep_view(&self) -> SpecHorizontalBarView {
        SpecHorizontalBarView {
            x_scale: self.x_scale,
            y_scale: self.y_scale.deep_view(),
            bar_label_visible: self.bar_label_visible,
            bar_label_position: self.bar_label_position,
            data: self.data.deep_view(),
        }
    }
}

/// A resolved vertical bar view: bars data over a band horizontal scale
/// and a linear vertical scale, with bar label attributes.
#[derive(Clone, Debug, PartialEq, Eq)]
pub struct VerticalBarView {
    pub x_scale: BandScale,
    pub y_scale: LinearScale,
    pub bar_label_visible: bool,
    pub bar_label_position: BarLabelPosition,
    pub data: Vec<BarsValues>,
}

/// Spec model of [`VerticalBarView`].
pub struct SpecVerticalBarView {
    pub x_scale: SpecBandScale,
    pub y_scale: LinearScale,
    pub bar_label_visible: bool,
    pub bar_label_position: BarLabelPosition,
    pub data: Seq<SpecResolvedBars>,
}

impl DeepView for VerticalBarView {
    type V = SpecVerticalBarView;

    open spec fn deep_view(&self) -> SpecVerticalBarView {
        SpecVerticalBarView {
            x_scale: self.x_scale.deep_view(),
            y_scale: self.y_scale,
            bar_label_visible: self.bar_label_visible,
            bar_label_position: self.bar_label_position,
            data: self.data.deep_view(),
        }
    }
}

/// A resolved view of any of the five kinds; self-sufficient for
/// rendering.
#[derive(Clone, Debug, PartialEq, Eq)]
pub enum ResolvedView {
    Area(AreaView),
    HorizontalBar(HorizontalBarView),
    Line(LineView),
    Scatter(ScatterView),
    VerticalBar(VerticalBarView),
}

/// Spec model of [`ResolvedView`].
pub enum SpecResolvedView {
    Area(SpecAreaView),
    HorizontalBar(SpecHorizontalBarView),
    Line(SpecLineView),
    Scatter(SpecScatterView),
    VerticalBar(SpecVerticalBarView),
}

impl DeepView for ResolvedView {
    type V = SpecResolvedView;

    open spec fn deep_view(&self) -> SpecResolvedView {
        match self {
            ResolvedView::Area(v) => SpecResolvedView::Area(v.deep_view()),
            ResolvedView::HorizontalBar(v) => SpecResolvedView::HorizontalBar(v.deep_view()),
            ResolvedView::Line(v) => SpecResolvedView::Line(v.deep_view()),
            ResolvedView::Scatter(v) => SpecResolvedView::Scatter(v.deep_view()),
            ResolvedView::VerticalBar(v) => SpecResolvedView::VerticalBar(v.deep_view()),
        }
    }
}

/// What area view resolution returns, checking in order: scalar payload,
/// the horizontal axis kind (which must be band for this view's
/// horizontal role), band horizontal scale, the vertical axis kind
/// (which must be linear for this view's vertical role), linear vertical
/// scale, point type, point label position, the color bundle, its fill,
/// stroke, point fill and point stroke slots, point visibility, point
/// label visibility.
pub open spec fn spec_get_area_view(
    v: SpecChartView,
    h_scale: SpecChartScale,
    v_scale: SpecChartScale,
) -> Result<SpecAreaView, RendererError> {
    match spec_get_scalar_values(v) {
        Err(e) => Err(e),
        Ok(data) => if h_scale.spec_kind() != ChartScaleKind::Band {
            Err(RendererError::HorizontalAxisForAreaViewIsNotBand)
        } else {
            match spec_get_band_scale(h_scale) {
            Err(e) => Err(e),
            Ok(x_scale) => if v_scale.spec_kind() != ChartScaleKind::Linear {
                Err(RendererError::VerticalAxisForAreaViewIsNotLinear)
            } else {
                match spec_get_linear_scale(v_scale) {
                Err(e) => Err(e),
                Ok(y_scale) => match spec_get_point_type(v.point_type) {
                    Err(e) => Err(e),
                    Ok(point_type) => match spec_get_point_label_position(v.point_label_position) {
                        Err(e) => Err(e),
                        Ok(point_label_position) => match spec_get_view_colors(v.colors) {
                            Err(e) => Err(e),
                            Ok(colors) => match colors.fill_color {
                                None => Err(RendererError::FillColorForAreaViewIsNotSpecified),
                                Some(fill_color) => match colors.stroke_color {
                                    None => Err(
                                        RendererError::StrokeColorForAreaViewIsNotSpecified,
                                    ),
                                    Some(stroke_color) => match colors.point_fill_color {
                                        None => Err(
                                            RendererError::PointFillColorForAreaViewIsNotSpecified,
                                        ),
                                        Some(point_fill_color) => match colors.point_stroke_color {
                                            None => Err(
                                                RendererError::PointStrokeColorForAreaViewIsNotSpecified,
                                            ),
                                            Some(point_stroke_color) => match v.point_visible {
                                                None => Err(
                                                    RendererError::PointVisibilityForAreaViewIsNotSpecified,
                                                ),
                                                Some(point_visible) => match v
                                                    .point_label_visible {
                                                    None => Err(
                                                        RendererError::PointLabelVisibilityForAreaViewIsNotSpecified,
                                                    ),
                                                    Some(point_label_visible) => Ok(
                                                        SpecAreaView {
                                                            x_scale,
                                                            y_scale,
                                                            fill_color,
                                                            stroke_color,
                                                            point_fill_color,
                                                            point_stroke_color,
                                                            point_type,
                                                            point_visible,
                                                            point_label_visible,
                                                            point_label_position,
                                                            data,
                                                        },
                                                    ),
                                                },
                                            },
                                        },
                                    },
                                },
                            },
                        },
                    },
                },
                }
            },
            }
        },
    }
}

/// Resolve one view as an area view.
pub fn get_area_view(view: &ChartView, h_scale: &ChartScale, v_scale: &ChartScale) -> (r: Result<
    AreaView,
    RendererError,
>)
    ensures
        (r matches Ok(v) ==> spec_get_area_view(
            view.deep_view(),
            h_scale.deep_view(),
            v_scale.deep_view(),
        ) == Ok::<SpecAreaView, RendererError>(v.deep_view())),
        (r matches Err(e) ==> spec_get_area_view(
            view.deep_view(),
            h_scale.deep_view(),
            v_scale.deep_view(),
        ) == Err::<SpecAreaView, RendererError>(e)),
{
    let data = match get_scalar_values(view) {
        Ok(data) => data,
        Err(err) => {
            return Err(err);
        },
    };
    match h_scale.kind() {
        ChartScaleKind::Band => {},
        _ => {
            return Err(RendererError::HorizontalAxisForAreaViewIsNotBand);
        },
    }
    let x_scale = match get_band_h_scale(h_scale) {
        Ok(x_scale) => x_scale,
        Err(err) => {
            return Err(err);
        },
    };
    match v_scale.kind() {
        ChartScaleKind::Linear => {},
        _ => {
            return Err(RendererError::VerticalAxisForAreaViewIsNotLinear);
        },
    }
    let y_scale = match get_linear_v_scale(v_scale) {
        Ok(y_scale) => y_scale,
        Err(err) => {
            return Err(err);
        },
    };
    let point_type = match get_point_type(view) {
        Ok(point_type) => point_type,
        Err(err) => {
            return Err(err);
        },
    };
    let point_label_position = match get_point_label_position(view) {
        Ok(point_label_position) => point_label_position,
        Err(err) => {
            return Err(err);
        },
    };
    let view_colors = match get_view_colors(&view.colors) {
        Ok(view_colors) => view_colors,
        Err(err) => {
            return Err(err);
        },
    };
    let fill_color = match view_colors.fill_color {
        Some(fill_color) => fill_color,
        None => {
            return Err(RendererError::FillColorForAreaViewIsNotSpecified);
        },
    };
    let stroke_color = match view_colors.stroke_color {
        Some(stroke_color) => stroke_color,
        None => {
            return Err(RendererError::StrokeColorForAreaViewIsNotSpecified);
        },
    };
    let point_fill_color = match view_colors.point_fill_color {
        Some(point_fill_color) => point_fill_color,
        None => {
            return Err(RendererError::PointFillColorForAreaViewIsNotSpecified);
        },
    };
    let point_stroke_color = match view_colors.point_stroke_color {
        Some(point_stroke_color) => point_stroke_color,
        None => {
            return Err(RendererError::PointStrokeColorForAreaViewIsNotSpecified);
        },
    };
    let point_visible = match view.point_visible {
        Some(point_visible) => point_visible,
        None => {
            return Err(RendererError::PointVisibilityForAreaViewIsNotSpecified);
        },
    };
    let point_label_visible = match view.point_label_visible {
        Some(point_label_visible) => point_label_visible,
        None => {
            return Err(RendererError::PointLabelVisibilityForAreaViewIsNotSpecified);
        },
    };
    Ok(
        AreaView {
            x_scale,
            y_scale,
            fill_color,
            stroke_color,
            point_fill_color,
            point_stroke_color,
            point_type,
            point_visible,
            point_label_visible,
            point_label_position,
            data,
        },
    )
}

/// What line view resolution returns, checking in order: scalar payload,
/// the horizontal axis kind (which must be band for this view's
/// horizontal role), band horizontal scale, the vertical axis kind
/// (which must be linear for this view's vertical role), linear vertical
/// scale, point type, point label position, the color bundle, its
/// stroke, point fill and point stroke slots, point visibility, point
/// label visibility.
pub open spec fn spec_get_line_view(
    v: SpecChartView,
    h_scale: SpecChartScale,
    v_scale: SpecChartScale,
) -> Result<SpecLineView, RendererError> {
    match spec_get_scalar_values(v) {
        Err(e) => Err(e),
        Ok(data) => if h_scale.spec_kind() != ChartScaleKind::Band {
            Err(RendererError::HorizontalAxisForLineViewIsNotBand)
        } else {
            match spec_get_band_scale(h_scale) {
            Err(e) => Err(e),
            Ok(x_scale) => if v_scale.spec_kind() != ChartScaleKind::Linear {
                Err(RendererError::VerticalAxisForLineViewIsNotLinear)
            } else {
                match spec_get_linear_scale(v_scale) {
                Err(e) => Err(e),
                Ok(y_scale) => match spec_get_point_type(v.point_type) {
                    Err(e) => Err(e),
                    Ok(point_type) => match spec_get_point_label_position(v.point_label_position) {
                        Err(e) => Err(e),
                        Ok(point_label_position) => match spec_get_view_colors(v.colors) {
                            Err(e) => Err(e),
                            Ok(colors) => match colors.stroke_color {
                                None => Err(RendererError::StrokeColorForLineViewIsNotSpecified),
                                Some(stroke_color) => match colors.point_fill_color {
                                    None => Err(
                                        RendererError::PointFillColorForLineViewIsNotSpecified,
                                    ),
                                    Some(point_fill_color) => match colors.point_stroke_color {
                                        None => Err(
                                            RendererError::PointStrokeColorForLineViewIsNotSpecified,
                                        ),
                                        Some(point_stroke_color) => match v.point_visible {
                                            None => Err(
                                                RendererError::PointVisibilityForLineViewIsNotSpecified,
                                            ),
                                            Some(point_visible) => match v.point_label_visible {
                                                None => Err(
                                                    RendererError::PointLabelVisibilityForLineViewIsNotSpecified,
                                                ),
                                                Some(point_label_visible) => Ok(
                                                    SpecLineView {
                                                        x_scale,
                                                        y_scale,
                                                        stroke_color,
                                                        point_fill_color,
                                                        point_stroke_color,
                                                        point_type,
                                                        point_visible,
                                                        point_label_visible,
                                                        point_label_position,
                                                        data,
                                                    },
                                                ),
                                            },
                                        },
                                    },
                                },
                            },
                        },
                    },
                },
                }
            },
            }
        },
    }
}

/// Resolve one view as a line view.
pub fn get_line_view(view: &ChartView, h_scale: &ChartScale, v_scale: &ChartScale) -> (r: Result<
    LineView,
    RendererError,
>)
    ensures
        (r matches Ok(v) ==> spec_get_line_view(
            view.deep_view(),
            h_scale.deep_view(),
            v_scale.deep_view(),
        ) == Ok::<SpecLineView, RendererError>(v.deep_view())),
        (r matches Err(e) ==> spec_get_line_view(
            view.deep_view(),
            h_scale.deep_view(),
            v_scale.deep_view(),
        ) == Err::<SpecLineView, RendererError>(e)),
{
    let data = match get_scalar_values(view) {
        Ok(data) => data,
        Err(err) => {
            return Err(err);
        },
    };
    match h_scale.kind() {
        ChartScaleKind::Band => {},
        _ => {
            return Err(RendererError::HorizontalAxisForLineViewIsNotBand);
        },
    }
    let x_scale = match get_band_h_scale(h_scale) {
        Ok(x_scale) => x_scale,
        Err(err) => {
            return Err(err);
        },
    };
    match v_scale.kind() {
        ChartScaleKind::Linear => {},
        _ => {
            return Err(RendererError::VerticalAxisForLineViewIsNotLinear);
        },
    }
    let y_scale = match get_linear_v_scale(v_scale) {
        Ok(y_scale) => y_scale,
        Err(err) => {
            return Err(err);
        },
    };
    let point_type = match get_point_type(view) {
        Ok(point_type) => point_type,
        Err(err) => {
            return Err(err);
        },
    };
    let point_label_position = match get_point_label_position(view) {
        Ok(point_label_position) => point_label_position,
        Err(err) => {
            return Err(err);
        },
    };
    let view_colors = match get_view_colors(&view.colors) {
        Ok(view_colors) => view_colors,
        Err(err) => {
            return Err(err);
        },
    };
    let stroke_color = match view_colors.stroke_color {
        Some(stroke_color) => stroke_color,
        None => {
            return Err(RendererError::StrokeColorForLineViewIsNotSpecified);
        },
    };
    let point_fill_color = match view_colors.point_fill_color {
        Some(point_fill_color) => point_fill_color,
        None => {
            return Err(RendererError::PointFillColorForLineViewIsNotSpecified);
        },
    };
    let point_stroke_color = match view_colors.point_stroke_color {
        Some(point_stroke_color) => point_stroke_color,
        None => {
            return Err(RendererError::PointStrokeColorForLineViewIsNotSpecified);
        },
    };
    let point_visible = match view.point_visible {
        Some(point_visible) => point_visible,
        None => {
            return Err(RendererError::PointVisibilityForLineViewIsNotSpecified);
        },
    };
    let point_label_visible = match view.point_label_visible {
        Some(point_label_visible) => point_label_visible,
        None => {
            return Err(RendererError::PointLabelVisibilityForLineViewIsNotSpecified);
        },
    };
    Ok(
        LineView {
            x_scale,
            y_scale,
            stroke_color,
            point_fill_color,
            point_stroke_color,
            point_type,
            point_visible,
            point_label_visible,
            point_label_position,
            data,
        },
    )
}

/// What scatter view resolution returns, checking in order: points
/// payload, the horizontal axis kind (which must be linear for this
/// view's horizontal role), linear horizontal scale, the vertical axis
/// kind (which must be linear for this view's vertical role), linear
/// vertical scale, point type, point label position, the color bundle,
/// its point fill and point stroke slots, point visibility, point label
/// visibility.
pub open spec fn spec_get_scatter_view(
    v: SpecChartView,
    h_scale: SpecChartScale,
    v_scale: SpecChartScale,
) -> Result<SpecScatterView, RendererError> {
    match spec_get_points_values(v) {
        Err(e) => Err(e),
        Ok(data) => if h_scale.spec_kind() != ChartScaleKind::Linear {
            Err(RendererError::HorizontalAxisForScatterViewIsNotLinear)
        } else {
            match spec_get_linear_scale(h_scale) {
            Err(e) => Err(e),
            Ok(x_scale) => if v_scale.spec_kind() != ChartScaleKind::Linear {
                Err(RendererError::VerticalAxisForScatterViewIsNotLinear)
            } else {
                match spec_get_linear_scale(v_scale) {
                Err(e) => Err(e),
                Ok(y_scale) => match spec_get_point_type(v.point_type) {
                    Err(e) => Err(e),
                    Ok(point_type) => match spec_get_point_label_position(v.point_label_position) {
                        Err(e) => Err(e),
                        Ok(point_label_position) => match spec_get_view_colors(v.colors) {
                            Err(e) => Err(e),
                            Ok(colors) => match colors.point_fill_color {
                                None => Err(
                                    RendererError::PointFillColorForScatterViewIsNotSpecified,
                                ),
                                Some(point_fill_color) => match colors.point_stroke_color {
                                    None => Err(
                                        RendererError::PointStrokeColorForScatterViewIsNotSpecified,
                                    ),
                                    Some(point_stroke_color) => match v.point_visible {
                                        None => Err(
                                            RendererError::PointVisibilityForScatterViewIsNotSpecified,
                                        ),
                                        Some(point_visible) => match v.point_label_visible {
                                            None => Err(
                                                RendererError::PointLabelVisibilityForScatterViewIsNotSpecified,
                                            ),
                                            Some(point_label_visible) => Ok(
                                                SpecScatterView {
                                                    x_scale,
                                                    y_scale,
                                                    point_fill_color,
                                                    point_stroke_color,
                                                    point_type,
                                                    point_visible,
                                                    point_label_visible,
                                                    point_label_position,
                                                    data,
                                                },
                                            ),
                                        },
                                    },
                                },
                            },
                        },
                    },
                },
                }
            },
            }
        },
    }
}

/// Resolve one view as a scatter view.
pub fn get_scatter_view(view: &ChartView, h_scale: &ChartScale, v_scale: &ChartScale) -> (r:
    Result<ScatterView, RendererError>)
    ensures
        (r matches Ok(v) ==> spec_get_scatter_view(
            view.deep_view(),
            h_scale.deep_view(),
            v_scale.deep_view(),
        ) == Ok::<SpecScatterView, RendererError>(v.deep_view())),
        (r matches Err(e) ==> spec_get_scatter_view(
            view.deep_view(),
            h_scale.deep_view(),
            v_scale.deep_view(),
        ) == Err::<SpecScatterView, RendererError>(e)),
{
    let data = match get_points_values(view) {
        Ok(data) => data,
        Err(err) => {
            return Err(err);
        },
    };
    match h_scale.kind() {
        ChartScaleKind::Linear => {},
        _ => {
            return Err(RendererError::HorizontalAxisForScatterViewIsNotLinear);
        },
    }
    let x_scale = match get_linear_h_scale(h_scale) {
        Ok(x_scale) => x_scale,
        Err(err) => {
            return Err(err);
        },
    };
    match v_scale.kind() {
        ChartScaleKind::Linear => {},
        _ => {
            return Err(RendererError::VerticalAxisForScatterViewIsNotLinear);
        },
    }
    let y_scale = match get_linear_v_scale(v_scale) {
        Ok(y_scale) => y_scale,
        Err(err) => {
            return Err(err);
        },
    };
    let point_type = match get_point_type(view) {
        Ok(point_type) => point_type,
        Err(err) => {
            return Err(err);
        },
    };
    let point_label_position = match get_point_label_position(view) {
        Ok(point_label_position) => point_label_position,
        Err(err) => {
            return Err(err);
        },
    };
    let view_colors = match get_view_colors(&view.colors) {
        Ok(view_colors) => view_colors,
        Err(err) => {
            return Err(err);
        },
    };
    let point_fill_color = match view_colors.point_fill_color {
        Some(point_fill_color) => point_fill_color,
        None => {
            return Err(RendererError::PointFillColorForScatterViewIsNotSpecified);
        },
    };
    let point_stroke_color = match view_colors.point_stroke_color {
        Some(point_stroke_color) => point_stroke_color,
        None => {
            return Err(RendererError::PointStrokeColorForScatterViewIsNotSpecified);
        },
    };
    let point_visible = match view.point_visible {
        Some(point_visible) => point_visible,
        None => {
            return Err(RendererError::PointVisibilityForScatterViewIsNotSpecified);
        },
    };
    let point_label_visible = match view.point_label_visible {
        Some(point_label_visible) => point_label_visible,
        None => {
            return Err(RendererError::PointLabelVisibilityForScatterViewIsNotSpecified);
        },
    };
    Ok(
        ScatterView {
            x_scale,
            y_scale,
            point_fill_color,
            point_stroke_color,
            point_type,
            point_visible,
            point_label_visible,
            point_label_position,
            data,
        },
    )
}

/// What horizontal bar view resolution returns, checking in order: bars
/// payload, the horizontal axis kind (which must be linear for this
/// view's horizontal role), linear horizontal scale, the vertical axis
/// kind (which must be band for this view's vertical role), band
/// vertical scale, bar label position, bar label visibility.
pub open spec fn spec_get_horizontal_bar_view(
    v: SpecChartView,
    h_scale: SpecChartScale,
    v_scale: SpecChartScale,
) -> Result<SpecHorizontalBarView, RendererError> {
    match spec_get_bars_values(v) {
        Err(e) => Err(e),
        Ok(data) => if h_scale.spec_kind() != ChartScaleKind::Linear {
            Err(RendererError::HorizontalAxisForHorizontalBarViewIsNotLinear)
        } else {
            match spec_get_linear_scale(h_scale) {
                Err(e) => Err(e),
                Ok(x_scale) => if v_scale.spec_kind() != ChartScaleKind::Band {
                    Err(RendererError::VerticalAxisForHorizontalBarViewIsNotBand)
                } else {
                    match spec_get_band_scale(v_scale) {
                        Err(e) => Err(e),
                        Ok(y_scale) => match spec_get_bar_label_position(
                            v.bar_label_position,
                        ) {
                            Err(e) => Err(e),
                            Ok(bar_label_position) => match v.bar_label_visible {
                                None => Err(
                                    RendererError::BarLabelVisibilityForHorizontalBarViewIsNotSpecified,
                                ),
                                Some(bar_label_visible) => Ok(
                                    SpecHorizontalBarView {
                                        x_scale,
                                        y_scale,
                                        bar_label_visible,
                                        bar_label_position,
                                        data,
                                    },
                                ),
                            },
                        },
                    }
                },
            }
        },
    }
}

/// Resolve one view as a horizontal bar view.
pub fn get_horizontal_bar_view(
    view: &ChartView,
    h_scale: &ChartScale,
    v_scale: &ChartScale,
) -> (r: Result<HorizontalBarView, RendererError>)
    ensures
        (r matches Ok(v) ==> spec_get_horizontal_bar_view(
            view.deep_view(),
            h_scale.deep_view(),
            v_scale.deep_view(),
        ) == Ok::<SpecHorizontalBarView, RendererError>(v.deep_view())),
        (r matches Err(e) ==> spec_get_horizontal_bar_view(
            view.deep_view(),
            h_scale.deep_view(),
            v_scale.deep_view(),
        ) == Err::<SpecHorizontalBarView, RendererError>(e)),
{
    let data = match get_bars_values(view) {
        Ok(data) => data,
        Err(err) => {
            return Err(err);
        },
    };
    match h_scale.kind() {
        ChartScaleKind::Linear => {},
        _ => {
            return Err(RendererError::HorizontalAxisForHorizontalBarViewIsNotLinear);
        },
    }
    let x_scale = match get_linear_h_scale(h_scale) {
        Ok(x_scale) => x_scale,
        Err(err) => {
            return Err(err);
        },
    };
    match v_scale.kind() {
        ChartScaleKind::Band => {},
        _ => {
            return Err(RendererError::VerticalAxisForHorizontalBarViewIsNotBand);
        },
    }
    let y_scale = match get_band_v_scale(v_scale) {
        Ok(y_scale) => y_scale,
        Err(err) => {
            return Err(err);
        },
    };
    let bar_label_position = match get_bar_label_position(view) {
        Ok(bar_label_position) => bar_label_position,
        Err(err) => {
            return Err(err);
        },
    };
    let bar_label_visible = match view.bar_label_visible {
        Some(bar_label_visible) => bar_label_visible,
        None => {
            return Err(RendererError::BarLabelVisibilityForHorizontalBarViewIsNotSpecified);
        },
    };
    Ok(HorizontalBarView { x_scale, y_scale, bar_label_visible, bar_label_position, data })
}

/// What vertical bar view resolution returns, checking in order: bars
/// payload, the horizontal axis kind (which must be band for this view's
/// horizontal role), band horizontal scale, the vertical axis kind
/// (which must be linear for this view's vertical role), linear vertical
/// scale, bar label position, bar label visibility.
pub open spec fn spec_get_vertical_bar_view(
    v: SpecChartView,
    h_scale: SpecChartScale,
    v_scale: SpecChartScale,
) -> Result<SpecVerticalBarView, RendererError> {
    match spec_get_bars_values(v) {
        Err(e) => Err(e),
        Ok(data) => if h_scale.spec_kind() != ChartScaleKind::Band {
            Err(RendererError::HorizontalAxisForVerticalBarViewIsNotBand)
        } else {
            match spec_get_band_scale(h_scale) {
                Err(e) => Err(e),
                Ok(x_scale) => if v_scale.spec_kind() != ChartScaleKind::Linear {
                    Err(RendererError::VerticalAxisForVerticalBarViewIsNotLinear)
                } else {
                    match spec_get_linear_scale(v_scale) {
                        Err(e) => Err(e),
                        Ok(y_scale) => match spec_get_bar_label_position(
                            v.bar_label_position,
                        ) {
                            Err(e) => Err(e),
                            Ok(bar_label_position) => match v.bar_label_visible {
                                None => Err(
                                    RendererError::BarLabelVisibilityForVerticalBarViewIsNotSpecified,
                                ),
                                Some(bar_label_visible) => Ok(
                                    SpecVerticalBarView {
                                        x_scale,
                                        y_scale,
                                        bar_label_visible,
                                        bar_label_position,
                                        data,
                                    },
                                ),
                            },
                        },
                    }
                },
            }
        },
    }
}

/// Resolve one view as a vertical bar view.
pub fn get_vertical_bar_view(view: &ChartView, h_scale: &ChartScale, v_scale: &ChartScale) -> (r:
    Result<VerticalBarView, RendererError>)
    ensures
        (r matches Ok(v) ==> spec_get_vertical_bar_view(
            view.deep_view(),
            h_scale.deep_view(),
            v_scale.deep_view(),
        ) == Ok::<SpecVerticalBarView, RendererError>(v.deep_view())),
        (r matches Err(e) ==> spec_get_vertical_bar_view(
            view.deep_view(),
            h_scale.deep_view(),
            v_scale.deep_view(),
        ) == Err::<SpecVerticalBarView, RendererError>(e)),
{
    let data = match get_bars_values(view) {
        Ok(data) => data,
        Err(err) => {
            return Err(err);
        },
    };
    match h_scale.kind() {
        ChartScaleKind::Band => {},
        _ => {
            return Err(RendererError::HorizontalAxisForVerticalBarViewIsNotBand);
        },
    }
    let x_scale = match get_band_h_scale(h_scale) {
        Ok(x_scale) => x_scale,
        Err(err) => {
            return Err(err);
        },
    };
    match v_scale.kind() {
        ChartScaleKind::Linear => {},
        _ => {
            return Err(RendererError::VerticalAxisForVerticalBarViewIsNotLinear);
        },
    }
    let y_scale = match get_linear_v_scale(v_scale) {
        Ok(y_scale) => y_scale,
        Err(err) => {
            return Err(err);
        },
    };
    let bar_label_position = match get_bar_label_position(view) {
        Ok(bar_label_position) => bar_label_position,
        Err(err) => {
            return Err(err);
        },
    };
    let bar_label_visible = match view.bar_label_visible {
        Some(bar_label_visible) => bar_label_visible,
        None => {
            return Err(RendererError::BarLabelVisibilityForVerticalBarViewIsNotSpecified);
        },
    };
    Ok(VerticalBarView { x_scale, y_scale, bar_label_visible, bar_label_position, data })
}

/// What the resolution of one view returns: dispatch on the wire view
/// kind tag; an unknown tag, including the unspecified sentinel, is a
/// hard failure — there is no default view kind.
pub open spec fn spec_get_view(
    v: SpecChartView,
    h_scale: SpecChartScale,
    v_scale: SpecChartScale,
) -> Result<SpecResolvedView, RendererError> {
    if v.kind == 1 {
        match spec_get_area_view(v, h_scale, v_scale) {
            Ok(view) => Ok(SpecResolvedView::Area(view)),
            Err(e) => Err(e),
        }
    } else if v.kind == 2 {
        match spec_get_horizontal_bar_view(v, h_scale, v_scale) {
            Ok(view) => Ok(SpecResolvedView::HorizontalBar(view)),
            Err(e) => Err(e),
        }
    } else if v.kind == 3 {
        match spec_get_line_view(v, h_scale, v_scale) {
            Ok(view) => Ok(SpecResolvedView::Line(view)),
            Err(e) => Err(e),
        }
    } else if v.kind == 4 {
        match spec_get_scatter_view(v, h_scale, v_scale) {
            Ok(view) => Ok(SpecResolvedView::Scatter(view)),
            Err(e) => Err(e),
        }
    } else if v.kind == 5 {
        match spec_get_vertical_bar_view(v, h_scale, v_scale) {
            Ok(view) => Ok(SpecResolvedView::VerticalBar(view)),
            Err(e) => Err(e),
        }
    } else {
        Err(RendererError::ViewKindIsUnknown)
    }
}

/// Resolve one view by its wire kind tag.
fn get_view(view: &ChartView, h_scale: &ChartScale, v_scale: &ChartScale) -> (r: Result<
    ResolvedView,
    RendererError,
>)
    ensures
        (r matches Ok(v) ==> spec_get_view(
            view.deep_view(),
            h_scale.deep_view(),
            v_scale.deep_view(),
        ) == Ok::<SpecResolvedView, RendererError>(v.deep_view())),
        (r matches Err(e) ==> spec_get_view(
            view.deep_view(),
            h_scale.deep_view(),
            v_scale.deep_view(),
        ) == Err::<SpecResolvedView, RendererError>(e)),
{
    if view.kind == 1 {
        match get_area_view(view, h_scale, v_scale) {
            Ok(v) => Ok(ResolvedView::Area(v)),
            Err(e) => Err(e),
        }
    } else if view.kind == 2 {
        match get_horizontal_bar_view(view, h_scale, v_scale) {
            Ok(v) => Ok(ResolvedView::HorizontalBar(v)),
            Err(e) => Err(e),
        }
    } else if view.kind == 3 {
        match get_line_view(view, h_scale, v_scale) {
            Ok(v) => Ok(ResolvedView::Line(v)),
            Err(e) => Err(e),
        }
    } else if view.kind == 4 {
        match get_scatter_view(view, h_scale, v_scale) {
            Ok(v) => Ok(ResolvedView::Scatter(v)),
            Err(e) => Err(e),
        }
    } else if view.kind == 5 {
        match get_vertical_bar_view(view, h_scale, v_scale) {
            Ok(v) => Ok(ResolvedView::VerticalBar(v)),
            Err(e) => Err(e),
        }
    } else {
        Err(RendererError::ViewKindIsUnknown)
    }
}

/// What the resolution of an ordered list of views returns: each view
/// resolved in request order against the two shared wire scales, stopping
/// at the first failing view.
pub open spec fn spec_get_views_list(
    views: Seq<SpecChartView>,
    h_scale: SpecChartScale,
    v_scale: SpecChartScale,
) -> Result<Seq<SpecResolvedView>, RendererError>
    decreases views.len(),
{
    if views.len() == 0 {
        Ok(Seq::empty())
    } else {
        match spec_get_views_list(views.drop_last(), h_scale, v_scale) {
            Err(e) => Err(e),
            Ok(rest) => match spec_get_view(views.last(), h_scale, v_scale) {
                Err(e) => Err(e),
                Ok(v) => Ok(rest.push(v)),
            },
        }
    }
}

/// Once a prefix of the view list fails, the whole list fails with that
/// same first error.
proof fn lemma_views_list_err_persists(
    views: Seq<SpecChartView>,
    h_scale: SpecChartScale,
    v_scale: SpecChartScale,
    i: int,
)
    requires
        0 <= i <= views.len(),
        spec_get_views_list(views.take(i), h_scale, v_scale) is Err,
    ensures
        spec_get_views_list(views, h_scale, v_scale) == spec_get_views_list(
            views.take(i),
            h_scale,
            v_scale,
        ),
    decreases views.len() - i,
{
    if i == views.len() {
        assert(views.take(i) =~= views);
    } else {
        assert(views.take(i + 1).drop_last() =~= views.take(i));
        assert(spec_get_views_list(views.take(i + 1), h_scale, v_scale) == spec_get_views_list(
            views.take(i),
            h_scale,
            v_scale,
        ));
        lemma_views_list_err_persists(views, h_scale, v_scale, i + 1);
    }
}

/// Resolve every view of a request in order against the two shared wire
/// scales, stopping at the first failing view.
pub fn get_views(views: &Vec<ChartView>, h_scale: &ChartScale, v_scale: &ChartScale) -> (r: Result<
    Vec<ResolvedView>,
    RendererError,
>)
    ensures
        (r matches Ok(v) ==> spec_get_views_list(
            views.deep_view(),
            h_scale.deep_view(),
            v_scale.deep_view(),
        ) == Ok::<Seq<SpecResolvedView>, RendererError>(v.deep_view())),
        (r matches Err(e) ==> spec_get_views_list(
            views.deep_view(),
            h_scale.deep_view(),
            v_scale.deep_view(),
        ) == Err::<Seq<SpecResolvedView>, RendererError>(e)),
{
    let ghost svs = views.deep_view();
    let mut result: Vec<ResolvedView> = Vec::new();
    let mut i: usize = 0;
    proof {
        assert(svs.take(0) =~= Seq::<SpecChartView>::empty());
        assert(result.deep_view() =~= Seq::<SpecResolvedView>::empty());
    }
    while i < views.len()
        invariant
            i <= views.len(),
            svs == views.deep_view(),
            svs.len() == views@.len(),
            spec_get_views_list(svs.take(i as int), h_scale.deep_view(), v_scale.deep_view())
                == Ok::<Seq<SpecResolvedView>, RendererError>(result.deep_view()),
        decreases views.len() - i,
    {
        let proto_view = &views[i];
        match get_view(proto_view, h_scale, v_scale) {
            Ok(v) => {
                result.push(v);
                proof {
                    assert(svs.take(i as int + 1).drop_last() =~= svs.take(i as int));
                    assert(result.deep_view() =~= spec_get_views_list(
                        svs.take(i as int + 1),
                        h_scale.deep_view(),
                        v_scale.deep_view(),
                    )->Ok_0);
                }
            },
            Err(e) => {
                proof {
                    assert(svs.take(i as int + 1).drop_last() =~= svs.take(i as int));
                    assert(spec_get_views_list(
                        svs.take(i as int + 1),
                        h_scale.deep_view(),
                        v_scale.deep_view(),
                    ) == Err::<Seq<SpecResolvedView>, RendererError>(e));
                    lemma_views_list_err_persists(
                        svs,
                        h_scale.deep_view(),
                        v_scale.deep_view(),
                        i as int + 1,
                    );
                }
                return Err(e);
            },
        }
        i += 1;
    }
    proof {
        assert(svs.take(svs.len() as int) =~= svs);
    }
    Ok(result)
}

/// When every view of a request resolves, the resolved list has exactly
/// one entry per view, in request order: the i-th resolved view comes
/// from the i-th wire view. Nothing is dropped, added or reordered.
pub proof fn lemma_views_resolved_in_order(
    views: Seq<SpecChartView>,
    h_scale: SpecChartScale,
    v_scale: SpecChartScale,
)
    requires
        forall|i: int|
            0 <= i < views.len() ==> #[trigger] spec_get_view(views[i], h_scale, v_scale) is Ok,
    ensures
        spec_get_views_list(views, h_scale, v_scale) is Ok,
        spec_get_views_list(views, h_scale, v_scale)->Ok_0.len() == views.len(),
        forall|i: int|
            0 <= i < views.len() ==> spec_get_views_list(views, h_scale, v_scale)->Ok_0[i]
                == #[trigger] spec_get_view(views[i], h_scale, v_scale)->Ok_0,
    decreases views.len(),
{
    if views.len() > 0 {
        assert(forall|i: int|
            0 <= i < views.drop_last().len() ==> #[trigger] spec_get_view(
                views.drop_last()[i],
                h_scale,
                v_scale,
            ) is Ok);
        lemma_views_resolved_in_order(views.drop_last(), h_scale, v_scale);
        assert(spec_get_view(views.last(), h_scale, v_scale) is Ok);
    }
}

/// An axis whose declared kind mismatches the role a view kind requires
/// of it is a hard cross-field failure for that view, with the named
/// error of that view kind and role, even where the axis's parameters
/// would resolve: area, line and vertical bar views require a band
/// horizontal axis; scatter and horizontal bar views require a linear
/// one; horizontal bar views require a band vertical axis; the other
/// four kinds require a linear one. The horizontal role is checked
/// first, once the payload has been extracted.
pub proof fn lemma_view_kinds_reject_role_mismatch(
    v: SpecChartView,
    h_scale: SpecChartScale,
    v_scale: SpecChartScale,
)
    ensures
        spec_get_scalar_values(v) is Ok && h_scale.spec_kind() != ChartScaleKind::Band
            ==> spec_get_area_view(v, h_scale, v_scale) == Err::<SpecAreaView, RendererError>(
            RendererError::HorizontalAxisForAreaViewIsNotBand,
        ) && spec_get_line_view(v, h_scale, v_scale) == Err::<SpecLineView, RendererError>(
            RendererError::HorizontalAxisForLineViewIsNotBand,
        ),
        spec_get_scalar_values(v) is Ok && h_scale.spec_kind() == ChartScaleKind::Band
            && spec_get_band_scale(h_scale) is Ok && v_scale.spec_kind()
            != ChartScaleKind::Linear ==> spec_get_area_view(v, h_scale, v_scale) == Err::<
            SpecAreaView,
            RendererError,
        >(RendererError::VerticalAxisForAreaViewIsNotLinear) && spec_get_line_view(
            v,
            h_scale,
            v_scale,
        ) == Err::<SpecLineView, RendererError>(RendererError::VerticalAxisForLineViewIsNotLinear),
        spec_get_points_values(v) is Ok && h_scale.spec_kind() != ChartScaleKind::Linear
            ==> spec_get_scatter_view(v, h_scale, v_scale) == Err::<
            SpecScatterView,
            RendererError,
        >(RendererError::HorizontalAxisForScatterViewIsNotLinear),
        spec_get_points_values(v) is Ok && h_scale.spec_kind() == ChartScaleKind::Linear
            && spec_get_linear_scale(h_scale) is Ok && v_scale.spec_kind()
            != ChartScaleKind::Linear ==> spec_get_scatter_view(v, h_scale, v_scale) == Err::<
            SpecScatterView,
            RendererError,
        >(RendererError::VerticalAxisForScatterViewIsNotLinear),
        spec_get_bars_values(v) is Ok && h_scale.spec_kind() != ChartScaleKind::Linear
            ==> spec_get_horizontal_bar_view(v, h_scale, v_scale) == Err::<
            SpecHorizontalBarView,
            RendererError,
        >(RendererError::HorizontalAxisForHorizontalBarViewIsNotLinear),
        spec_get_bars_values(v) is Ok && h_scale.spec_kind() == ChartScaleKind::Linear
            && spec_get_linear_scale(h_scale) is Ok && v_scale.spec_kind()
            != ChartScaleKind::Band ==> spec_get_horizontal_bar_view(v, h_scale, v_scale)
            == Err::<SpecHorizontalBarView, RendererError>(
            RendererError::VerticalAxisForHorizontalBarViewIsNotBand,
        ),
        spec_get_bars_values(v) is Ok && h_scale.spec_kind() != ChartScaleKind::Band
            ==> spec_get_vertical_bar_view(v, h_scale, v_scale) == Err::<
            SpecVerticalBarView,
            RendererError,
        >(RendererError::HorizontalAxisForVerticalBarViewIsNotBand),
        spec_get_bars_values(v) is Ok && h_scale.spec_kind() == ChartScaleKind::Band
            && spec_get_band_scale(h_scale) is Ok && v_scale.spec_kind()
            != ChartScaleKind::Linear ==> spec_get_vertical_bar_view(v, h_scale, v_scale)
            == Err::<SpecVerticalBarView, RendererError>(
            RendererError::VerticalAxisForVerticalBarViewIsNotLinear,
        ),
{
}

/// When a view list resolves as a whole, every single view of it
/// resolves, and the resolved list has exactly one entry per view, in
/// request order: the i-th resolved view comes from the i-th wire view.
pub proof fn lemma_views_list_ok_elementwise(
    views: Seq<SpecChartView>,
    h_scale: SpecChartScale,
    v_scale: SpecChartScale,
)
    requires
        spec_get_views_list(views, h_scale, v_scale) is Ok,
    ensures
        spec_get_views_list(views, h_scale, v_scale)->Ok_0.len() == views.len(),
        forall|i: int|
            0 <= i < views.len() ==> #[trigger] spec_get_view(views[i], h_scale, v_scale) is Ok,
        forall|i: int|
            0 <= i < views.len() ==> spec_get_views_list(views, h_scale, v_scale)->Ok_0[i]
                == #[trigger] spec_get_view(views[i], h_scale, v_scale)->Ok_0,
    decreases views.len(),
{
    if views.len() > 0 {
        lemma_views_list_ok_elementwise(views.drop_last(), h_scale, v_scale);
        assert(forall|i: int| 0 <= i < views.len() - 1 ==> views.drop_last()[i] == views[i]);
    }
}

/// Every view kind rejects payload variants other than its required one,
/// with the wrong-variant error of that requirement — a payload is never
/// silently coerced: area and line views require scalar values, scatter
/// views require points values, both bar view kinds require bars values.
pub proof fn lemma_view_kinds_reject_wrong_payload(
    v: SpecChartView,
    h_scale: SpecChartScale,
    v_scale: SpecChartScale,
)
    requires
        v.values is Some,
    ensures
        !(v.values->0 is ScalarValues) ==> spec_get_area_view(v, h_scale, v_scale) == Err::<
            SpecAreaView,
            RendererError,
        >(RendererError::ExpectedScalarValues),
        !(v.values->0 is ScalarValues) ==> spec_get_line_view(v, h_scale, v_scale) == Err::<
            SpecLineView,
            RendererError,
        >(RendererError::ExpectedScalarValues),
        !(v.values->0 is PointsValues) ==> spec_get_scatter_view(v, h_scale, v_scale) == Err::<
            SpecScatterView,
            RendererError,
        >(RendererError::ExpectedPointsValues),
        !(v.values->0 is BarsValues) ==> spec_get_horizontal_bar_view(v, h_scale, v_scale)
            == Err::<SpecHorizontalBarView, RendererError>(RendererError::ExpectedBarsValues),
        !(v.values->0 is BarsValues) ==> spec_get_vertical_bar_view(v, h_scale, v_scale) == Err::<
            SpecVerticalBarView,
            RendererError,
        >(RendererError::ExpectedBarsValues),
{
}

} // verus!
