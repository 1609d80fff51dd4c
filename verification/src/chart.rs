//! Assembly of the resolved chart model and the top-level resolution
//! pipeline.
//!
//! The pipeline sequences: axes present, horizontal and vertical axis
//! selection, sizes, margins, every view in request order, then each of
//! the four axis slots resolved onto the chart — short-circuiting on the
//! first failure. Assembly itself validates nothing: every input has
//! already passed its own checks.

use vstd::prelude::*;

use crate::error::RendererError;
use crate::margin::{get_margins, spec_get_margins};
use crate::scale::{
    get_band_h_scale, get_band_v_scale, get_h_scale, get_linear_h_scale, get_linear_v_scale,
    get_v_scale, spec_get_band_scale, spec_get_h_scale, spec_get_linear_scale, spec_get_v_scale,
    BandScale, LinearScale, SpecBandScale,
};
use crate::size::{get_sizes, spec_get_sizes};
use crate::view::{
    get_views, lemma_views_list_ok_elementwise, spec_get_view, spec_get_views_list, ResolvedView,
    SpecResolvedView,
};
use crate::wire::{ChartScale, RenderChartRequest, SpecChartScale, SpecRenderChartRequest};

verus! {

/// A resolved scale of either kind; a pure value, validated once.
#[derive(Clone, Debug, PartialEq, Eq)]
pub enum ResolvedScale {
    Linear(LinearScale),
    Band(BandScale),
}

/// Spec model of [`ResolvedScale`].
pub enum SpecResolvedScale {
    Linear(LinearScale),
    Band(SpecBandScale),
}

impl DeepView for ResolvedScale {
    type V = SpecResolvedScale;

    open spec fn deep_view(&self) -> SpecResolvedScale {
        match self {
            ResolvedScale::Linear(l) => SpecResolvedScale::Linear(*l),
            ResolvedScale::Band(b) => SpecResolvedScale::Band(b.deep_view()),
        }
    }
}

/// One resolved axis slot: its label and its resolved scale.
#[derive(Clone, Debug, PartialEq, Eq)]
pub struct ResolvedAxis {
    pub label: String,
    pub scale: ResolvedScale,
}

/// Spec model of [`ResolvedAxis`].
pub struct SpecResolvedAxis {
    pub label: Seq<char>,
    pub scale: SpecResolvedScale,
}

impl DeepView for ResolvedAxis {
    type V = SpecResolvedAxis;

    open spec fn deep_view(&self) -> SpecResolvedAxis {
        SpecResolvedAxis { label: self.label@, scale: self.scale.deep_view() }
    }
}

/// The fully-resolved chart model: title, geometry, the resolved views in
/// request order, and one resolved slot per axis actually present. This
/// is the sole artifact handed to a rendering engine.
#[derive(Clone, Debug, PartialEq, Eq)]
pub struct ResolvedChart {
    pub title: String,
    pub width: i32,
    pub height: i32,
    pub margin_top: i32,
    pub margin_bottom: i32,
    pub margin_left: i32,
    pub margin_right: i32,
    pub views: Vec<ResolvedView>,
    pub axis_top: Option<ResolvedAxis>,
    pub axis_bottom: Option<ResolvedAxis>,
    pub axis_left: Option<ResolvedAxis>,
    pub axis_right: Option<ResolvedAxis>,
}

/// Spec model of [`ResolvedChart`].
pub struct SpecResolvedChart {
    pub title: Seq<char>,
    pub width: i32,
    pub height: i32,
    pub margin_top: i32,
    pub margin_bottom: i32,
    pub margin_left: i32,
    pub margin_right: i32,
    pub views: Seq<SpecResolvedView>,
    pub axis_top: Option<SpecResolvedAxis>,
    pub axis_bottom: Option<SpecResolvedAxis>,
    pub axis_left: Option<SpecResolvedAxis>,
    pub axis_right: Option<SpecResolvedAxis>,
}

impl DeepView for ResolvedChart {
    type V = SpecResolvedChart;

    open spec fn deep_view(&self) -> SpecResolvedChart {
        SpecResolvedChart {
            title: self.title@,
            width: self.width,
            height: self.height,
            margin_top: self.margin_top,
            margin_bottom: self.margin_bottom,
            margin_left: self.margin_left,
            margin_right: self.margin_right,
            views: self.views.deep_view(),
            axis_top: self.axis_top.deep_view(),
            axis_bottom: self.axis_bottom.deep_view(),
            axis_left: self.axis_left.deep_view(),
            axis_right: self.axis_right.deep_view(),
        }
    }
}

/// What the resolution of one axis slot returns: an absent slot resolves
/// to nothing; a present slot resolves by its declared kind — band or
/// linear — and any other kind tag, including the unspecified sentinel,
/// fails with the slot's own error.
pub open spec fn spec_resolve_axis_scale(
    scale: Option<SpecChartScale>,
    not_band_or_linear: RendererError,
) -> Result<Option<SpecResolvedScale>, RendererError> {
    match scale {
        None => Ok(None),
        Some(s) => {
            if s.kind == 2 {
                match spec_get_band_scale(s) {
                    Err(e) => Err(e),
                    Ok(b) => Ok(Some(SpecResolvedScale::Band(b))),
                }
            } else if s.kind == 1 {
                match spec_get_linear_scale(s) {
                    Err(e) => Err(e),
                    Ok(l) => Ok(Some(SpecResolvedScale::Linear(l))),
                }
            } else {
                Err(not_band_or_linear)
            }
        },
    }
}

/// What setting the top axis returns: the chart unchanged for an absent
/// slot, else the chart with the top slot filled from the resolved scale
/// and the given label.
pub open spec fn spec_set_chart_top_axis(
    chart: SpecResolvedChart,
    scale: Option<SpecChartScale>,
    label: Seq<char>,
) -> Result<SpecResolvedChart, RendererError> {
    match spec_resolve_axis_scale(scale, RendererError::TopAxisIsSetButItsNotBandOrLinear) {
        Err(e) => Err(e),
        Ok(None) => Ok(chart),
        Ok(Some(rs)) => Ok(
            SpecResolvedChart {
                axis_top: Some(SpecResolvedAxis { label, scale: rs }),
                ..chart
            },
        ),
    }
}

/// Resolve the top axis slot onto the chart; top and bottom slots back
/// the horizontal dimension.
pub fn set_chart_top_axis(chart: ResolvedChart, scale: Option<ChartScale>, label: String) -> (r:
    Result<ResolvedChart, RendererError>)
    ensures
        (r matches Ok(c) ==> spec_set_chart_top_axis(chart.deep_view(), scale.deep_view(), label@)
            == Ok::<SpecResolvedChart, RendererError>(c.deep_view())),
        (r matches Err(e) ==> spec_set_chart_top_axis(chart.deep_view(), scale.deep_view(), label@)
            == Err::<SpecResolvedChart, RendererError>(e)),
{
    match scale {
        Some(scale) => {
            if scale.kind == 2 {
                let h_scale = match get_band_h_scale(&scale) {
                    Ok(h_scale) => h_scale,
                    Err(err) => {
                        return Err(err);
                    },
                };
                let mut c = chart;
                c.axis_top = Some(ResolvedAxis { label, scale: ResolvedScale::Band(h_scale) });
                Ok(c)
            } else if scale.kind == 1 {
                let h_scale = match get_linear_h_scale(&scale) {
                    Ok(h_scale) => h_scale,
                    Err(err) => {
                        return Err(err);
                    },
                };
                let mut c = chart;
                c.axis_top = Some(ResolvedAxis { label, scale: ResolvedScale::Linear(h_scale) });
                Ok(c)
            } else {
                Err(RendererError::TopAxisIsSetButItsNotBandOrLinear)
            }
        },
        None => Ok(chart),
    }
}

/// What setting the bottom axis returns: as for the top axis, on the
/// bottom slot.
pub open spec fn spec_set_chart_bottom_axis(
    chart: SpecResolvedChart,
    scale: Option<SpecChartScale>,
    label: Seq<char>,
) -> Result<SpecResolvedChart, RendererError> {
    match spec_resolve_axis_scale(scale, RendererError::BottomAxisIsSetButItsNotBandOrLinear) {
        Err(e) => Err(e),
        Ok(None) => Ok(chart),
        Ok(Some(rs)) => Ok(
            SpecResolvedChart {
                axis_bottom: Some(SpecResolvedAxis { label, scale: rs }),
                ..chart
            },
        ),
    }
}

/// Resolve the bottom axis slot onto the chart.
pub fn set_chart_bottom_axis(chart: ResolvedChart, scale: Option<ChartScale>, label: String) -> (r:
    Result<ResolvedChart, RendererError>)
    ensures
        (r matches Ok(c) ==> spec_set_chart_bottom_axis(
            chart.deep_view(),
            scale.deep_view(),
            label@,
        ) == Ok::<SpecResolvedChart, RendererError>(c.deep_view())),
        (r matches Err(e) ==> spec_set_chart_bottom_axis(
            chart.deep_view(),
            scale.deep_view(),
            label@,
        ) == Err::<SpecResolvedChart, RendererError>(e)),
{
    match scale {
        Some(scale) => {
            if scale.kind == 2 {
                let h_scale = match get_band_h_scale(&scale) {
                    Ok(h_scale) => h_scale,
                    Err(err) => {
                        return Err(err);
                    },
                };
                let mut c = chart;
                c.axis_bottom = Some(ResolvedAxis { label, scale: ResolvedScale::Band(h_scale) });
                Ok(c)
            } else if scale.kind == 1 {
                let h_scale = match get_linear_h_scale(&scale) {
                    Ok(h_scale) => h_scale,
                    Err(err) => {
                        return Err(err);
                    },
                };
                let mut c = chart;
                c.axis_bottom = Some(
                    ResolvedAxis { label, scale: ResolvedScale::Linear(h_scale) },
                );
                Ok(c)
            } else {
                Err(RendererError::BottomAxisIsSetButItsNotBandOrLinear)
            }
        },
        None => Ok(chart),
    }
}

/// What setting the left axis returns: as for the top axis, on the left
/// slot.
pub open spec fn spec_set_chart_left_axis(
    chart: SpecResolvedChart,
    scale: Option<SpecChartScale>,
    label: Seq<char>,
) -> Result<SpecResolvedChart, RendererError> {
    match spec_resolve_axis_scale(scale, RendererError::LeftAxisIsSetButItsNotBandOrLinear) {
        Err(e) => Err(e),
        Ok(None) => Ok(chart),
        Ok(Some(rs)) => Ok(
            SpecResolvedChart {
                axis_left: Some(SpecResolvedAxis { label, scale: rs }),
                ..chart
            },
        ),
    }
}

/// Resolve the left axis slot onto the chart; left and right slots back
/// the vertical dimension.
pub fn set_chart_left_axis(chart: ResolvedChart, scale: Option<ChartScale>, label: String) -> (r:
    Result<ResolvedChart, RendererError>)
    ensures
        (r matches Ok(c) ==> spec_set_chart_left_axis(chart.deep_view(), scale.deep_view(), label@)
            == Ok::<SpecResolvedChart, RendererError>(c.deep_view())),
        (r matches Err(e) ==> spec_set_chart_left_axis(chart.deep_view(), scale.deep_view(), label@)
            == Err::<SpecResolvedChart, RendererError>(e)),
{
    match scale {
        Some(scale) => {
            if scale.kind == 2 {
                let v_scale = match get_band_v_scale(&scale) {
                    Ok(v_scale) => v_scale,
                    Err(err) => {
                        return Err(err);
                    },
                };
                let mut c = chart;
                c.axis_left = Some(ResolvedAxis { label, scale: ResolvedScale::Band(v_scale) });
                Ok(c)
            } else if scale.kind == 1 {
                let v_scale = match get_linear_v_scale(&scale) {
                    Ok(v_scale) => v_scale,
                    Err(err) => {
                        return Err(err);
                    },
                };
                let mut c = chart;
                c.axis_left = Some(ResolvedAxis { label, scale: ResolvedScale::Linear(v_scale) });
                Ok(c)
            } else {
                Err(RendererError::LeftAxisIsSetButItsNotBandOrLinear)
            }
        },
        None => Ok(chart),
    }
}

/// What setting the right axis returns: as for the left axis, on the
/// right slot.
pub open spec fn spec_set_chart_right_axis(
    chart: SpecResolvedChart,
    scale: Option<SpecChartScale>,
    label: Seq<char>,
) -> Result<SpecResolvedChart, RendererError> {
    match spec_resolve_axis_scale(scale, RendererError::RightAxisIsSetButItsNotBandOrLinear) {
        Err(e) => Err(e),
        Ok(None) => Ok(chart),
        Ok(Some(rs)) => Ok(
            SpecResolvedChart {
                axis_right: Some(SpecResolvedAxis { label, scale: rs }),
                ..chart
            },
        ),
    }
}

/// Resolve the right axis slot onto the chart.
pub fn set_chart_right_axis(chart: ResolvedChart, scale: Option<ChartScale>, label: String) -> (r:
    Result<ResolvedChart, RendererError>)
    ensures
        (r matches Ok(c) ==> spec_set_chart_right_axis(
            chart.deep_view(),
            scale.deep_view(),
            label@,
        ) == Ok::<SpecResolvedChart, RendererError>(c.deep_view())),
        (r matches Err(e) ==> spec_set_chart_right_axis(
            chart.deep_view(),
            scale.deep_view(),
            label@,
        ) == Err::<SpecResolvedChart, RendererError>(e)),
{
    match scale {
        Some(scale) => {
            if scale.kind == 2 {
                let v_scale = match get_band_v_scale(&scale) {
                    Ok(v_scale) => v_scale,
                    Err(err) => {
                        return Err(err);
                    },
                };
                let mut c = chart;
                c.axis_right = Some(ResolvedAxis { label, scale: ResolvedScale::Band(v_scale) });
                Ok(c)
            } else if scale.kind == 1 {
                let v_scale = match get_linear_v_scale(&scale) {
                    Ok(v_scale) => v_scale,
                    Err(err) => {
                        return Err(err);
                    },
                };
                let mut c = chart;
                c.axis_right = Some(ResolvedAxis { label, scale: ResolvedScale::Linear(v_scale) });
                Ok(c)
            } else {
                Err(RendererError::RightAxisIsSetButItsNotBandOrLinear)
            }
        },
        None => Ok(chart),
    }
}

/// What the whole pipeline returns for one wire request, in order: axes
/// present, horizontal then vertical axis selection, sizes, margins,
/// every view in request order, then the four axis slots top, bottom,
/// left, right — stopping at the first failure.
pub open spec fn spec_resolve_chart(req: SpecRenderChartRequest) -> Result<
    SpecResolvedChart,
    RendererError,
> {
    match req.axes {
        None => Err(RendererError::ChartAxesAreNotSpecified),
        Some(axes) => match spec_get_h_scale(axes) {
            Err(e) => Err(e),
            Ok(h_scale) => match spec_get_v_scale(axes) {
                Err(e) => Err(e),
                Ok(v_scale) => match spec_get_sizes(req.sizes) {
                    Err(e) => Err(e),
                    Ok(sizes) => match spec_get_margins(req.margins) {
                        Err(e) => Err(e),
                        Ok(margins) => match spec_get_views_list(req.views, h_scale, v_scale) {
                            Err(e) => Err(e),
                            Ok(views) => {
                                let base = SpecResolvedChart {
                                    title: req.title,
                                    width: sizes.width,
                                    height: sizes.height,
                                    margin_top: margins.top,
                                    margin_bottom: margins.bottom,
                                    margin_left: margins.left,
                                    margin_right: margins.right,
                                    views,
                                    axis_top: None,
                                    axis_bottom: None,
                                    axis_left: None,
                                    axis_right: None,
                                };
                                match spec_set_chart_top_axis(
                                    base,
                                    axes.axis_top,
                                    axes.axis_top_label,
                                ) {
                                    Err(e) => Err(e),
                                    Ok(c) => match spec_set_chart_bottom_axis(
                                        c,
                                        axes.axis_bottom,
                                        axes.axis_bottom_label,
                                    ) {
                                        Err(e) => Err(e),
                                        Ok(c) => match spec_set_chart_left_axis(
                                            c,
                                            axes.axis_left,
                                            axes.axis_left_label,
                                        ) {
                                            Err(e) => Err(e),
                                            Ok(c) => spec_set_chart_right_axis(
                                                c,
                                                axes.axis_right,
                                                axes.axis_right_label,
                                            ),
                                        },
                                    },
                                }
                            },
                        },
                    },
                },
            },
        },
    }
}

/// Resolve one wire request into the fully-resolved chart model, exactly
/// as [`spec_resolve_chart`] states it: one request in, deterministically
/// one resolved chart or one named error out, with no other effect.
pub fn resolve_chart(req: RenderChartRequest) -> (r: Result<ResolvedChart, RendererError>)
    ensures
        (r matches Ok(c) ==> spec_resolve_chart(req.deep_view()) == Ok::<
            SpecResolvedChart,
            RendererError,
        >(c.deep_view())),
        (r matches Err(e) ==> spec_resolve_chart(req.deep_view()) == Err::<
            SpecResolvedChart,
            RendererError,
        >(e)),
{
    let axes = match req.axes {
        Some(axes) => axes,
        None => {
            return Err(RendererError::ChartAxesAreNotSpecified);
        },
    };
    let h_scale = match get_h_scale(&axes) {
        Ok(h_scale) => h_scale,
        Err(err) => {
            return Err(err);
        },
    };
    let v_scale = match get_v_scale(&axes) {
        Ok(v_scale) => v_scale,
        Err(err) => {
            return Err(err);
        },
    };
    let sizes = match get_sizes(req.sizes) {
        Ok(sizes) => sizes,
        Err(err) => {
            return Err(err);
        },
    };
    let margins = match get_margins(req.margins) {
        Ok(margins) => margins,
        Err(err) => {
            return Err(err);
        },
    };
    let chart_views = match get_views(&req.views, h_scale, v_scale) {
        Ok(chart_views) => chart_views,
        Err(err) => {
            return Err(err);
        },
    };
    let chart = ResolvedChart {
        title: req.title,
        width: sizes.width,
        height: sizes.height,
        margin_top: margins.top,
        margin_bottom: margins.bottom,
        margin_left: margins.left,
        margin_right: margins.right,
        views: chart_views,
        axis_top: None,
        axis_bottom: None,
        axis_left: None,
        axis_right: None,
    };
    let chart = match set_chart_top_axis(chart, axes.axis_top, axes.axis_top_label) {
        Ok(chart) => chart,
        Err(err) => {
            return Err(err);
        },
    };
    let chart = match set_chart_bottom_axis(chart, axes.axis_bottom, axes.axis_bottom_label) {
        Ok(chart) => chart,
        Err(err) => {
            return Err(err);
        },
    };
    let chart = match set_chart_left_axis(chart, axes.axis_left, axes.axis_left_label) {
        Ok(chart) => chart,
        Err(err) => {
            return Err(err);
        },
    };
    let chart = match set_chart_right_axis(chart, axes.axis_right, axes.axis_right_label) {
        Ok(chart) => chart,
        Err(err) => {
            return Err(err);
        },
    };
    Ok(chart)
}

/// Resolution preserves the request's view sequence exactly: when a
/// request resolves, the resolved chart holds one resolved view per wire
/// view, in request order, each resolved against the two shared selected
/// scales — nothing is dropped, added or reordered.
pub proof fn lemma_resolved_views_in_request_order(req: SpecRenderChartRequest)
    requires
        spec_resolve_chart(req) is Ok,
    ensures
        spec_resolve_chart(req)->Ok_0.views.len() == req.views.len(),
        forall|i: int|
            0 <= i < req.views.len() ==> spec_resolve_chart(req)->Ok_0.views[i]
                == #[trigger] spec_get_view(
                req.views[i],
                spec_get_h_scale(req.axes->0)->Ok_0,
                spec_get_v_scale(req.axes->0)->Ok_0,
            )->Ok_0,
{
    let h_scale = spec_get_h_scale(req.axes->0)->Ok_0;
    let v_scale = spec_get_v_scale(req.axes->0)->Ok_0;
    lemma_views_list_ok_elementwise(req.views, h_scale, v_scale);
}

/// A request whose axes carry neither a left nor a right slot fails with
/// the vertical axis selection error before any view is looked at:
/// whatever the views hold, the same error surfaces.
pub proof fn lemma_missing_vertical_axis_rejected_early(req: SpecRenderChartRequest)
    requires
        req.axes is Some,
        (req.axes->0).axis_left is None,
        (req.axes->0).axis_right is None,
        spec_get_h_scale(req.axes->0) is Ok,
    ensures
        spec_resolve_chart(req) == Err::<SpecResolvedChart, RendererError>(
            RendererError::LeftOrRightAxisShouldBeSpecified,
        ),
{
}

} // verus!
