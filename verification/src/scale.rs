//! Axis selection and scale resolution.
//!
//! An axis pair is selected by fixed slot priority: top before bottom for
//! the horizontal scale, left before right for the vertical one. A selected
//! wire scale is then resolved into a concrete scale descriptor: linear
//! scales need both range bounds; band scales additionally need inner and
//! outer padding. The domain fields are carried as they stand.

use vstd::prelude::*;

use crate::error::RendererError;
use crate::wire::{ChartAxes, ChartScale, FloatBits, SpecChartAxes, SpecChartScale};

verus! {

/// The kind of a resolved scale.
#[derive(Clone, Copy, Debug, PartialEq, Eq)]
pub enum ScaleKind {
    Linear,
    Band,
}

/// A resolved linear scale: a numeric domain mapped onto a pixel range.
/// Once built it is a pure value; nothing downstream validates it again.
#[derive(Clone, Copy, Debug, PartialEq, Eq)]
pub struct LinearScale {
    pub domain_start: FloatBits,
    pub domain_end: FloatBits,
    pub range_start: i32,
    pub range_end: i32,
}

impl LinearScale {
    /// Start of the pixel range.
    pub fn range_start(&self) -> (r: i32)
        ensures
            r == self.range_start,
    {
        self.range_start
    }

    /// End of the pixel range.
    pub fn range_end(&self) -> (r: i32)
        ensures
            r == self.range_end,
    {
        self.range_end
    }

    /// The kind of this scale.
    pub fn kind(&self) -> (r: ScaleKind)
        ensures
            r == ScaleKind::Linear,
    {
        ScaleKind::Linear
    }
}

/// A resolved band scale: an ordered category list mapped onto a pixel
/// range, with its paddings and boundary-offset flag. Once built it is a
/// pure value; nothing downstream validates it again.
#[derive(Clone, Debug, PartialEq, Eq)]
pub struct BandScale {
    pub categories: Vec<String>,
    pub range_start: i32,
    pub range_end: i32,
    pub inner_padding: FloatBits,
    pub outer_padding: FloatBits,
    pub no_boundaries_offset: bool,
}

/// Spec model of [`BandScale`].
pub struct SpecBandScale {
    pub categories: Seq<Seq<char>>,
    pub range_start: i32,
    pub range_end: i32,
    pub inner_padding: FloatBits,
    pub outer_padding: FloatBits,
    pub no_boundaries_offset: bool,
}

impl DeepView for BandScale {
    type V = SpecBandScale;

    open spec fn deep_view(&self) -> SpecBandScale {
        SpecBandScale {
            categories: self.categories.deep_view(),
            range_start: self.range_start,
            range_end: self.range_end,
            inner_padding: self.inner_padding,
            outer_padding: self.outer_padding,
            no_boundaries_offset: self.no_boundaries_offset,
        }
    }
}

impl BandScale {
    /// Start of the pixel range.
    pub fn range_start(&self) -> (r: i32)
        ensures
            r == self.range_start,
    {
        self.range_start
    }

    /// End of the pixel range.
    pub fn range_end(&self) -> (r: i32)
        ensures
            r == self.range_end,
    {
        self.range_end
    }

    /// The kind of this scale.
    pub fn kind(&self) -> (r: ScaleKind)
        ensures
            r == ScaleKind::Band,
    {
        ScaleKind::Band
    }
}

/// What horizontal axis selection returns: the top slot if present, else
/// the bottom slot, else the named failure.
pub open spec fn spec_get_h_scale(axes: SpecChartAxes) -> Result<SpecChartScale, RendererError> {
    if axes.axis_top is Some {
        Ok(axes.axis_top->0)
    } else if axes.axis_bottom is Some {
        Ok(axes.axis_bottom->0)
    } else {
        Err(RendererError::TopOrBottomAxisShouldBeSpecified)
    }
}

/// Select the wire scale that backs the horizontal dimension: top takes
/// precedence over bottom.
pub fn get_h_scale<'a>(axes: &'a ChartAxes) -> (r: Result<&'a ChartScale, RendererError>)
    ensures
        (r matches Ok(s) ==> spec_get_h_scale(axes.deep_view()) == Ok::<
            SpecChartScale,
            RendererError,
        >(s.deep_view())),
        (r matches Err(e) ==> spec_get_h_scale(axes.deep_view()) == Err::<
            SpecChartScale,
            RendererError,
        >(e)),
{
    match &axes.axis_top {
        Some(axis_top) => Ok(axis_top),
        None => match &axes.axis_bottom {
            Some(axis_bottom) => Ok(axis_bottom),
            None => Err(RendererError::TopOrBottomAxisShouldBeSpecified),
        },
    }
}

/// What vertical axis selection returns: the left slot if present, else
/// the right slot, else the named failure.
pub open spec fn spec_get_v_scale(axes: SpecChartAxes) -> Result<SpecChartScale, RendererError> {
    if axes.axis_left is Some {
        Ok(axes.axis_left->0)
    } else if axes.axis_right is Some {
        Ok(axes.axis_right->0)
    } else {
        Err(RendererError::LeftOrRightAxisShouldBeSpecified)
    }
}

/// Select the wire scale that backs the vertical dimension: left takes
/// precedence over right.
pub fn get_v_scale<'a>(axes: &'a ChartAxes) -> (r: Result<&'a ChartScale, RendererError>)
    ensures
        (r matches Ok(s) ==> spec_get_v_scale(axes.deep_view()) == Ok::<
            SpecChartScale,
            RendererError,
        >(s.deep_view())),
        (r matches Err(e) ==> spec_get_v_scale(axes.deep_view()) == Err::<
            SpecChartScale,
            RendererError,
        >(e)),
{
    match &axes.axis_left {
        Some(axis_left) => Ok(axis_left),
        None => match &axes.axis_right {
            Some(axis_right) => Ok(axis_right),
            None => Err(RendererError::LeftOrRightAxisShouldBeSpecified),
        },
    }
}

/// What linear scale resolution returns: both range bounds must be
/// present, in that order; the numeric domain is taken as it stands.
pub open spec fn spec_get_linear_scale(s: SpecChartScale) -> Result<LinearScale, RendererError> {
    if s.range_start is None {
        Err(RendererError::ScaleRangeStartIsNotSpecified)
    } else if s.range_end is None {
        Err(RendererError::ScaleRangeEndIsNotSpecified)
    } else {
        Ok(
            LinearScale {
                domain_start: s.domain_num_start,
                domain_end: s.domain_num_end,
                range_start: s.range_start->0,
                range_end: s.range_end->0,
            },
        )
    }
}

/// Resolve the horizontal wire scale as a linear scale.
pub fn get_linear_h_scale(h_scale: &ChartScale) -> (r: Result<LinearScale, RendererError>)
    ensures
        r == spec_get_linear_scale(h_scale.deep_view()),
{
    get_linear_scale(h_scale)
}

/// Resolve the vertical wire scale as a linear scale.
pub fn get_linear_v_scale(v_scale: &ChartScale) -> (r: Result<LinearScale, RendererError>)
    ensures
        r == spec_get_linear_scale(v_scale.deep_view()),
{
    get_linear_scale(v_scale)
}

/// Resolve a wire scale as a linear scale, as
/// [`spec_get_linear_scale`] states it.
fn get_linear_scale(scale: &ChartScale) -> (r: Result<LinearScale, RendererError>)
    ensures
        r == spec_get_linear_scale(scale.deep_view()),
{
    let range_start = match scale.range_start {
        Some(range_start) => range_start,
        None => {
            return Err(RendererError::ScaleRangeStartIsNotSpecified);
        },
    };
    let range_end = match scale.range_end {
        Some(range_end) => range_end,
        None => {
            return Err(RendererError::ScaleRangeEndIsNotSpecified);
        },
    };
    Ok(
        LinearScale {
            domain_start: scale.domain_num_start,
            domain_end: scale.domain_num_end,
            range_start,
            range_end,
        },
    )
}

/// What band scale resolution returns: both range bounds, then inner and
/// outer padding, each individually mandatory in that order; the category
/// list is taken as it stands.
pub open spec fn spec_get_band_scale(s: SpecChartScale) -> Result<SpecBandScale, RendererError> {
    if s.range_start is None {
        Err(RendererError::ScaleRangeStartIsNotSpecified)
    } else if s.range_end is None {
        Err(RendererError::ScaleRangeEndIsNotSpecified)
    } else if s.inner_padding is None {
        Err(RendererError::BandScaleInnerPaddingIsNotSpecified)
    } else if s.outer_padding is None {
        Err(RendererError::BandScaleOuterPaddingIsNotSpecified)
    } else {
        Ok(
            SpecBandScale {
                categories: s.domain_categories,
                range_start: s.range_start->0,
                range_end: s.range_end->0,
                inner_padding: s.inner_padding->0,
                outer_padding: s.outer_padding->0,
                no_boundaries_offset: s.no_boundaries_offset,
            },
        )
    }
}

/// Resolve the horizontal wire scale as a band scale.
pub fn get_band_h_scale(h_scale: &ChartScale) -> (r: Result<BandScale, RendererError>)
    ensures
        (r matches Ok(b) ==> spec_get_band_scale(h_scale.deep_view()) == Ok::<
            SpecBandScale,
            RendererError,
        >(b.deep_view())),
        (r matches Err(e) ==> spec_get_band_scale(h_scale.deep_view()) == Err::<
            SpecBandScale,
            RendererError,
        >(e)),
{
    get_band_scale(h_scale)
}

/// Resolve the vertical wire scale as a band scale.
pub fn get_band_v_scale(v_scale: &ChartScale) -> (r: Result<BandScale, RendererError>)
    ensures
        (r matches Ok(b) ==> spec_get_band_scale(v_scale.deep_view()) == Ok::<
            SpecBandScale,
            RendererError,
        >(b.deep_view())),
        (r matches Err(e) ==> spec_get_band_scale(v_scale.deep_view()) == Err::<
            SpecBandScale,
            RendererError,
        >(e)),
{
    get_band_scale(v_scale)
}

/// Resolve a wire scale as a band scale, as [`spec_get_band_scale`]
/// states it.
fn get_band_scale(scale: &ChartScale) -> (r: Result<BandScale, RendererError>)
    ensures
        (r matches Ok(b) ==> spec_get_band_scale(scale.deep_view()) == Ok::<
            SpecBandScale,
            RendererError,
        >(b.deep_view())),
        (r matches Err(e) ==> spec_get_band_scale(scale.deep_view()) == Err::<
            SpecBandScale,
            RendererError,
        >(e)),
{
    let range_start = match scale.range_start {
        Some(range_start) => range_start,
        None => {
            return Err(RendererError::ScaleRangeStartIsNotSpecified);
        },
    };
    let range_end = match scale.range_end {
        Some(range_end) => range_end,
        None => {
            return Err(RendererError::ScaleRangeEndIsNotSpecified);
        },
    };
    let inner_padding = match scale.inner_padding {
        Some(inner_padding) => inner_padding,
        None => {
            return Err(RendererError::BandScaleInnerPaddingIsNotSpecified);
        },
    };
    let outer_padding = match scale.outer_padding {
        Some(outer_padding) => outer_padding,
        None => {
            return Err(RendererError::BandScaleOuterPaddingIsNotSpecified);
        },
    };
    let categories = scale.domain_categories.clone();
    proof {
        assert(categories.deep_view() =~= scale.domain_categories.deep_view());
    }
    Ok(
        BandScale {
            categories,
            range_start,
            range_end,
            inner_padding,
            outer_padding,
            no_boundaries_offset: scale.no_boundaries_offset,
        },
    )
}

/// Axis precedence: when both slots of a pair are present, the resolved
/// scale is built from the higher-priority slot's configuration — top
/// wins over bottom, left wins over right.
pub proof fn lemma_axis_precedence(axes: SpecChartAxes)
    ensures
        axes.axis_top is Some ==> spec_get_h_scale(axes) == Ok::<SpecChartScale, RendererError>(
            axes.axis_top->0,
        ),
        axes.axis_top is None && axes.axis_bottom is Some ==> spec_get_h_scale(axes) == Ok::<
            SpecChartScale,
            RendererError,
        >(axes.axis_bottom->0),
        axes.axis_left is Some ==> spec_get_v_scale(axes) == Ok::<SpecChartScale, RendererError>(
            axes.axis_left->0,
        ),
        axes.axis_left is None && axes.axis_right is Some ==> spec_get_v_scale(axes) == Ok::<
            SpecChartScale,
            RendererError,
        >(axes.axis_right->0),
{
}

/// Band paddings are required independently: with both range bounds
/// present, a missing inner padding is reported as exactly the inner
/// padding error, and a missing outer padding (with the inner one
/// present) as exactly the outer padding error.
pub proof fn lemma_band_paddings_independent(s: SpecChartScale)
    requires
        s.range_start is Some,
        s.range_end is Some,
    ensures
        s.inner_padding is None ==> spec_get_band_scale(s) == Err::<SpecBandScale, RendererError>(
            RendererError::BandScaleInnerPaddingIsNotSpecified,
        ),
        s.inner_padding is Some && s.outer_padding is None ==> spec_get_band_scale(s) == Err::<
            SpecBandScale,
            RendererError,
        >(RendererError::BandScaleOuterPaddingIsNotSpecified),
{
}

} // verus!
