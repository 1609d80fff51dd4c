//! The closed, flat error taxonomy of the resolution pipeline.
//!
//! Every validation rule of the pipeline has exactly one named failure kind
//! here; there is no generic catch-all. Each kind carries a fixed descriptive
//! message, rendered by [`RendererError::message`].

use vstd::prelude::*;

verus! {

/// One failure kind per validation rule of the resolution pipeline.
#[derive(Clone, Copy, Debug, PartialEq, Eq)]
pub enum RendererError {
    /// View colors are not specified.
    ViewColorsAreNotSpecified,
    /// View values are not specified.
    ViewValuesAreNotSpecified,
    /// Expected scalar values but got another kind.
    ExpectedScalarValues,
    /// Expected bars values but got another kind.
    ExpectedBarsValues,
    /// Expected points values but got another kind.
    ExpectedPointsValues,
    /// Colors for a bars dataset are not specified.
    ColorsForBarsValuesAreNotSpecified,
    /// Fill color for a bars dataset is not specified.
    FillColorForBarsValuesIsNotSpecified,
    /// Stroke color for a bars dataset is not specified.
    StrokeColorForBarsValuesIsNotSpecified,
    /// Got an unknown bar label position.
    BarLabelPositionIsUnknown,
    /// Got an unknown point label position.
    PointLabelPositionIsUnknown,
    /// Got an unknown point type.
    PointTypeIsUnknown,
    /// Top or bottom axis should be specified.
    TopOrBottomAxisShouldBeSpecified,
    /// Left or right axis should be specified.
    LeftOrRightAxisShouldBeSpecified,
    /// Fill color for an area view is not specified.
    FillColorForAreaViewIsNotSpecified,
    /// Stroke color for an area view is not specified.
    StrokeColorForAreaViewIsNotSpecified,
    /// Point fill color for an area view is not specified.
    PointFillColorForAreaViewIsNotSpecified,
    /// Point stroke color for an area view is not specified.
    PointStrokeColorForAreaViewIsNotSpecified,
    /// Stroke color for a line view is not specified.
    StrokeColorForLineViewIsNotSpecified,
    /// Point fill color for a line view is not specified.
    PointFillColorForLineViewIsNotSpecified,
    /// Point stroke color for a line view is not specified.
    PointStrokeColorForLineViewIsNotSpecified,
    /// Point fill color for a scatter view is not specified.
    PointFillColorForScatterViewIsNotSpecified,
    /// Point stroke color for a scatter view is not specified.
    PointStrokeColorForScatterViewIsNotSpecified,
    /// View kind is unknown.
    ViewKindIsUnknown,
    /// Chart axes are not specified.
    ChartAxesAreNotSpecified,
    /// Chart sizes are not specified.
    ChartSizesAreNotSpecified,
    /// Chart width is not specified.
    ChartWidthIsNotSpecified,
    /// Chart height is not specified.
    ChartHeightIsNotSpecified,
    /// Chart margins are not specified.
    ChartMarginsAreNotSpecified,
    /// Chart top margin is not specified.
    ChartTopMarginIsNotSpecified,
    /// Chart bottom margin is not specified.
    ChartBottomMarginIsNotSpecified,
    /// Chart left margin is not specified.
    ChartLeftMarginIsNotSpecified,
    /// Chart right margin is not specified.
    ChartRightMarginIsNotSpecified,
    /// Top axis is set but it is not of band or linear kind.
    TopAxisIsSetButItsNotBandOrLinear,
    /// Bottom axis is set but it is not of band or linear kind.
    BottomAxisIsSetButItsNotBandOrLinear,
    /// Left axis is set but it is not of band or linear kind.
    LeftAxisIsSetButItsNotBandOrLinear,
    /// Right axis is set but it is not of band or linear kind.
    RightAxisIsSetButItsNotBandOrLinear,
    /// The shared horizontal axis is set but its kind is not band, which
    /// an area view requires of its horizontal role.
    HorizontalAxisForAreaViewIsNotBand,
    /// The shared vertical axis is set but its kind is not linear, which
    /// an area view requires of its vertical role.
    VerticalAxisForAreaViewIsNotLinear,
    /// The shared horizontal axis is set but its kind is not band, which
    /// a line view requires of its horizontal role.
    HorizontalAxisForLineViewIsNotBand,
    /// The shared vertical axis is set but its kind is not linear, which
    /// a line view requires of its vertical role.
    VerticalAxisForLineViewIsNotLinear,
    /// The shared horizontal axis is set but its kind is not linear,
    /// which a scatter view requires of its horizontal role.
    HorizontalAxisForScatterViewIsNotLinear,
    /// The shared vertical axis is set but its kind is not linear, which
    /// a scatter view requires of its vertical role.
    VerticalAxisForScatterViewIsNotLinear,
    /// The shared horizontal axis is set but its kind is not linear,
    /// which a horizontal bar view requires of its horizontal role.
    HorizontalAxisForHorizontalBarViewIsNotLinear,
    /// The shared vertical axis is set but its kind is not band, which a
    /// horizontal bar view requires of its vertical role.
    VerticalAxisForHorizontalBarViewIsNotBand,
    /// The shared horizontal axis is set but its kind is not band, which
    /// a vertical bar view requires of its horizontal role.
    HorizontalAxisForVerticalBarViewIsNotBand,
    /// The shared vertical axis is set but its kind is not linear, which
    /// a vertical bar view requires of its vertical role.
    VerticalAxisForVerticalBarViewIsNotLinear,
    /// Point visibility for an area view is not specified.
    PointVisibilityForAreaViewIsNotSpecified,
    /// Point label visibility for an area view is not specified.
    PointLabelVisibilityForAreaViewIsNotSpecified,
    /// Point visibility for a line view is not specified.
    PointVisibilityForLineViewIsNotSpecified,
    /// Point label visibility for a line view is not specified.
    PointLabelVisibilityForLineViewIsNotSpecified,
    /// Point visibility for a scatter view is not specified.
    PointVisibilityForScatterViewIsNotSpecified,
    /// Point label visibility for a scatter view is not specified.
    PointLabelVisibilityForScatterViewIsNotSpecified,
    /// Bar label visibility for a horizontal bar view is not specified.
    BarLabelVisibilityForHorizontalBarViewIsNotSpecified,
    /// Bar label visibility for a vertical bar view is not specified.
    BarLabelVisibilityForVerticalBarViewIsNotSpecified,
    /// Range start for a scale is not specified.
    ScaleRangeStartIsNotSpecified,
    /// Range end for a scale is not specified.
    ScaleRangeEndIsNotSpecified,
    /// Domain for a scale is not specified.
    ScaleDomainIsNotSpecified,
    /// Numeric domain for a linear scale is not specified.
    LinearScaleNumericDomainIsNotSpecified,
    /// Categories domain for a band scale is not specified.
    BandScaleCategoriesDomainIsNotSpecified,
    /// Inner padding for a band scale is not specified.
    BandScaleInnerPaddingIsNotSpecified,
    /// Outer padding for a band scale is not specified.
    BandScaleOuterPaddingIsNotSpecified,
}

impl RendererError {
    /// The descriptive message of this failure kind, as a sequence of
    /// characters; the executable [`RendererError::message`] returns
    /// exactly this text.
    pub open spec fn spec_message(self) -> Seq<char> {
        match self {
            RendererError::ViewColorsAreNotSpecified => "view colors are not specified"@,
            RendererError::ViewValuesAreNotSpecified => "view values are not specified"@,
            RendererError::ExpectedScalarValues => "expected scalar values for view"@,
            RendererError::ExpectedBarsValues => "expected bars values for view"@,
            RendererError::ExpectedPointsValues => "expected points values for view"@,
            RendererError::ColorsForBarsValuesAreNotSpecified => "colors for bars values are not specified"@,
            RendererError::FillColorForBarsValuesIsNotSpecified => "fill color for bars values is not specified"@,
            RendererError::StrokeColorForBarsValuesIsNotSpecified => "stroke color for bars values is not specified"@,
            RendererError::BarLabelPositionIsUnknown => "view bar label position is unknown"@,
            RendererError::PointLabelPositionIsUnknown => "view point label position is unknown"@,
            RendererError::PointTypeIsUnknown => "view point type is unknown"@,
            RendererError::TopOrBottomAxisShouldBeSpecified => "top or bottom axis should be specified"@,
            RendererError::LeftOrRightAxisShouldBeSpecified => "left or right axis should be specified"@,
            RendererError::FillColorForAreaViewIsNotSpecified => "fill color for area view is not specified"@,
            RendererError::StrokeColorForAreaViewIsNotSpecified => "stroke color for area view is not specified"@,
            RendererError::PointFillColorForAreaViewIsNotSpecified => "point fill color for area view is not specified"@,
            RendererError::PointStrokeColorForAreaViewIsNotSpecified => "point stroke color for area view is not specified"@,
            RendererError::StrokeColorForLineViewIsNotSpecified => "stroke color for line view is not specified"@,
            RendererError::PointFillColorForLineViewIsNotSpecified => "point fill color for line view is not specified"@,
            RendererError::PointStrokeColorForLineViewIsNotSpecified => "point stroke color for line view is not specified"@,
            RendererError::PointFillColorForScatterViewIsNotSpecified => "point fill color for scatter view is not specified"@,
            RendererError::PointStrokeColorForScatterViewIsNotSpecified => "point stroke color for scatter view is not specified"@,
            RendererError::ViewKindIsUnknown => "view kind is unknown"@,
            RendererError::ChartAxesAreNotSpecified => "chart axes are not be specified"@,
            RendererError::ChartSizesAreNotSpecified => "chart sizes are not specified"@,
            RendererError::ChartWidthIsNotSpecified => "chart width is not specified"@,
            RendererError::ChartHeightIsNotSpecified => "chart height is not specified"@,
            RendererError::ChartMarginsAreNotSpecified => "chart margins are not specified"@,
            RendererError::ChartTopMarginIsNotSpecified => "chart top margin is not specified"@,
            RendererError::ChartBottomMarginIsNotSpecified => "chart bottom margin is not specified"@,
            RendererError::ChartLeftMarginIsNotSpecified => "chart left margin is not specified"@,
            RendererError::ChartRightMarginIsNotSpecified => "chart right margin is not specified"@,
            RendererError::TopAxisIsSetButItsNotBandOrLinear => "top axis is set but it's not of band or linear kind"@,
            RendererError::BottomAxisIsSetButItsNotBandOrLinear => "bottom axis is set but it's not of band or linear kind"@,
            RendererError::LeftAxisIsSetButItsNotBandOrLinear => "left axis is set but it's not of band or linear kind"@,
            RendererError::RightAxisIsSetButItsNotBandOrLinear => "right axis is set but it's not of band or linear kind"@,
            RendererError::HorizontalAxisForAreaViewIsNotBand => "horizontal axis for area view is set but it's not of band kind"@,
            RendererError::VerticalAxisForAreaViewIsNotLinear => "vertical axis for area view is set but it's not of linear kind"@,
            RendererError::HorizontalAxisForLineViewIsNotBand => "horizontal axis for line view is set but it's not of band kind"@,
            RendererError::VerticalAxisForLineViewIsNotLinear => "vertical axis for line view is set but it's not of linear kind"@,
            RendererError::HorizontalAxisForScatterViewIsNotLinear => "horizontal axis for scatter view is set but it's not of linear kind"@,
            RendererError::VerticalAxisForScatterViewIsNotLinear => "vertical axis for scatter view is set but it's not of linear kind"@,
            RendererError::HorizontalAxisForHorizontalBarViewIsNotLinear => "horizontal axis for horizontal bar view is set but it's not of linear kind"@,
            RendererError::VerticalAxisForHorizontalBarViewIsNotBand => "vertical axis for horizontal bar view is set but it's not of band kind"@,
            RendererError::HorizontalAxisForVerticalBarViewIsNotBand => "horizontal axis for vertical bar view is set but it's not of band kind"@,
            RendererError::VerticalAxisForVerticalBarViewIsNotLinear => "vertical axis for vertical bar view is set but it's not of linear kind"@,
            RendererError::PointVisibilityForAreaViewIsNotSpecified => "point visibility for area view is not specified"@,
            RendererError::PointLabelVisibilityForAreaViewIsNotSpecified => "point label visibility for area view is not specified"@,
            RendererError::PointVisibilityForLineViewIsNotSpecified => "point visibility for line view is not specified"@,
            RendererError::PointLabelVisibilityForLineViewIsNotSpecified => "point label visibility for line view is not specified"@,
            RendererError::PointVisibilityForScatterViewIsNotSpecified => "point visibility for scatter view is not specified"@,
            RendererError::PointLabelVisibilityForScatterViewIsNotSpecified => "point label visibility for scatter view is not specified"@,
            RendererError::BarLabelVisibilityForHorizontalBarViewIsNotSpecified => "bar label visibility for horizontal bar view is not specified"@,
            RendererError::BarLabelVisibilityForVerticalBarViewIsNotSpecified => "bar label visibility for vertical bar is not specified"@,
            RendererError::ScaleRangeStartIsNotSpecified => "range start for scale is not specified"@,
            RendererError::ScaleRangeEndIsNotSpecified => "range end for scale is not specified"@,
            RendererError::ScaleDomainIsNotSpecified => "domain for scale is not specified"@,
            RendererError::LinearScaleNumericDomainIsNotSpecified => "numeric domain for linear scale is not specified"@,
            RendererError::BandScaleCategoriesDomainIsNotSpecified => "categories domain for band scale is not specified"@,
            RendererError::BandScaleInnerPaddingIsNotSpecified => "inner padding for band scale is not specified"@,
            RendererError::BandScaleOuterPaddingIsNotSpecified => "outer padding for band scale is not specified"@,
        }
    }

    /// The descriptive message of this failure kind, suitable for handing
    /// verbatim to a caller as the error detail.
    pub fn message(&self) -> (r: String)
        ensures
            r@ == self.spec_message(),
    {
        let text: &str = match self {
            RendererError::ViewColorsAreNotSpecified => "view colors are not specified",
            RendererError::ViewValuesAreNotSpecified => "view values are not specified",
            RendererError::ExpectedScalarValues => "expected scalar values for view",
            RendererError::ExpectedBarsValues => "expected bars values for view",
            RendererError::ExpectedPointsValues => "expected points values for view",
            RendererError::ColorsForBarsValuesAreNotSpecified => "colors for bars values are not specified",
            RendererError::FillColorForBarsValuesIsNotSpecified => "fill color for bars values is not specified",
            RendererError::StrokeColorForBarsValuesIsNotSpecified => "stroke color for bars values is not specified",
            RendererError::BarLabelPositionIsUnknown => "view bar label position is unknown",
            RendererError::PointLabelPositionIsUnknown => "view point label position is unknown",
            RendererError::PointTypeIsUnknown => "view point type is unknown",
            RendererError::TopOrBottomAxisShouldBeSpecified => "top or bottom axis should be specified",
            RendererError::LeftOrRightAxisShouldBeSpecified => "left or right axis should be specified",
            RendererError::FillColorForAreaViewIsNotSpecified => "fill color for area view is not specified",
            RendererError::StrokeColorForAreaViewIsNotSpecified => "stroke color for area view is not specified",
            RendererError::PointFillColorForAreaViewIsNotSpecified => "point fill color for area view is not specified",
            RendererError::PointStrokeColorForAreaViewIsNotSpecified => "point stroke color for area view is not specified",
            RendererError::StrokeColorForLineViewIsNotSpecified => "stroke color for line view is not specified",
            RendererError::PointFillColorForLineViewIsNotSpecified => "point fill color for line view is not specified",
            RendererError::PointStrokeColorForLineViewIsNotSpecified => "point stroke color for line view is not specified",
            RendererError::PointFillColorForScatterViewIsNotSpecified => "point fill color for scatter view is not specified",
            RendererError::PointStrokeColorForScatterViewIsNotSpecified => "point stroke color for scatter view is not specified",
            RendererError::ViewKindIsUnknown => "view kind is unknown",
            RendererError::ChartAxesAreNotSpecified => "chart axes are not be specified",
            RendererError::ChartSizesAreNotSpecified => "chart sizes are not specified",
            RendererError::ChartWidthIsNotSpecified => "chart width is not specified",
            RendererError::ChartHeightIsNotSpecified => "chart height is not specified",
            RendererError::ChartMarginsAreNotSpecified => "chart margins are not specified",
            RendererError::ChartTopMarginIsNotSpecified => "chart top margin is not specified",
            RendererError::ChartBottomMarginIsNotSpecified => "chart bottom margin is not specified",
            RendererError::ChartLeftMarginIsNotSpecified => "chart left margin is not specified",
            RendererError::ChartRightMarginIsNotSpecified => "chart right margin is not specified",
            RendererError::TopAxisIsSetButItsNotBandOrLinear => "top axis is set but it's not of band or linear kind",
            RendererError::BottomAxisIsSetButItsNotBandOrLinear => "bottom axis is set but it's not of band or linear kind",
            RendererError::LeftAxisIsSetButItsNotBandOrLinear => "left axis is set but it's not of band or linear kind",
            RendererError::RightAxisIsSetButItsNotBandOrLinear => "right axis is set but it's not of band or linear kind",
            RendererError::HorizontalAxisForAreaViewIsNotBand => "horizontal axis for area view is set but it's not of band kind",
            RendererError::VerticalAxisForAreaViewIsNotLinear => "vertical axis for area view is set but it's not of linear kind",
            RendererError::HorizontalAxisForLineViewIsNotBand => "horizontal axis for line view is set but it's not of band kind",
            RendererError::VerticalAxisForLineViewIsNotLinear => "vertical axis for line view is set but it's not of linear kind",
            RendererError::HorizontalAxisForScatterViewIsNotLinear => "horizontal axis for scatter view is set but it's not of linear kind",
            RendererError::VerticalAxisForScatterViewIsNotLinear => "vertical axis for scatter view is set but it's not of linear kind",
            RendererError::HorizontalAxisForHorizontalBarViewIsNotLinear => "horizontal axis for horizontal bar view is set but it's not of linear kind",
            RendererError::VerticalAxisForHorizontalBarViewIsNotBand => "vertical axis for horizontal bar view is set but it's not of band kind",
            RendererError::HorizontalAxisForVerticalBarViewIsNotBand => "horizontal axis for vertical bar view is set but it's not of band kind",
            RendererError::VerticalAxisForVerticalBarViewIsNotLinear => "vertical axis for vertical bar view is set but it's not of linear kind",
            RendererError::PointVisibilityForAreaViewIsNotSpecified => "point visibility for area view is not specified",
            RendererError::PointLabelVisibilityForAreaViewIsNotSpecified => "point label visibility for area view is not specified",
            RendererError::PointVisibilityForLineViewIsNotSpecified => "point visibility for line view is not specified",
            RendererError::PointLabelVisibilityForLineViewIsNotSpecified => "point label visibility for line view is not specified",
            RendererError::PointVisibilityForScatterViewIsNotSpecified => "point visibility for scatter view is not specified",
            RendererError::PointLabelVisibilityForScatterViewIsNotSpecified => "point label visibility for scatter view is not specified",
            RendererError::BarLabelVisibilityForHorizontalBarViewIsNotSpecified => "bar label visibility for horizontal bar view is not specified",
            RendererError::BarLabelVisibilityForVerticalBarViewIsNotSpecified => "bar label visibility for vertical bar is not specified",
            RendererError::ScaleRangeStartIsNotSpecified => "range start for scale is not specified",
            RendererError::ScaleRangeEndIsNotSpecified => "range end for scale is not specified",
            RendererError::ScaleDomainIsNotSpecified => "domain for scale is not specified",
            RendererError::LinearScaleNumericDomainIsNotSpecified => "numeric domain for linear scale is not specified",
            RendererError::BandScaleCategoriesDomainIsNotSpecified => "categories domain for band scale is not specified",
            RendererError::BandScaleInnerPaddingIsNotSpecified => "inner padding for band scale is not specified",
            RendererError::BandScaleOuterPaddingIsNotSpecified => "outer padding for band scale is not specified",
        };
        text.to_owned()
    }
}

} // verus!
