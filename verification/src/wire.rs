//! The wire-format chart description, as the library models it.
//!
//! Every field that is optional on the wire stays optional here; resolution
//! turns the optional form into the mandatory resolved form or fails with a
//! named error. Floating-point payload values are carried as IEEE-754 single
//! precision bit patterns ([`FloatBits`]): the pipeline never computes with
//! them, so the bit pattern is a faithful, lossless stand-in.
//!
//! Each wire type has a deep view into a spec-level model (`Spec*`) built
//! from `Seq`, `Option` and plain values; all contracts of the resolution
//! functions are stated over those models.

use vstd::prelude::*;

verus! {

/// An IEEE-754 single-precision value, carried opaquely as its bit pattern.
pub type FloatBits = u32;

/// Wire color given as an (r, g, b) triplet; components are widened on the
/// wire and truncated to 8-bit channels during resolution.
#[derive(Clone, Copy, Debug, PartialEq, Eq)]
pub struct Rgb {
    pub r: u32,
    pub g: u32,
    pub b: u32,
}

impl DeepView for Rgb {
    type V = Rgb;

    open spec fn deep_view(&self) -> Rgb {
        *self
    }
}

/// Wire color value: a hex string taken as given, or an RGB triplet.
#[derive(Clone, Debug, PartialEq, Eq)]
pub enum ColorValue {
    ColorHex(String),
    ColorRgb(Rgb),
}

/// Spec model of [`ColorValue`].
pub enum SpecColorValue {
    ColorHex(Seq<char>),
    ColorRgb(Rgb),
}

impl DeepView for ColorValue {
    type V = SpecColorValue;

    open spec fn deep_view(&self) -> SpecColorValue {
        match self {
            ColorValue::ColorHex(s) => SpecColorValue::ColorHex(s@),
            ColorValue::ColorRgb(rgb) => SpecColorValue::ColorRgb(*rgb),
        }
    }
}

/// Wire color for one chart element; the value itself is optional.
#[derive(Clone, Debug, PartialEq, Eq)]
pub struct ChartElementColor {
    pub color_value: Option<ColorValue>,
}

/// Spec model of [`ChartElementColor`].
pub struct SpecElementColor {
    pub color_value: Option<SpecColorValue>,
}

impl DeepView for ChartElementColor {
    type V = SpecElementColor;

    open spec fn deep_view(&self) -> SpecElementColor {
        SpecElementColor { color_value: self.color_value.deep_view() }
    }
}

/// Wire tag values for the scale kind; any other tag is unknown.
#[derive(Clone, Copy, Debug, PartialEq, Eq)]
pub enum ChartScaleKind {
    UnspecifiedScale,
    Linear,
    Band,
}

impl ChartScaleKind {
    /// The wire tag of this scale kind.
    pub open spec fn spec_as_i32(self) -> i32 {
        match self {
            ChartScaleKind::UnspecifiedScale => 0,
            ChartScaleKind::Linear => 1,
            ChartScaleKind::Band => 2,
        }
    }

    /// The wire tag of this scale kind.
    pub fn as_i32(&self) -> (r: i32)
        ensures
            r == self.spec_as_i32(),
    {
        match self {
            ChartScaleKind::UnspecifiedScale => 0,
            ChartScaleKind::Linear => 1,
            ChartScaleKind::Band => 2,
        }
    }
}

/// Wire configuration of one scale.
#[derive(Clone, Debug, PartialEq, Eq)]
pub struct ChartScale {
    /// Wire tag of the scale kind; interpreted by [`ChartScale::kind`].
    pub kind: i32,
    /// Start of the pixel range; mandatory after resolution.
    pub range_start: Option<i32>,
    /// End of the pixel range; mandatory after resolution.
    pub range_end: Option<i32>,
    /// Start of the numeric domain, read by linear scale resolution.
    pub domain_num_start: FloatBits,
    /// End of the numeric domain, read by linear scale resolution.
    pub domain_num_end: FloatBits,
    /// Ordered category names, read by band scale resolution.
    pub domain_categories: Vec<String>,
    /// Whether the scale leaves no offset at the start and end of an axis.
    pub no_boundaries_offset: bool,
    /// Inner padding between categories; mandatory for band scales.
    pub inner_padding: Option<FloatBits>,
    /// Outer padding around categories; mandatory for band scales.
    pub outer_padding: Option<FloatBits>,
}

/// Spec model of [`ChartScale`].
pub struct SpecChartScale {
    pub kind: i32,
    pub range_start: Option<i32>,
    pub range_end: Option<i32>,
    pub domain_num_start: FloatBits,
    pub domain_num_end: FloatBits,
    pub domain_categories: Seq<Seq<char>>,
    pub no_boundaries_offset: bool,
    pub inner_padding: Option<FloatBits>,
    pub outer_padding: Option<FloatBits>,
}

impl DeepView for ChartScale {
    type V = SpecChartScale;

    open spec fn deep_view(&self) -> SpecChartScale {
        SpecChartScale {
            kind: self.kind,
            range_start: self.range_start,
            range_end: self.range_end,
            domain_num_start: self.domain_num_start,
            domain_num_end: self.domain_num_end,
            domain_categories: self.domain_categories.deep_view(),
            no_boundaries_offset: self.no_boundaries_offset,
            inner_padding: self.inner_padding,
            outer_padding: self.outer_padding,
        }
    }
}

impl SpecChartScale {
    /// The scale kind this wire tag names; tags outside the named variants
    /// fall back to the unspecified sentinel.
    pub open spec fn spec_kind(self) -> ChartScaleKind {
        if self.kind == 1 {
            ChartScaleKind::Linear
        } else if self.kind == 2 {
            ChartScaleKind::Band
        } else {
            ChartScaleKind::UnspecifiedScale
        }
    }
}

impl ChartScale {
    /// The scale kind this wire tag names; tags outside the named variants
    /// fall back to the unspecified sentinel.
    pub fn kind(&self) -> (r: ChartScaleKind)
        ensures
            r == self.deep_view().spec_kind(),
    {
        if self.kind == 1 {
            ChartScaleKind::Linear
        } else if self.kind == 2 {
            ChartScaleKind::Band
        } else {
            ChartScaleKind::UnspecifiedScale
        }
    }
}

/// Wire chart sizes; both dimensions are mandatory after resolution.
#[derive(Clone, Copy, Debug, PartialEq, Eq)]
pub struct ChartSizes {
    pub width: Option<i32>,
    pub height: Option<i32>,
}

/// Wire chart margins; all four are mandatory after resolution.
#[derive(Clone, Copy, Debug, PartialEq, Eq)]
pub struct ChartMargins {
    pub margin_top: Option<i32>,
    pub margin_bottom: Option<i32>,
    pub margin_left: Option<i32>,
    pub margin_right: Option<i32>,
}

/// Wire chart axes: four optional scale slots, each with a label.
#[derive(Clone, Debug, PartialEq, Eq)]
pub struct ChartAxes {
    pub axis_top: Option<ChartScale>,
    pub axis_top_label: String,
    pub axis_bottom: Option<ChartScale>,
    pub axis_bottom_label: String,
    pub axis_left: Option<ChartScale>,
    pub axis_left_label: String,
    pub axis_right: Option<ChartScale>,
    pub axis_right_label: String,
}

/// Spec model of [`ChartAxes`].
pub struct SpecChartAxes {
    pub axis_top: Option<SpecChartScale>,
    pub axis_top_label: Seq<char>,
    pub axis_bottom: Option<SpecChartScale>,
    pub axis_bottom_label: Seq<char>,
    pub axis_left: Option<SpecChartScale>,
    pub axis_left_label: Seq<char>,
    pub axis_right: Option<SpecChartScale>,
    pub axis_right_label: Seq<char>,
}

impl DeepView for ChartAxes {
    type V = SpecChartAxes;

    open spec fn deep_view(&self) -> SpecChartAxes {
        SpecChartAxes {
            axis_top: self.axis_top.deep_view(),
            axis_top_label: self.axis_top_label@,
            axis_bottom: self.axis_bottom.deep_view(),
            axis_bottom_label: self.axis_bottom_label@,
            axis_left: self.axis_left.deep_view(),
            axis_left_label: self.axis_left_label@,
            axis_right: self.axis_right.deep_view(),
            axis_right_label: self.axis_right_label@,
        }
    }
}

/// Wire color bundle of one view; each slot is optional at the wire level
/// and mandatory for specific view kinds.
#[derive(Clone, Debug, PartialEq, Eq)]
pub struct ChartViewColors {
    pub fill_color: Option<ChartElementColor>,
    pub stroke_color: Option<ChartElementColor>,
    pub point_fill_color: Option<ChartElementColor>,
    pub point_stroke_color: Option<ChartElementColor>,
}

/// Spec model of [`ChartViewColors`].
pub struct SpecViewColors {
    pub fill_color: Option<SpecElementColor>,
    pub stroke_color: Option<SpecElementColor>,
    pub point_fill_color: Option<SpecElementColor>,
    pub point_stroke_color: Option<SpecElementColor>,
}

impl DeepView for ChartViewColors {
    type V = SpecViewColors;

    open spec fn deep_view(&self) -> SpecViewColors {
        SpecViewColors {
            fill_color: self.fill_color.deep_view(),
            stroke_color: self.stroke_color.deep_view(),
            point_fill_color: self.point_fill_color.deep_view(),
            point_stroke_color: self.point_stroke_color.deep_view(),
        }
    }
}

/// Wire colors of one bars dataset.
#[derive(Clone, Debug, PartialEq, Eq)]
pub struct ChartViewBarsColors {
    pub fill: Option<ChartElementColor>,
    pub stroke: Option<ChartElementColor>,
}

/// Spec model of [`ChartViewBarsColors`].
pub struct SpecBarsColors {
    pub fill: Option<SpecElementColor>,
    pub stroke: Option<SpecElementColor>,
}

impl DeepView for ChartViewBarsColors {
    type V = SpecBarsColors;

    open spec fn deep_view(&self) -> SpecBarsColors {
        SpecBarsColors { fill: self.fill.deep_view(), stroke: self.stroke.deep_view() }
    }
}

/// One wire bars dataset: its values and its colors.
#[derive(Clone, Debug, PartialEq, Eq)]
pub struct BarsDataset {
    pub values: Vec<FloatBits>,
    pub colors: Option<ChartViewBarsColors>,
}

/// Spec model of [`BarsDataset`].
pub struct SpecBarsDataset {
    pub values: Seq<FloatBits>,
    pub colors: Option<SpecBarsColors>,
}

impl DeepView for BarsDataset {
    type V = SpecBarsDataset;

    open spec fn deep_view(&self) -> SpecBarsDataset {
        SpecBarsDataset { values: self.values.deep_view(), colors: self.colors.deep_view() }
    }
}

/// Wire payload variant for bar views: an ordered list of datasets.
#[derive(Clone, Debug, PartialEq, Eq)]
pub struct ChartViewBarsValues {
    pub bars_datasets: Vec<BarsDataset>,
}

/// Spec model of [`ChartViewBarsValues`].
pub struct SpecBarsValues {
    pub bars_datasets: Seq<SpecBarsDataset>,
}

impl DeepView for ChartViewBarsValues {
    type V = SpecBarsValues;

    open spec fn deep_view(&self) -> SpecBarsValues {
        SpecBarsValues { bars_datasets: self.bars_datasets.deep_view() }
    }
}

/// One wire point of a scatter payload.
#[derive(Clone, Copy, Debug, PartialEq, Eq)]
pub struct Point {
    pub x: FloatBits,
    pub y: FloatBits,
}

impl DeepView for Point {
    type V = Point;

    open spec fn deep_view(&self) -> Point {
        *self
    }
}

/// Wire payload variant for scatter views: an ordered list of points.
#[derive(Clone, Debug, PartialEq, Eq)]
pub struct ChartViewPointsValues {
    pub points: Vec<Point>,
}

/// Spec model of [`ChartViewPointsValues`].
pub struct SpecPointsValues {
    pub points: Seq<Point>,
}

impl DeepView for ChartViewPointsValues {
    type V = SpecPointsValues;

    open spec fn deep_view(&self) -> SpecPointsValues {
        SpecPointsValues { points: self.points.deep_view() }
    }
}

/// Wire payload variant for area and line views: an ordered list of scalars.
#[derive(Clone, Debug, PartialEq, Eq)]
pub struct ChartViewScalarValues {
    pub values: Vec<FloatBits>,
}

/// Spec model of [`ChartViewScalarValues`].
pub struct SpecScalarValues {
    pub values: Seq<FloatBits>,
}

impl DeepView for ChartViewScalarValues {
    type V = SpecScalarValues;

    open spec fn deep_view(&self) -> SpecScalarValues {
        SpecScalarValues { values: self.values.deep_view() }
    }
}

/// Wire view payload: exactly one of the three shapes is populated; the
/// expected shape is determined by the view kind, not by the payload.
#[derive(Clone, Debug, PartialEq, Eq)]
pub enum Values {
    ScalarValues(ChartViewScalarValues),
    PointsValues(ChartViewPointsValues),
    BarsValues(ChartViewBarsValues),
}

/// Spec model of [`Values`].
pub enum SpecPayload {
    ScalarValues(SpecScalarValues),
    PointsValues(SpecPointsValues),
    BarsValues(SpecBarsValues),
}

impl DeepView for Values {
    type V = SpecPayload;

    open spec fn deep_view(&self) -> SpecPayload {
        match self {
            Values::ScalarValues(v) => SpecPayload::ScalarValues(v.deep_view()),
            Values::PointsValues(v) => SpecPayload::PointsValues(v.deep_view()),
            Values::BarsValues(v) => SpecPayload::BarsValues(v.deep_view()),
        }
    }
}

/// Wire tag values for the view kind; any other tag is unknown.
#[derive(Clone, Copy, Debug, PartialEq, Eq)]
pub enum ChartViewKind {
    UnspecifiedKind,
    Area,
    HorizontalBar,
    Line,
    Scatter,
    VerticalBar,
}

impl ChartViewKind {
    /// The wire tag of this view kind.
    pub open spec fn spec_as_i32(self) -> i32 {
        match self {
            ChartViewKind::UnspecifiedKind => 0,
            ChartViewKind::Area => 1,
            ChartViewKind::HorizontalBar => 2,
            ChartViewKind::Line => 3,
            ChartViewKind::Scatter => 4,
            ChartViewKind::VerticalBar => 5,
        }
    }

    /// The wire tag of this view kind.
    pub fn as_i32(&self) -> (r: i32)
        ensures
            r == self.spec_as_i32(),
    {
        match self {
            ChartViewKind::UnspecifiedKind => 0,
            ChartViewKind::Area => 1,
            ChartViewKind::HorizontalBar => 2,
            ChartViewKind::Line => 3,
            ChartViewKind::Scatter => 4,
            ChartViewKind::VerticalBar => 5,
        }
    }
}

/// Wire tag values for the bar label position.
#[derive(Clone, Copy, Debug, PartialEq, Eq)]
pub enum ChartViewBarLabelPosition {
    UnspecifiedBarLabelPosition,
    StartOutside,
    StartInside,
    Center,
    EndInside,
    EndOutside,
}

impl ChartViewBarLabelPosition {
    /// The wire tag of this bar label position.
    pub open spec fn spec_as_i32(self) -> i32 {
        match self {
            ChartViewBarLabelPosition::UnspecifiedBarLabelPosition => 0,
            ChartViewBarLabelPosition::StartOutside => 1,
            ChartViewBarLabelPosition::StartInside => 2,
            ChartViewBarLabelPosition::Center => 3,
            ChartViewBarLabelPosition::EndInside => 4,
            ChartViewBarLabelPosition::EndOutside => 5,
        }
    }

    /// The wire tag of this bar label position.
    pub fn as_i32(&self) -> (r: i32)
        ensures
            r == self.spec_as_i32(),
    {
        match self {
            ChartViewBarLabelPosition::UnspecifiedBarLabelPosition => 0,
            ChartViewBarLabelPosition::StartOutside => 1,
            ChartViewBarLabelPosition::StartInside => 2,
            ChartViewBarLabelPosition::Center => 3,
            ChartViewBarLabelPosition::EndInside => 4,
            ChartViewBarLabelPosition::EndOutside => 5,
        }
    }
}

/// Wire tag values for the point type.
#[derive(Clone, Copy, Debug, PartialEq, Eq)]
pub enum ChartViewPointType {
    UnspecifiedPointType,
    Circle,
    Square,
    X,
}

impl ChartViewPointType {
    /// The wire tag of this point type.
    pub open spec fn spec_as_i32(self) -> i32 {
        match self {
            ChartViewPointType::UnspecifiedPointType => 0,
            ChartViewPointType::Circle => 1,
            ChartViewPointType::Square => 2,
            ChartViewPointType::X => 3,
        }
    }

    /// The wire tag of this point type.
    pub fn as_i32(&self) -> (r: i32)
        ensures
            r == self.spec_as_i32(),
    {
        match self {
            ChartViewPointType::UnspecifiedPointType => 0,
            ChartViewPointType::Circle => 1,
            ChartViewPointType::Square => 2,
            ChartViewPointType::X => 3,
        }
    }
}

/// Wire tag values for the point label position.
#[derive(Clone, Copy, Debug, PartialEq, Eq)]
pub enum ChartViewPointLabelPosition {
    UnspecifiedPointLabelPosition,
    Top,
    TopRight,
    TopLeft,
    Left,
    Right,
    Bottom,
    BottomLeft,
    BottomRight,
}

impl ChartViewPointLabelPosition {
    /// The wire tag of this point label position.
    pub open spec fn spec_as_i32(self) -> i32 {
        match self {
            ChartViewPointLabelPosition::UnspecifiedPointLabelPosition => 0,
            ChartViewPointLabelPosition::Top => 1,
            ChartViewPointLabelPosition::TopRight => 2,
            ChartViewPointLabelPosition::TopLeft => 3,
            ChartViewPointLabelPosition::Left => 4,
            ChartViewPointLabelPosition::Right => 5,
            ChartViewPointLabelPosition::Bottom => 6,
            ChartViewPointLabelPosition::BottomLeft => 7,
            ChartViewPointLabelPosition::BottomRight => 8,
        }
    }

    /// The wire tag of this point label position.
    pub fn as_i32(&self) -> (r: i32)
        ensures
            r == self.spec_as_i32(),
    {
        match self {
            ChartViewPointLabelPosition::UnspecifiedPointLabelPosition => 0,
            ChartViewPointLabelPosition::Top => 1,
            ChartViewPointLabelPosition::TopRight => 2,
            ChartViewPointLabelPosition::TopLeft => 3,
            ChartViewPointLabelPosition::Left => 4,
            ChartViewPointLabelPosition::Right => 5,
            ChartViewPointLabelPosition::Bottom => 6,
            ChartViewPointLabelPosition::BottomLeft => 7,
            ChartViewPointLabelPosition::BottomRight => 8,
        }
    }
}

/// Wire configuration of one view.
#[derive(Clone, Debug, PartialEq, Eq)]
pub struct ChartView {
    /// Wire tag of the view kind.
    pub kind: i32,
    /// Colors for the view; mandatoriness of each slot depends on the kind.
    pub colors: Option<ChartViewColors>,
    /// Bar label visibility, for views with bars.
    pub bar_label_visible: Option<bool>,
    /// Wire tag of the bar label position, for views with bars.
    pub bar_label_position: i32,
    /// Point visibility, for views with points.
    pub point_visible: Option<bool>,
    /// Wire tag of the point type, for views with points.
    pub point_type: i32,
    /// Point label visibility, for views with points.
    pub point_label_visible: Option<bool>,
    /// Wire tag of the point label position, for views with points.
    pub point_label_position: i32,
    /// View payload; its expected shape depends on the view kind.
    pub values: Option<Values>,
}

/// Spec model of [`ChartView`].
pub struct SpecChartView {
    pub kind: i32,
    pub colors: Option<SpecViewColors>,
    pub bar_label_visible: Option<bool>,
    pub bar_label_position: i32,
    pub point_visible: Option<bool>,
    pub point_type: i32,
    pub point_label_visible: Option<bool>,
    pub point_label_position: i32,
    pub values: Option<SpecPayload>,
}

impl DeepView for ChartView {
    type V = SpecChartView;

    open spec fn deep_view(&self) -> SpecChartView {
        SpecChartView {
            kind: self.kind,
            colors: self.colors.deep_view(),
            bar_label_visible: self.bar_label_visible,
            bar_label_position: self.bar_label_position,
            point_visible: self.point_visible,
            point_type: self.point_type,
            point_label_visible: self.point_label_visible,
            point_label_position: self.point_label_position,
            values: self.values.deep_view(),
        }
    }
}

/// One complete wire chart request.
#[derive(Clone, Debug, PartialEq, Eq)]
pub struct RenderChartRequest {
    pub request_id: String,
    pub title: String,
    pub sizes: Option<ChartSizes>,
    pub margins: Option<ChartMargins>,
    pub axes: Option<ChartAxes>,
    pub views: Vec<ChartView>,
}

/// Spec model of [`RenderChartRequest`].
pub struct SpecRenderChartRequest {
    pub request_id: Seq<char>,
    pub title: Seq<char>,
    pub sizes: Option<ChartSizes>,
    pub margins: Option<ChartMargins>,
    pub axes: Option<SpecChartAxes>,
    pub views: Seq<SpecChartView>,
}

impl DeepView for RenderChartRequest {
    type V = SpecRenderChartRequest;

    open spec fn deep_view(&self) -> SpecRenderChartRequest {
        SpecRenderChartRequest {
            request_id: self.request_id@,
            title: self.title@,
            sizes: self.sizes,
            margins: self.margins,
            axes: self.axes.deep_view(),
            views: self.views.deep_view(),
        }
    }
}

} // verus!
