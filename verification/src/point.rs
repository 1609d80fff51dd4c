//! Resolution of the point type and point label position enumerations.
//!
//! Each is a total function over the wire tag: every tag maps to a named
//! variant or fails; the unspecified sentinel and out-of-range tags both
//! resolve to the same named failure. There is no fallback value.

use vstd::prelude::*;

use crate::error::RendererError;
use crate::wire::ChartView;

verus! {

/// A resolved point type.
#[derive(Clone, Copy, Debug, PartialEq, Eq)]
pub enum PointType {
    Circle,
    Square,
    X,
}

/// A resolved point label position.
#[derive(Clone, Copy, Debug, PartialEq, Eq)]
pub enum PointLabelPosition {
    Top,
    TopLeft,
    TopRight,
    Left,
    Right,
    Bottom,
    BottomLeft,
    BottomRight,
}

/// What point label position resolution returns for a wire tag.
pub open spec fn spec_get_point_label_position(tag: i32) -> Result<
    PointLabelPosition,
    RendererError,
> {
    if tag == 1 {
        Ok(PointLabelPosition::Top)
    } else if tag == 2 {
        Ok(PointLabelPosition::TopRight)
    } else if tag == 3 {
        Ok(PointLabelPosition::TopLeft)
    } else if tag == 4 {
        Ok(PointLabelPosition::Left)
    } else if tag == 5 {
        Ok(PointLabelPosition::Right)
    } else if tag == 6 {
        Ok(PointLabelPosition::Bottom)
    } else if tag == 7 {
        Ok(PointLabelPosition::BottomLeft)
    } else if tag == 8 {
        Ok(PointLabelPosition::BottomRight)
    } else {
        Err(RendererError::PointLabelPositionIsUnknown)
    }
}

/// Resolve the point label position of a view from its wire tag.
pub fn get_point_label_position(view: &ChartView) -> (r: Result<
    PointLabelPosition,
    RendererError,
>)
    ensures
        r == spec_get_point_label_position(view.point_label_position),
{
    if view.point_label_position == 1 {
        Ok(PointLabelPosition::Top)
    } else if view.point_label_position == 2 {
        Ok(PointLabelPosition::TopRight)
    } else if view.point_label_position == 3 {
        Ok(PointLabelPosition::TopLeft)
    } else if view.point_label_position == 4 {
        Ok(PointLabelPosition::Left)
    } else if view.point_label_position == 5 {
        Ok(PointLabelPosition::Right)
    } else if view.point_label_position == 6 {
        Ok(PointLabelPosition::Bottom)
    } else if view.point_label_position == 7 {
        Ok(PointLabelPosition::BottomLeft)
    } else if view.point_label_position == 8 {
        Ok(PointLabelPosition::BottomRight)
    } else {
        Err(RendererError::PointLabelPositionIsUnknown)
    }
}

/// What point type resolution returns for a wire tag.
pub open spec fn spec_get_point_type(tag: i32) -> Result<PointType, RendererError> {
    if tag == 1 {
        Ok(PointType::Circle)
    } else if tag == 2 {
        Ok(PointType::Square)
    } else if tag == 3 {
        Ok(PointType::X)
    } else {
        Err(RendererError::PointTypeIsUnknown)
    }
}

/// Resolve the point type of a view from its wire tag.
pub fn get_point_type(view: &ChartView) -> (r: Result<PointType, RendererError>)
    ensures
        r == spec_get_point_type(view.point_type),
{
    if view.point_type == 1 {
        Ok(PointType::Circle)
    } else if view.point_type == 2 {
        Ok(PointType::Square)
    } else if view.point_type == 3 {
        Ok(PointType::X)
    } else {
        Err(RendererError::PointTypeIsUnknown)
    }
}

} // verus!
