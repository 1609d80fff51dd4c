//! Resolution of the bar label position enumeration.
//!
//! A total function over the wire tag: every tag maps to a named variant
//! or fails; the unspecified sentinel and out-of-range tags both resolve
//! to the same named failure. There is no fallback value.

use vstd::prelude::*;

use crate::error::RendererError;
use crate::wire::ChartView;

verus! {

/// A resolved bar label position.
#[derive(Clone, Copy, Debug, PartialEq, Eq)]
pub enum BarLabelPosition {
    StartOutside,
    StartInside,
    Center,
    EndInside,
    EndOutside,
}

/// What bar label position resolution returns for a wire tag.
pub open spec fn spec_get_bar_label_position(tag: i32) -> Result<BarLabelPosition, RendererError> {
    if tag == 1 {
        Ok(BarLabelPosition::StartOutside)
    } else if tag == 2 {
        Ok(BarLabelPosition::StartInside)
    } else if tag == 3 {
        Ok(BarLabelPosition::Center)
    } else if tag == 4 {
        Ok(BarLabelPosition::EndInside)
    } else if tag == 5 {
        Ok(BarLabelPosition::EndOutside)
    } else {
        Err(RendererError::BarLabelPositionIsUnknown)
    }
}

/// Resolve the bar label position of a view from its wire tag.
pub fn get_bar_label_position(view: &ChartView) -> (r: Result<BarLabelPosition, RendererError>)
    ensures
        r == spec_get_bar_label_position(view.bar_label_position),
{
    if view.bar_label_position == 1 {
        Ok(BarLabelPosition::StartOutside)
    } else if view.bar_label_position == 2 {
        Ok(BarLabelPosition::StartInside)
    } else if view.bar_label_position == 3 {
        Ok(BarLabelPosition::Center)
    } else if view.bar_label_position == 4 {
        Ok(BarLabelPosition::EndInside)
    } else if view.bar_label_position == 5 {
        Ok(BarLabelPosition::EndOutside)
    } else {
        Err(RendererError::BarLabelPositionIsUnknown)
    }
}

} // verus!
