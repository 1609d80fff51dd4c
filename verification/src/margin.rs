//! Resolution of the four chart margins.
//!
//! All four margins are optional on the wire and individually mandatory
//! after resolution; the absence of each is its own named error, checked
//! in the fixed order top, bottom, left, right.

use vstd::prelude::*;

use crate::error::RendererError;
use crate::wire::ChartMargins;

verus! {

/// Resolved chart margins, all four present.
#[derive(Clone, Copy, Debug, PartialEq, Eq)]
pub struct Margins {
    pub top: i32,
    pub bottom: i32,
    pub left: i32,
    pub right: i32,
}

/// What margin resolution returns: the bundle itself must be present, then
/// each of the four slots, checked top, bottom, left, right.
pub open spec fn spec_get_margins(margins: Option<ChartMargins>) -> Result<
    Margins,
    RendererError,
> {
    match margins {
        None => Err(RendererError::ChartMarginsAreNotSpecified),
        Some(m) => {
            if m.margin_top is None {
                Err(RendererError::ChartTopMarginIsNotSpecified)
            } else if m.margin_bottom is None {
                Err(RendererError::ChartBottomMarginIsNotSpecified)
            } else if m.margin_left is None {
                Err(RendererError::ChartLeftMarginIsNotSpecified)
            } else if m.margin_right is None {
                Err(RendererError::ChartRightMarginIsNotSpecified)
            } else {
                Ok(
                    Margins {
                        top: m.margin_top->0,
                        bottom: m.margin_bottom->0,
                        left: m.margin_left->0,
                        right: m.margin_right->0,
                    },
                )
            }
        },
    }
}

/// Resolve the wire margins into their mandatory form, failing with the
/// distinct error of the first absent slot.
pub fn get_margins(margins: Option<ChartMargins>) -> (r: Result<Margins, RendererError>)
    ensures
        r == spec_get_margins(margins),
{
    match margins {
        None => Err(RendererError::ChartMarginsAreNotSpecified),
        Some(m) => {
            let top = match m.margin_top {
                Some(top) => top,
                None => {
                    return Err(RendererError::ChartTopMarginIsNotSpecified);
                },
            };
            let bottom = match m.margin_bottom {
                Some(bottom) => bottom,
                None => {
                    return Err(RendererError::ChartBottomMarginIsNotSpecified);
                },
            };
            let left = match m.margin_left {
                Some(left) => left,
                None => {
                    return Err(RendererError::ChartLeftMarginIsNotSpecified);
                },
            };
            let right = match m.margin_right {
                Some(right) => right,
                None => {
                    return Err(RendererError::ChartRightMarginIsNotSpecified);
                },
            };
            Ok(Margins { top, bottom, left, right })
        },
    }
}

/// Each margin slot is mandatory on its own: with the earlier slots
/// present, the absence of a slot is reported as exactly that slot's
/// error, and a request with all four present resolves to those values.
pub proof fn lemma_margin_slots_independent(m: ChartMargins)
    ensures
        m.margin_top is None ==> spec_get_margins(Some(m)) == Err::<
            Margins,
            RendererError,
        >(RendererError::ChartTopMarginIsNotSpecified),
        m.margin_top is Some && m.margin_bottom is None ==> spec_get_margins(Some(m)) == Err::<
            Margins,
            RendererError,
        >(RendererError::ChartBottomMarginIsNotSpecified),
        m.margin_top is Some && m.margin_bottom is Some && m.margin_left is None
            ==> spec_get_margins(Some(m)) == Err::<Margins, RendererError>(
            RendererError::ChartLeftMarginIsNotSpecified,
        ),
        m.margin_top is Some && m.margin_bottom is Some && m.margin_left is Some
            && m.margin_right is None ==> spec_get_margins(Some(m)) == Err::<
            Margins,
            RendererError,
        >(RendererError::ChartRightMarginIsNotSpecified),
        m.margin_top is Some && m.margin_bottom is Some && m.margin_left is Some
            && m.margin_right is Some ==> spec_get_margins(Some(m)) == Ok::<
            Margins,
            RendererError,
        >(
            Margins {
                top: m.margin_top->0,
                bottom: m.margin_bottom->0,
                left: m.margin_left->0,
                right: m.margin_right->0,
            },
        ),
{
}

} // verus!
