//! Resolution of the two chart size dimensions.
//!
//! Width and height are optional on the wire and individually mandatory
//! after resolution; the absence of each is its own named error, checked
//! width first.

use vstd::prelude::*;

use crate::error::RendererError;
use crate::wire::ChartSizes;

verus! {

/// Resolved chart sizes, both dimensions present.
#[derive(Clone, Copy, Debug, PartialEq, Eq)]
pub struct Sizes {
    pub width: i32,
    pub height: i32,
}

/// What size resolution returns: the bundle itself must be present, then
/// width, then height.
pub open spec fn spec_get_sizes(sizes: Option<ChartSizes>) -> Result<Sizes, RendererError> {
    match sizes {
        None => Err(RendererError::ChartSizesAreNotSpecified),
        Some(s) => {
            if s.width is None {
                Err(RendererError::ChartWidthIsNotSpecified)
            } else if s.height is None {
                Err(RendererError::ChartHeightIsNotSpecified)
            } else {
                Ok(Sizes { width: s.width->0, height: s.height->0 })
            }
        },
    }
}

/// Resolve the wire sizes into their mandatory form, failing with the
/// distinct error of the first absent dimension.
pub fn get_sizes(sizes: Option<ChartSizes>) -> (r: Result<Sizes, RendererError>)
    ensures
        r == spec_get_sizes(sizes),
{
    match sizes {
        None => Err(RendererError::ChartSizesAreNotSpecified),
        Some(s) => {
            let width = match s.width {
                Some(width) => width,
                None => {
                    return Err(RendererError::ChartWidthIsNotSpecified);
                },
            };
            let height = match s.height {
                Some(height) => height,
                None => {
                    return Err(RendererError::ChartHeightIsNotSpecified);
                },
            };
            Ok(Sizes { width, height })
        },
    }
}

/// Each size dimension is mandatory on its own: a missing width is
/// reported as the width error, a missing height (with width present) as
/// the height error, and a request with both present resolves to them.
pub proof fn lemma_size_slots_independent(s: ChartSizes)
    ensures
        s.width is None ==> spec_get_sizes(Some(s)) == Err::<Sizes, RendererError>(
            RendererError::ChartWidthIsNotSpecified,
        ),
        s.width is Some && s.height is None ==> spec_get_sizes(Some(s)) == Err::<
            Sizes,
            RendererError,
        >(RendererError::ChartHeightIsNotSpecified),
        s.width is Some && s.height is Some ==> spec_get_sizes(Some(s)) == Ok::<
            Sizes,
            RendererError,
        >(Sizes { width: s.width->0, height: s.height->0 }),
{
}

} // verus!
