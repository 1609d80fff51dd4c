//! Extraction of view payloads into their uniform resolved form.
//!
//! Each view kind expects exactly one payload shape; a payload of any
//! other shape is a wrong-variant error, and an absent payload is its own
//! error. Bars payloads additionally require both colors of every dataset,
//! checked in order; the first failing dataset aborts the whole
//! extraction.

use vstd::prelude::*;

use crate::color::{get_color, spec_get_color, Color, SpecColor};
use crate::error::RendererError;
use crate::wire::{ChartView, FloatBits, SpecBarsDataset, SpecChartView, SpecPayload, Values};

verus! {

/// One resolved bars dataset: its values and both of its colors.
#[derive(Clone, Debug, PartialEq, Eq)]
pub struct BarsValues {
    pub values: Vec<FloatBits>,
    pub fill_color: Color,
    pub stroke_color: Color,
}

/// Spec model of [`BarsValues`].
pub struct SpecResolvedBars {
    pub values: Seq<FloatBits>,
    pub fill_color: SpecColor,
    pub stroke_color: SpecColor,
}

impl DeepView for BarsValues {
    type V = SpecResolvedBars;

    open spec fn deep_view(&self) -> SpecResolvedBars {
        SpecResolvedBars {
            values: self.values.deep_view(),
            fill_color: self.fill_color.deep_view(),
            stroke_color: self.stroke_color.deep_view(),
        }
    }
}

impl BarsValues {
    /// The values of this dataset.
    pub fn values(&self) -> (r: &Vec<FloatBits>)
        ensures
            r == &self.values,
    {
        &self.values
    }

    /// The fill color of this dataset.
    pub fn fill_color(&self) -> (r: &Color)
        ensures
            r == &self.fill_color,
    {
        &self.fill_color
    }

    /// The stroke color of this dataset.
    pub fn stroke_color(&self) -> (r: &Color)
        ensures
            r == &self.stroke_color,
    {
        &self.stroke_color
    }
}

/// What scalar extraction returns: the payload must be present and of the
/// scalar shape; its values are taken in order.
pub open spec fn spec_get_scalar_values(v: SpecChartView) -> Result<Seq<FloatBits>, RendererError> {
    match v.values {
        None => Err(RendererError::ViewValuesAreNotSpecified),
        Some(SpecPayload::ScalarValues(sv)) => Ok(sv.values),
        Some(_) => Err(RendererError::ExpectedScalarValues),
    }
}

/// Extract the scalar payload of a view.
pub fn get_scalar_values(view: &ChartView) -> (r: Result<Vec<FloatBits>, RendererError>)
    ensures
        (r matches Ok(v) ==> spec_get_scalar_values(view.deep_view()) == Ok::<
            Seq<FloatBits>,
            RendererError,
        >(v.deep_view())),
        (r matches Err(e) ==> spec_get_scalar_values(view.deep_view()) == Err::<
            Seq<FloatBits>,
            RendererError,
        >(e)),
{
    match &view.values {
        Some(Values::ScalarValues(sv)) => {
            let values = sv.values.clone();
            proof {
                assert(values.deep_view() =~= sv.values.deep_view());
            }
            Ok(values)
        },
        Some(_) => Err(RendererError::ExpectedScalarValues),
        None => Err(RendererError::ViewValuesAreNotSpecified),
    }
}

/// What points extraction returns: the payload must be present and of the
/// points shape; each point becomes an (x, y) pair, in order.
pub open spec fn spec_get_points_values(v: SpecChartView) -> Result<
    Seq<(FloatBits, FloatBits)>,
    RendererError,
> {
    match v.values {
        None => Err(RendererError::ViewValuesAreNotSpecified),
        Some(SpecPayload::PointsValues(pv)) => Ok(
            Seq::new(pv.points.len(), |i: int| (pv.points[i].x, pv.points[i].y)),
        ),
        Some(_) => Err(RendererError::ExpectedPointsValues),
    }
}

/// Extract the points payload of a view, preserving input order.
pub fn get_points_values(view: &ChartView) -> (r: Result<
    Vec<(FloatBits, FloatBits)>,
    RendererError,
>)
    ensures
        (r matches Ok(v) ==> spec_get_points_values(view.deep_view()) == Ok::<
            Seq<(FloatBits, FloatBits)>,
            RendererError,
        >(v.deep_view())),
        (r matches Err(e) ==> spec_get_points_values(view.deep_view()) == Err::<
            Seq<(FloatBits, FloatBits)>,
            RendererError,
        >(e)),
{
    match &view.values {
        Some(Values::PointsValues(pv)) => {
            let points = &pv.points;
            let mut values: Vec<(FloatBits, FloatBits)> = Vec::new();
            let mut i: usize = 0;
            while i < points.len()
                invariant
                    i <= points.len(),
                    values@.len() == i,
                    forall|j: int|
                        0 <= j < i ==> values@[j] == (points@[j].x, points@[j].y),
                decreases points.len() - i,
            {
                let p = points[i];
                values.push((p.x, p.y));
                i += 1;
            }
            proof {
                assert(values.deep_view() =~= Seq::new(
                    points.deep_view().len(),
                    |i: int| (points.deep_view()[i].x, points.deep_view()[i].y),
                ));
            }
            Ok(values)
        },
        Some(_) => Err(RendererError::ExpectedPointsValues),
        None => Err(RendererError::ViewValuesAreNotSpecified),
    }
}

/// What the extraction of one bars dataset returns: the dataset's colors
/// must be present, then its fill color, then its stroke color; its
/// values are taken in order.
pub open spec fn spec_get_bars_dataset(d: SpecBarsDataset) -> Result<
    SpecResolvedBars,
    RendererError,
> {
    match d.colors {
        None => Err(RendererError::ColorsForBarsValuesAreNotSpecified),
        Some(c) => match spec_get_color(c.fill) {
            None => Err(RendererError::FillColorForBarsValuesIsNotSpecified),
            Some(fill) => match spec_get_color(c.stroke) {
                None => Err(RendererError::StrokeColorForBarsValuesIsNotSpecified),
                Some(stroke) => Ok(
                    SpecResolvedBars { values: d.values, fill_color: fill, stroke_color: stroke },
                ),
            },
        },
    }
}

/// What the extraction of an ordered list of bars datasets returns: each
/// dataset resolved in order, stopping at the first failing one.
pub open spec fn spec_get_bars_list(ds: Seq<SpecBarsDataset>) -> Result<
    Seq<SpecResolvedBars>,
    RendererError,
>
    decreases ds.len(),
{
    if ds.len() == 0 {
        Ok(Seq::empty())
    } else {
        match spec_get_bars_list(ds.drop_last()) {
            Err(e) => Err(e),
            Ok(rest) => match spec_get_bars_dataset(ds.last()) {
                Err(e) => Err(e),
                Ok(b) => Ok(rest.push(b)),
            },
        }
    }
}

/// Once a prefix of the dataset list fails, the whole list fails with
/// that same first error.
proof fn lemma_bars_list_err_persists(ds: Seq<SpecBarsDataset>, i: int)
    requires
        0 <= i <= ds.len(),
        spec_get_bars_list(ds.take(i)) is Err,
    ensures
        spec_get_bars_list(ds) == spec_get_bars_list(ds.take(i)),
    decreases ds.len() - i,
{
    if i == ds.len() {
        assert(ds.take(i) =~= ds);
    } else {
        assert(ds.take(i + 1).drop_last() =~= ds.take(i));
        assert(spec_get_bars_list(ds.take(i + 1)) == spec_get_bars_list(ds.take(i)));
        lemma_bars_list_err_persists(ds, i + 1);
    }
}

/// What bars extraction returns: the payload must be present and of the
/// bars shape; its datasets are resolved in order by
/// [`spec_get_bars_list`].
pub open spec fn spec_get_bars_values(v: SpecChartView) -> Result<
    Seq<SpecResolvedBars>,
    RendererError,
> {
    match v.values {
        None => Err(RendererError::ViewValuesAreNotSpecified),
        Some(SpecPayload::BarsValues(b)) => spec_get_bars_list(b.bars_datasets),
        Some(_) => Err(RendererError::ExpectedBarsValues),
    }
}

/// Extract the bars payload of a view: every dataset must carry both of
/// its colors; the first failing dataset aborts the whole extraction.
pub fn get_bars_values(view: &ChartView) -> (r: Result<Vec<BarsValues>, RendererError>)
    ensures
        (r matches Ok(v) ==> spec_get_bars_values(view.deep_view()) == Ok::<
            Seq<SpecResolvedBars>,
            RendererError,
        >(v.deep_view())),
        (r matches Err(e) ==> spec_get_bars_values(view.deep_view()) == Err::<
            Seq<SpecResolvedBars>,
            RendererError,
        >(e)),
{
    let bars = match &view.values {
        Some(Values::BarsValues(b)) => b,
        Some(_) => {
            return Err(RendererError::ExpectedBarsValues);
        },
        None => {
            return Err(RendererError::ViewValuesAreNotSpecified);
        },
    };
    let ds = &bars.bars_datasets;
    let ghost sds = ds.deep_view();
    let mut res: Vec<BarsValues> = Vec::new();
    let mut i: usize = 0;
    proof {
        assert(sds.take(0) =~= Seq::<SpecBarsDataset>::empty());
        assert(res.deep_view() =~= Seq::<SpecResolvedBars>::empty());
    }
    while i < ds.len()
        invariant
            i <= ds.len(),
            sds == ds.deep_view(),
            sds.len() == ds@.len(),
            spec_get_bars_list(sds.take(i as int)) == Ok::<Seq<SpecResolvedBars>, RendererError>(
                res.deep_view(),
            ),
            spec_get_bars_values(view.deep_view()) == spec_get_bars_list(sds),
        decreases ds.len() - i,
    {
        let d = &ds[i];
        let colors = match &d.colors {
            Some(colors) => colors,
            None => {
                proof {
                    assert(sds.take(i as int + 1).drop_last() =~= sds.take(i as int));
                    assert(spec_get_bars_list(sds.take(i as int + 1)) == Err::<
                        Seq<SpecResolvedBars>,
                        RendererError,
                    >(RendererError::ColorsForBarsValuesAreNotSpecified));
                    lemma_bars_list_err_persists(sds, i as int + 1);
                }
                return Err(RendererError::ColorsForBarsValuesAreNotSpecified);
            },
        };
        let fill_color = match get_color(&colors.fill) {
            Some(fill_color) => fill_color,
            None => {
                proof {
                    assert(sds.take(i as int + 1).drop_last() =~= sds.take(i as int));
                    assert(spec_get_bars_list(sds.take(i as int + 1)) == Err::<
                        Seq<SpecResolvedBars>,
                        RendererError,
                    >(RendererError::FillColorForBarsValuesIsNotSpecified));
                    lemma_bars_list_err_persists(sds, i as int + 1);
                }
                return Err(RendererError::FillColorForBarsValuesIsNotSpecified);
            },
        };
        let stroke_color = match get_color(&colors.stroke) {
            Some(stroke_color) => stroke_color,
            None => {
                proof {
                    assert(sds.take(i as int + 1).drop_last() =~= sds.take(i as int));
                    assert(spec_get_bars_list(sds.take(i as int + 1)) == Err::<
                        Seq<SpecResolvedBars>,
                        RendererError,
                    >(RendererError::StrokeColorForBarsValuesIsNotSpecified));
                    lemma_bars_list_err_persists(sds, i as int + 1);
                }
                return Err(RendererError::StrokeColorForBarsValuesIsNotSpecified);
            },
        };
        let values = d.values.clone();
        proof {
            assert(values@ =~= d.values@);
        }
        res.push(BarsValues { values, fill_color, stroke_color });
        proof {
            assert(sds.take(i as int + 1).drop_last() =~= sds.take(i as int));
            assert(res.deep_view() =~= spec_get_bars_list(
                sds.take(i as int + 1),
            )->Ok_0);
            assert(spec_get_bars_list(sds.take(i as int + 1)) == Ok::<
                Seq<SpecResolvedBars>,
                RendererError,
            >(res.deep_view()));
        }
        i += 1;
    }
    proof {
        assert(sds.take(sds.len() as int) =~= sds);
    }
    Ok(res)
}

/// Every payload shape is enforced, never coerced: a present payload of
/// the wrong shape fails each extractor with exactly its wrong-variant
/// error, and an absent payload fails each with the absence error.
pub proof fn lemma_payload_variant_enforced(v: SpecChartView)
    ensures
        v.values is Some && !(v.values->0 is ScalarValues) ==> spec_get_scalar_values(v) == Err::<
            Seq<FloatBits>,
            RendererError,
        >(RendererError::ExpectedScalarValues),
        v.values is Some && !(v.values->0 is PointsValues) ==> spec_get_points_values(v) == Err::<
            Seq<(FloatBits, FloatBits)>,
            RendererError,
        >(RendererError::ExpectedPointsValues),
        v.values is Some && !(v.values->0 is BarsValues) ==> spec_get_bars_values(v) == Err::<
            Seq<SpecResolvedBars>,
            RendererError,
        >(RendererError::ExpectedBarsValues),
        v.values is None ==> spec_get_scalar_values(v) == Err::<Seq<FloatBits>, RendererError>(
            RendererError::ViewValuesAreNotSpecified,
        ) && spec_get_points_values(v) == Err::<Seq<(FloatBits, FloatBits)>, RendererError>(
            RendererError::ViewValuesAreNotSpecified,
        ) && spec_get_bars_values(v) == Err::<Seq<SpecResolvedBars>, RendererError>(
            RendererError::ViewValuesAreNotSpecified,
        ),
{
}

} // verus!
